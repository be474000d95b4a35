//! The widget application's state and its refresh schedule.
//!
//! `WidgetApp` keeps everything the panels draw from: the latest gauge
//! readings, the two chart histories, and the timestamps of the last
//! refreshes. The host loop owns the clock, the telemetry handles and the
//! HTTP client; each frame it asks `need_update` and `weather_need_update`
//! whether a poll is due, performs the due polls, and hands the readings
//! back through `record_metrics` and `record_weather`. Timestamps are in
//! milliseconds of the host's monotonic clock.

use std::collections::VecDeque;
use vstd::prelude::*;

use crate::widgets::cpu::{average_of, cpu_usage_history};
use crate::widgets::history::{push_capped, HISTORY_CAPACITY};
use crate::widgets::memory::{memory_is_default, memory_usage_history, MemoryUsage};
use crate::widgets::weather::{weather_is_default, weather_or_default, Weather};

verus! {

/// Milliseconds between polls of the host's gauges.
pub const UPDATE_INTERVAL_MS: u64 = 1000;

/// Milliseconds between fetches of the weather report.
pub const WEATHER_UPDATE_INTERVAL_MS: u64 = 5 * 60 * 1000;

/// Milliseconds gone by since a reading was taken, by a clock that never
/// runs backwards: zero when the clock reads earlier than the reading.
pub open spec fn spec_elapsed(last_ms: u64, now_ms: u64) -> int {
    if now_ms >= last_ms {
        now_ms - last_ms
    } else {
        0
    }
}

/// The timestamp that lies a whole interval in the past, so that the first
/// poll falls due right away; clipped to zero near the clock's start.
pub open spec fn spec_backdated(now_ms: u64, interval_ms: u64) -> u64 {
    if now_ms >= interval_ms {
        (now_ms - interval_ms) as u64
    } else {
        0
    }
}

/// The state behind the widget panels.
pub struct WidgetApp {
    /// Recent overall processor usage, in hundredths of a percent, oldest
    /// first.
    pub cpu_usage_history: VecDeque<u64>,
    /// Recent used-memory readings, in bytes, oldest first.
    pub memory_usage_history: VecDeque<u64>,
    /// When the gauges were last polled.
    pub last_update: u64,
    /// Milliseconds between polls of the gauges.
    pub update_interval: u64,
    /// The latest per-core usage readings, in hundredths of a percent.
    pub cpu_usage: Vec<u64>,
    /// The latest memory snapshot.
    pub memory_usage: MemoryUsage,
    /// The latest weather reading, or the zero-valued placeholder.
    pub weather: Weather,
    /// When the weather was last fetched.
    pub weather_last_update: u64,
    /// Milliseconds between fetches of the weather report.
    pub weather_update_interval: u64,
}

impl WidgetApp {
    /// Both chart histories stay within their capacity.
    pub open spec fn wf(self) -> bool {
        &&& self.cpu_usage_history@.len() <= HISTORY_CAPACITY
        &&& self.memory_usage_history@.len() <= HISTORY_CAPACITY
    }

    /// Whether the state is freshly made: empty histories and charts, the
    /// standard intervals, and placeholder readings.
    pub open spec fn is_fresh(self) -> bool {
        &&& self.cpu_usage_history@ == Seq::<u64>::empty()
        &&& self.memory_usage_history@ == Seq::<u64>::empty()
        &&& self.update_interval == UPDATE_INTERVAL_MS
        &&& self.weather_update_interval == WEATHER_UPDATE_INTERVAL_MS
        &&& self.cpu_usage@ == Seq::<u64>::empty()
        &&& memory_is_default(self.memory_usage)
        &&& weather_is_default(self.weather)
    }

    /// Fresh state whose refresh timers are back-dated a whole interval, so
    /// that the first frame polls everything right away.
    pub fn new(now_ms: u64) -> (r: Self)
        ensures
            r.is_fresh(),
            r.last_update == spec_backdated(now_ms, UPDATE_INTERVAL_MS),
            r.weather_last_update == spec_backdated(now_ms, WEATHER_UPDATE_INTERVAL_MS),
            r.wf(),
    {
        let mut app = WidgetApp::default();
        app.last_update = if now_ms >= UPDATE_INTERVAL_MS {
            now_ms - UPDATE_INTERVAL_MS
        } else {
            0
        };
        app.weather_last_update = if now_ms >= WEATHER_UPDATE_INTERVAL_MS {
            now_ms - WEATHER_UPDATE_INTERVAL_MS
        } else {
            0
        };
        app
    }

    /// Whether the gauges are due for a poll: more than one update interval
    /// has gone by since the last one.
    pub fn need_update(&mut self, now_ms: u64) -> (r: bool)
        ensures
            *final(self) == *old(self),
            r == (spec_elapsed(old(self).last_update, now_ms) > old(self).update_interval),
    {
        let elapsed = if now_ms >= self.last_update {
            now_ms - self.last_update
        } else {
            0
        };
        elapsed > self.update_interval
    }

    /// Whether the weather report is due for a fetch: more than one weather
    /// interval has gone by since the last one.
    pub fn weather_need_update(&mut self, now_ms: u64) -> (r: bool)
        ensures
            *final(self) == *old(self),
            r == (spec_elapsed(old(self).weather_last_update, now_ms)
                > old(self).weather_update_interval),
    {
        let elapsed = if now_ms >= self.weather_last_update {
            now_ms - self.weather_last_update
        } else {
            0
        };
        elapsed > self.weather_update_interval
    }

    /// Take one round of gauge readings on board: keep the per-core and
    /// memory readings for the panels, push one sample on each chart
    /// history, and restart the update interval. The weather state is left
    /// alone, and histories within capacity stay within capacity.
    pub fn record_metrics(&mut self, now_ms: u64, cpu_samples: Vec<u64>, memory: MemoryUsage)
        ensures
            final(self).cpu_usage@ == cpu_samples@,
            final(self).memory_usage == memory,
            final(self).cpu_usage_history@ == push_capped(
                old(self).cpu_usage_history@,
                average_of(cpu_samples@) as u64,
            ),
            final(self).memory_usage_history@ == push_capped(
                old(self).memory_usage_history@,
                memory.used_memory,
            ),
            final(self).last_update == now_ms,
            final(self).update_interval == old(self).update_interval,
            final(self).weather == old(self).weather,
            final(self).weather_last_update == old(self).weather_last_update,
            final(self).weather_update_interval == old(self).weather_update_interval,
            old(self).wf() ==> final(self).wf(),
    {
        self.cpu_usage = cpu_samples;
        self.memory_usage = memory;
        cpu_usage_history(&self.cpu_usage, &mut self.cpu_usage_history);
        memory_usage_history(&self.memory_usage, &mut self.memory_usage_history);
        self.last_update = now_ms;
    }

    /// Take the outcome of a weather fetch on board: keep the decoded
    /// reading, or the zero-valued placeholder when the fetch failed, and
    /// restart the weather interval. The gauge state is left alone.
    pub fn record_weather(&mut self, now_ms: u64, fetched: Option<Weather>)
        ensures
            fetched matches Some(w) ==> final(self).weather == w,
            fetched is None ==> weather_is_default(final(self).weather),
            final(self).weather_last_update == now_ms,
            final(self).cpu_usage_history@ == old(self).cpu_usage_history@,
            final(self).memory_usage_history@ == old(self).memory_usage_history@,
            final(self).cpu_usage@ == old(self).cpu_usage@,
            final(self).memory_usage == old(self).memory_usage,
            final(self).last_update == old(self).last_update,
            final(self).update_interval == old(self).update_interval,
            final(self).weather_update_interval == old(self).weather_update_interval,
            old(self).wf() ==> final(self).wf(),
    {
        self.weather = weather_or_default(fetched);
        self.weather_last_update = now_ms;
    }
}

impl Default for WidgetApp {
    /// Fresh state whose refresh timers start at the clock's origin.
    fn default() -> (r: Self)
        ensures
            r.is_fresh(),
            r.last_update == 0,
            r.weather_last_update == 0,
            r.wf(),
    {
        WidgetApp {
            cpu_usage_history: VecDeque::with_capacity(HISTORY_CAPACITY),
            memory_usage_history: VecDeque::with_capacity(HISTORY_CAPACITY),
            last_update: 0,
            update_interval: UPDATE_INTERVAL_MS,
            cpu_usage: Vec::new(),
            memory_usage: MemoryUsage::default(),
            weather: Weather::default(),
            weather_last_update: 0,
            weather_update_interval: WEATHER_UPDATE_INTERVAL_MS,
        }
    }
}

} // verus!
