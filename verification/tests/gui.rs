use std::collections::VecDeque;

use widgets::gui::{WidgetApp, UPDATE_INTERVAL_MS, WEATHER_UPDATE_INTERVAL_MS};
use widgets::widgets::memory::MemoryUsage;
use widgets::widgets::weather::Weather;

fn sample_reading() -> Weather {
    let mut w = Weather::default();
    w.latitude = 5994;
    w.current.temperature_2m = 2150;
    w.current.is_day = 1;
    w.current.wind_direction_10m = 90;
    w
}

#[test]
fn intervals_are_one_second_and_five_minutes() {
    assert_eq!(UPDATE_INTERVAL_MS, 1_000);
    assert_eq!(WEATHER_UPDATE_INTERVAL_MS, 300_000);
}

#[test]
fn default_starts_empty() {
    let app = WidgetApp::default();
    assert!(app.cpu_usage_history.is_empty());
    assert!(app.memory_usage_history.is_empty());
    assert!(app.cpu_usage.is_empty());
    assert_eq!(app.last_update, 0);
    assert_eq!(app.weather_last_update, 0);
    assert_eq!(app.update_interval, UPDATE_INTERVAL_MS);
    assert_eq!(app.weather_update_interval, WEATHER_UPDATE_INTERVAL_MS);
    assert_eq!(app.memory_usage, MemoryUsage::default());
    assert_eq!(app.weather, Weather::default());
}

#[test]
fn new_backdates_both_timers() {
    let app = WidgetApp::new(400_000);
    assert_eq!(app.last_update, 399_000);
    assert_eq!(app.weather_last_update, 100_000);
}

#[test]
fn new_clips_timers_near_the_clock_start() {
    let app = WidgetApp::new(500);
    assert_eq!(app.last_update, 0);
    assert_eq!(app.weather_last_update, 0);
}

#[test]
fn need_update_after_more_than_one_interval() {
    let mut app = WidgetApp::new(400_000);
    assert!(!app.need_update(399_500));
    assert!(!app.need_update(400_000));
    assert!(app.need_update(400_001));
    assert!(!app.weather_need_update(400_000));
    assert!(app.weather_need_update(400_001));
}

#[test]
fn need_update_with_a_clock_before_the_reading() {
    let mut app = WidgetApp::default();
    app.record_metrics(10_000, Vec::new(), MemoryUsage::default());
    assert!(!app.need_update(9_000));
    assert!(!app.need_update(11_000));
    assert!(app.need_update(11_001));
}

#[test]
fn record_metrics_updates_gauges_and_histories() {
    let mut app = WidgetApp::default();
    let memory = MemoryUsage {
        total_memory: 1_000,
        used_memory: 400,
        free_memory: 600,
        total_swap: 0,
        used_swap: 0,
        free_swap: 0,
    };
    app.record_metrics(2_500, vec![1000, 3000], memory);
    assert_eq!(app.cpu_usage, vec![1000, 3000]);
    assert_eq!(app.memory_usage, memory);
    assert_eq!(app.cpu_usage_history, VecDeque::from(vec![2000]));
    assert_eq!(app.memory_usage_history, VecDeque::from(vec![400]));
    assert_eq!(app.last_update, 2_500);
    assert_eq!(app.weather, Weather::default());
    assert_eq!(app.weather_last_update, 0);
}

#[test]
fn record_metrics_keeps_histories_capped() {
    let mut app = WidgetApp::default();
    for round in 0..150u64 {
        app.record_metrics(round, vec![round], MemoryUsage::default());
        assert!(app.cpu_usage_history.len() <= 100);
        assert!(app.memory_usage_history.len() <= 100);
    }
    assert_eq!(app.cpu_usage_history.len(), 100);
    assert_eq!(app.memory_usage_history.len(), 100);
    assert_eq!(app.cpu_usage_history.front(), Some(&50));
    assert_eq!(app.cpu_usage_history.back(), Some(&149));
}

#[test]
fn record_weather_keeps_a_good_reading() {
    let mut app = WidgetApp::default();
    let reading = sample_reading();
    app.record_weather(320_000, Some(reading.clone()));
    assert_eq!(app.weather, reading);
    assert_eq!(app.weather_last_update, 320_000);
    assert_eq!(app.last_update, 0);
}

#[test]
fn record_weather_falls_back_to_the_placeholder() {
    let mut app = WidgetApp::default();
    app.record_weather(100, Some(sample_reading()));
    app.record_weather(320_000, None);
    assert_eq!(app.weather, Weather::default());
    assert_eq!(app.weather_last_update, 320_000);
}

#[test]
fn one_frame_of_the_refresh_schedule() {
    let mut app = WidgetApp::new(400_000);
    let now = 400_123u64;
    assert!(app.need_update(now));
    assert!(app.weather_need_update(now));
    app.record_metrics(now, vec![500, 700], MemoryUsage::default());
    app.record_weather(now, Some(sample_reading()));
    assert!(!app.need_update(now));
    assert!(!app.weather_need_update(now));
    assert!(app.need_update(now + UPDATE_INTERVAL_MS + 1));
    assert!(!app.weather_need_update(now + UPDATE_INTERVAL_MS + 1));
}
