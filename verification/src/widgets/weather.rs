//! Weather report: the shape of the forecast reading, the fallback to a
//! zero-valued report when a fetch fails, and the wind-direction label.
//!
//! Fractional readings (temperatures, speeds, amounts, coordinates) are kept
//! in fixed point, as signed hundredths of their unit, so `-350` stands for
//! `-3.50`. Fetching and decoding the report is the host loop's job; the
//! functions here take the decoded reading as plain values.

use vstd::prelude::*;

verus! {

/// One decoded forecast reading.
#[derive(Clone, Debug, PartialEq)]
pub struct Weather {
    /// Hundredths of a degree of latitude.
    pub latitude: i64,
    /// Hundredths of a degree of longitude.
    pub longitude: i64,
    /// Hundredths of a millisecond.
    pub generationtime_ms: i64,
    pub utc_offset_seconds: i64,
    pub timezone: String,
    pub timezone_abbreviation: String,
    /// Hundredths of a metre.
    pub elevation: i64,
    pub current_units: CurrentUnits,
    pub current: Current,
}

/// The unit names that come with the current conditions.
#[derive(Clone, Debug, PartialEq)]
pub struct CurrentUnits {
    pub time: String,
    pub interval: String,
    pub temperature_2m: String,
    pub relative_humidity_2m: String,
    pub apparent_temperature: String,
    pub is_day: String,
    pub precipitation: String,
    pub rain: String,
    pub showers: String,
    pub snowfall: String,
    pub weather_code: String,
    pub cloud_cover: String,
    pub surface_pressure: String,
    pub wind_speed_10m: String,
    pub wind_direction_10m: String,
    pub wind_gusts_10m: String,
}

/// The current conditions. Fractional fields are in hundredths of the unit
/// named beside them in `CurrentUnits`.
#[derive(Clone, Debug, PartialEq)]
pub struct Current {
    pub time: String,
    pub interval: u64,
    pub temperature_2m: i64,
    pub relative_humidity_2m: u64,
    pub apparent_temperature: i64,
    pub is_day: u64,
    pub precipitation: i64,
    pub rain: i64,
    pub showers: i64,
    pub snowfall: i64,
    pub weather_code: u64,
    pub cloud_cover: u64,
    pub surface_pressure: i64,
    pub wind_speed_10m: i64,
    pub wind_direction_10m: u64,
    pub wind_gusts_10m: i64,
}

/// Whether the unit names are the zero-valued placeholder: every name empty.
pub open spec fn current_units_is_default(u: CurrentUnits) -> bool {
    &&& u.time@.len() == 0
    &&& u.interval@.len() == 0
    &&& u.temperature_2m@.len() == 0
    &&& u.relative_humidity_2m@.len() == 0
    &&& u.apparent_temperature@.len() == 0
    &&& u.is_day@.len() == 0
    &&& u.precipitation@.len() == 0
    &&& u.rain@.len() == 0
    &&& u.showers@.len() == 0
    &&& u.snowfall@.len() == 0
    &&& u.weather_code@.len() == 0
    &&& u.cloud_cover@.len() == 0
    &&& u.surface_pressure@.len() == 0
    &&& u.wind_speed_10m@.len() == 0
    &&& u.wind_direction_10m@.len() == 0
    &&& u.wind_gusts_10m@.len() == 0
}

/// Whether the current conditions are the zero-valued placeholder: every
/// gauge zero and the timestamp empty.
pub open spec fn current_is_default(c: Current) -> bool {
    &&& c.time@.len() == 0
    &&& c.interval == 0
    &&& c.temperature_2m == 0
    &&& c.relative_humidity_2m == 0
    &&& c.apparent_temperature == 0
    &&& c.is_day == 0
    &&& c.precipitation == 0
    &&& c.rain == 0
    &&& c.showers == 0
    &&& c.snowfall == 0
    &&& c.weather_code == 0
    &&& c.cloud_cover == 0
    &&& c.surface_pressure == 0
    &&& c.wind_speed_10m == 0
    &&& c.wind_direction_10m == 0
    &&& c.wind_gusts_10m == 0
}

/// Whether the reading is the zero-valued placeholder that a failed fetch
/// leaves behind.
pub open spec fn weather_is_default(w: Weather) -> bool {
    &&& w.latitude == 0
    &&& w.longitude == 0
    &&& w.generationtime_ms == 0
    &&& w.utc_offset_seconds == 0
    &&& w.timezone@.len() == 0
    &&& w.timezone_abbreviation@.len() == 0
    &&& w.elevation == 0
    &&& current_units_is_default(w.current_units)
    &&& current_is_default(w.current)
}

impl Default for CurrentUnits {
    fn default() -> (r: Self)
        ensures
            current_units_is_default(r),
    {
        CurrentUnits {
            time: String::new(),
            interval: String::new(),
            temperature_2m: String::new(),
            relative_humidity_2m: String::new(),
            apparent_temperature: String::new(),
            is_day: String::new(),
            precipitation: String::new(),
            rain: String::new(),
            showers: String::new(),
            snowfall: String::new(),
            weather_code: String::new(),
            cloud_cover: String::new(),
            surface_pressure: String::new(),
            wind_speed_10m: String::new(),
            wind_direction_10m: String::new(),
            wind_gusts_10m: String::new(),
        }
    }
}

impl Default for Current {
    fn default() -> (r: Self)
        ensures
            current_is_default(r),
    {
        Current {
            time: String::new(),
            interval: 0,
            temperature_2m: 0,
            relative_humidity_2m: 0,
            apparent_temperature: 0,
            is_day: 0,
            precipitation: 0,
            rain: 0,
            showers: 0,
            snowfall: 0,
            weather_code: 0,
            cloud_cover: 0,
            surface_pressure: 0,
            wind_speed_10m: 0,
            wind_direction_10m: 0,
            wind_gusts_10m: 0,
        }
    }
}

impl Default for Weather {
    /// The zero-valued placeholder shown until a fetch succeeds.
    fn default() -> (r: Self)
        ensures
            weather_is_default(r),
    {
        Weather {
            latitude: 0,
            longitude: 0,
            generationtime_ms: 0,
            utc_offset_seconds: 0,
            timezone: String::new(),
            timezone_abbreviation: String::new(),
            elevation: 0,
            current_units: CurrentUnits::default(),
            current: Current::default(),
        }
    }
}

/// The reading to keep after a fetch: the decoded reading when the fetch
/// succeeded, and the zero-valued placeholder when it failed.
pub fn weather_or_default(fetched: Option<Weather>) -> (r: Weather)
    ensures
        fetched matches Some(w) ==> r == w,
        fetched is None ==> weather_is_default(r),
{
    match fetched {
        Some(w) => w,
        None => Weather::default(),
    }
}

/// The compass label for a wind direction in whole degrees.
pub open spec fn spec_direction(degree: u64) -> Seq<char> {
    if degree <= 11 {
        "N"@
    } else if degree <= 33 {
        "NNE"@
    } else if degree <= 56 {
        "NE"@
    } else if degree <= 78 {
        "ENE"@
    } else if degree <= 101 {
        "E"@
    } else if degree <= 123 {
        "ESE"@
    } else if degree <= 146 {
        "SE"@
    } else if degree <= 168 {
        "SSE"@
    } else if degree <= 191 {
        "S"@
    } else if degree <= 213 {
        "SSW"@
    } else if degree <= 236 {
        "SW"@
    } else if degree <= 258 {
        "WSW"@
    } else if degree <= 281 {
        "W"@
    } else if degree <= 303 {
        "WNW"@
    } else if degree <= 326 {
        "NW"@
    } else if degree <= 348 {
        "NNW"@
    } else if degree <= 360 {
        "N"@
    } else {
        "N/A"@
    }
}

/// Map a wind direction in whole degrees to its compass label. Directions
/// above 360 degrees are out of range and get the not-available label.
pub fn degrees_to_direction(degree: u64) -> (r: String)
    ensures
        r@ == spec_direction(degree),
{
    if degree <= 11 {
        "N".to_string()
    } else if degree <= 33 {
        "NNE".to_string()
    } else if degree <= 56 {
        "NE".to_string()
    } else if degree <= 78 {
        "ENE".to_string()
    } else if degree <= 101 {
        "E".to_string()
    } else if degree <= 123 {
        "ESE".to_string()
    } else if degree <= 146 {
        "SE".to_string()
    } else if degree <= 168 {
        "SSE".to_string()
    } else if degree <= 191 {
        "S".to_string()
    } else if degree <= 213 {
        "SSW".to_string()
    } else if degree <= 236 {
        "SW".to_string()
    } else if degree <= 258 {
        "WSW".to_string()
    } else if degree <= 281 {
        "W".to_string()
    } else if degree <= 303 {
        "WNW".to_string()
    } else if degree <= 326 {
        "NW".to_string()
    } else if degree <= 348 {
        "NNW".to_string()
    } else if degree <= 360 {
        "N".to_string()
    } else {
        "N/A".to_string()
    }
}

/// Every direction on the compass, from 0 to 360 degrees, has a proper
/// label: the not-available label only appears past 360 degrees.
pub proof fn lemma_direction_total(degree: u64)
    requires
        degree <= 360,
    ensures
        spec_direction(degree) != "N/A"@,
{
    reveal_strlit("N");
    reveal_strlit("NNE");
    reveal_strlit("NE");
    reveal_strlit("ENE");
    reveal_strlit("E");
    reveal_strlit("ESE");
    reveal_strlit("SE");
    reveal_strlit("SSE");
    reveal_strlit("S");
    reveal_strlit("SSW");
    reveal_strlit("SW");
    reveal_strlit("WSW");
    reveal_strlit("W");
    reveal_strlit("WNW");
    reveal_strlit("NW");
    reveal_strlit("NNW");
    reveal_strlit("N/A");
    assert("N"@.len() == 1);
    assert("E"@.len() == 1);
    assert("S"@.len() == 1);
    assert("W"@.len() == 1);
    assert("NE"@.len() == 2);
    assert("SE"@.len() == 2);
    assert("SW"@.len() == 2);
    assert("NW"@.len() == 2);
    assert("N/A"@.len() == 3);
    assert("N/A"@[1] == '/');
    assert("NNE"@[1] == 'N');
    assert("ENE"@[1] == 'N');
    assert("ESE"@[1] == 'S');
    assert("SSE"@[1] == 'S');
    assert("SSW"@[1] == 'S');
    assert("WSW"@[1] == 'S');
    assert("WNW"@[1] == 'N');
    assert("NNW"@[1] == 'N');
}

/// The day-or-night word for the report's day flag: `1` means day, anything
/// else means night.
pub fn day_night_label(is_day: u64) -> (r: String)
    ensures
        is_day == 1 ==> r@ == "day"@,
        is_day != 1 ==> r@ == "night"@,
{
    if is_day == 1 {
        "day".to_string()
    } else {
        "night".to_string()
    }
}

} // verus!
