use vstd::prelude::*;

verus! {

/// Why a fetch produced no fresh value.
#[derive(Clone, Copy, Debug, PartialEq, Eq, Structural)]
pub enum FetchError {
    /// The request could not be made or answered.
    Transport,
    /// The payload could not be read, or its series are shorter than promised.
    Malformed,
    /// The current hour lies outside the fetched time series.
    HourOutOfRange,
}

/// The weather metrics shown on screen, in whole units.
#[derive(Clone, Copy, Debug, PartialEq, Eq, Structural)]
pub struct Weather {
    /// Degrees Celsius.
    pub temperature: i32,
    /// Percent.
    pub relative_humidity_percent: i32,
    pub surface_pressure_hpa: i32,
    pub wind_speed_km_h: i32,
    /// Degrees, clockwise from north.
    pub wind_direction_deg: i32,
    /// Hours until the next hour with rain; `None` when the series holds none.
    pub rain_in_x_hours: Option<usize>,
}

impl Weather {
    /// All metrics zero and no rain forecast.
    pub open spec fn unknown_spec() -> Weather {
        Weather {
            temperature: 0,
            relative_humidity_percent: 0,
            surface_pressure_hpa: 0,
            wind_speed_km_h: 0,
            wind_direction_deg: 0,
            rain_in_x_hours: None,
        }
    }

    /// All metrics zero and no rain forecast: the snapshot before the first
    /// successful fetch.
    pub fn unknown() -> (r: Weather)
        ensures
            r == Weather::unknown_spec(),
    {
        Weather {
            temperature: 0,
            relative_humidity_percent: 0,
            surface_pressure_hpa: 0,
            wind_speed_km_h: 0,
            wind_direction_deg: 0,
            rain_in_x_hours: None,
        }
    }
}

/// The units in which the hourly series are given.
#[derive(Clone, Debug)]
pub struct HourlyUnits {
    pub time: String,
    pub temperature_2m: String,
    pub relative_humidity_2m: String,
    pub rain: String,
    pub wind_speed_10m: String,
    pub wind_direction_10m: String,
    pub surface_pressure: String,
}

/// An hourly forecast series, one entry per hour from the start of the
/// fetched range. Rain is in hundredths of a millimetre, rounded up, so that
/// any rain at all counts.
#[derive(Clone, Debug)]
pub struct HourlyData {
    pub time: Vec<String>,
    pub temperature_2m: Vec<i32>,
    pub relative_humidity_2m: Vec<i32>,
    pub rain: Vec<u32>,
    pub wind_speed_10m: Vec<i32>,
    pub wind_direction_10m: Vec<i32>,
    pub surface_pressure: Vec<i32>,
}

/// A forecast response: its units and its hourly series.
#[derive(Clone, Debug)]
pub struct WeatherData {
    pub utc_offset_seconds: i32,
    pub timezone: String,
    pub timezone_abbreviation: String,
    pub hourly_units: HourlyUnits,
    pub hourly: HourlyData,
}

/// The first index at or after `from` whose rain amount is positive.
pub open spec fn first_rain(rain: Seq<u32>, from: int) -> Option<int>
    decreases rain.len() - from,
{
    if from < 0 || from >= rain.len() {
        None
    } else if rain[from] > 0 {
        Some(from)
    } else {
        first_rain(rain, from + 1)
    }
}

/// Every series but `time` has an entry for `hour`.
pub open spec fn series_cover(d: HourlyData, hour: int) -> bool {
    &&& hour < d.temperature_2m@.len()
    &&& hour < d.relative_humidity_2m@.len()
    &&& hour < d.wind_speed_10m@.len()
    &&& hour < d.wind_direction_10m@.len()
    &&& hour < d.surface_pressure@.len()
}

/// The snapshot that the series give for `hour`.
pub open spec fn weather_at(d: HourlyData, hour: int) -> Weather {
    Weather {
        temperature: d.temperature_2m@[hour],
        relative_humidity_percent: d.relative_humidity_2m@[hour],
        surface_pressure_hpa: d.surface_pressure@[hour],
        wind_speed_km_h: d.wind_speed_10m@[hour],
        wind_direction_deg: d.wind_direction_10m@[hour],
        rain_in_x_hours: match first_rain(d.rain@, hour) {
            Some(n) => Some((n - hour) as usize),
            None => None,
        },
    }
}

/// The outcome of reading `d` at `hour`.
pub open spec fn reading(d: HourlyData, hour: int) -> Result<Weather, FetchError> {
    if hour >= d.time@.len() {
        Err(FetchError::HourOutOfRange)
    } else if !series_cover(d, hour) {
        Err(FetchError::Malformed)
    } else {
        Ok(weather_at(d, hour))
    }
}

/// The first index at or after `hour` with rain, if any.
fn next_rain(rain: &Vec<u32>, hour: usize) -> (r: Option<usize>)
    ensures
        match r {
            Some(n) => first_rain(rain@, hour as int) == Some(n as int),
            None => first_rain(rain@, hour as int) is None,
        },
        r matches Some(n) ==> hour <= n,
{
    let mut i: usize = hour;
    while i < rain.len()
        invariant
            hour <= i,
            first_rain(rain@, hour as int) == first_rain(rain@, i as int),
        decreases rain.len() - i,
    {
        if rain[i] > 0 {
            return Some(i);
        }
        i = i + 1;
    }
    None
}

/// Reads the snapshot for the hour with index `hour` of the series.
pub fn fetch(data: &HourlyData, hour: usize) -> (r: Result<Weather, FetchError>)
    ensures
        r == reading(*data, hour as int),
{
    if hour >= data.time.len() {
        return Err(FetchError::HourOutOfRange);
    }
    if hour >= data.temperature_2m.len() || hour >= data.relative_humidity_2m.len()
        || hour >= data.wind_speed_10m.len() || hour >= data.wind_direction_10m.len()
        || hour >= data.surface_pressure.len() {
        return Err(FetchError::Malformed);
    }
    let rain_in_x_hours = match next_rain(&data.rain, hour) {
        Some(n) => Some(n - hour),
        None => None,
    };
    Ok(
        Weather {
            temperature: data.temperature_2m[hour],
            relative_humidity_percent: data.relative_humidity_2m[hour],
            surface_pressure_hpa: data.surface_pressure[hour],
            wind_speed_km_h: data.wind_speed_10m[hour],
            wind_direction_deg: data.wind_direction_10m[hour],
            rain_in_x_hours,
        },
    )
}

/// One of the eight 45-degree compass sectors, or no direction at all.
#[derive(Clone, Copy, Debug, PartialEq, Eq, Structural)]
pub enum Compass {
    N,
    NE,
    E,
    SE,
    S,
    SW,
    W,
    NW,
    Unavailable,
}

/// The sector of a wind direction given in whole degrees. North covers both
/// ends of the circle; a value outside 0..=360 has no sector.
pub open spec fn compass_of(deg: int) -> Compass {
    if (337 <= deg <= 360) || (0 <= deg <= 22) {
        Compass::N
    } else if 23 <= deg <= 67 {
        Compass::NE
    } else if 68 <= deg <= 112 {
        Compass::E
    } else if 113 <= deg <= 157 {
        Compass::SE
    } else if 158 <= deg <= 202 {
        Compass::S
    } else if 203 <= deg <= 247 {
        Compass::SW
    } else if 248 <= deg <= 292 {
        Compass::W
    } else if 293 <= deg <= 336 {
        Compass::NW
    } else {
        Compass::Unavailable
    }
}

/// The label shown for a sector.
pub open spec fn compass_label(c: Compass) -> Seq<char> {
    match c {
        Compass::N => "N"@,
        Compass::NE => "NE"@,
        Compass::E => "E"@,
        Compass::SE => "SE"@,
        Compass::S => "S"@,
        Compass::SW => "SW"@,
        Compass::W => "W"@,
        Compass::NW => "NW"@,
        Compass::Unavailable => "N/A"@,
    }
}

impl Compass {
    /// The sector in which `deg` lies.
    pub fn of_degrees(deg: i32) -> (r: Compass)
        ensures
            r == compass_of(deg as int),
    {
        if (337 <= deg && deg <= 360) || (0 <= deg && deg <= 22) {
            Compass::N
        } else if 23 <= deg && deg <= 67 {
            Compass::NE
        } else if 68 <= deg && deg <= 112 {
            Compass::E
        } else if 113 <= deg && deg <= 157 {
            Compass::SE
        } else if 158 <= deg && deg <= 202 {
            Compass::S
        } else if 203 <= deg && deg <= 247 {
            Compass::SW
        } else if 248 <= deg && deg <= 292 {
            Compass::W
        } else if 293 <= deg && deg <= 336 {
            Compass::NW
        } else {
            Compass::Unavailable
        }
    }

    /// The short label of the sector, `"N/A"` for no direction.
    pub fn label(&self) -> (r: String)
        ensures
            r@ == compass_label(*self),
    {
        match self {
            Compass::N => String::from_str("N"),
            Compass::NE => String::from_str("NE"),
            Compass::E => String::from_str("E"),
            Compass::SE => String::from_str("SE"),
            Compass::S => String::from_str("S"),
            Compass::SW => String::from_str("SW"),
            Compass::W => String::from_str("W"),
            Compass::NW => String::from_str("NW"),
            Compass::Unavailable => String::from_str("N/A"),
        }
    }
}

} // verus!
