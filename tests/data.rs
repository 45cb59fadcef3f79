use retro_cube::clock::utc_hour;
use retro_cube::message::sanitize;
use retro_cube::text::trim;
use retro_cube::weather::{fetch, Compass, FetchError, HourlyData, Weather};

fn series(hours: usize, rain: Vec<u32>) -> HourlyData {
    HourlyData {
        time: (0..hours).map(|h| format!("2026-01-04T{:02}:00", h)).collect(),
        temperature_2m: (0..hours as i32).map(|h| h - 3).collect(),
        relative_humidity_2m: (0..hours as i32).map(|h| 50 + h).collect(),
        rain,
        wind_speed_10m: (0..hours as i32).map(|h| 2 * h).collect(),
        wind_direction_10m: (0..hours as i32).map(|h| 15 * h).collect(),
        surface_pressure: (0..hours as i32).map(|h| 1000 + h).collect(),
    }
}

#[test]
fn compass_sectors() {
    assert_eq!(Compass::of_degrees(0), Compass::N);
    assert_eq!(Compass::of_degrees(22), Compass::N);
    assert_eq!(Compass::of_degrees(23), Compass::NE);
    assert_eq!(Compass::of_degrees(337), Compass::N);
    assert_eq!(Compass::of_degrees(360), Compass::N);
    assert_eq!(Compass::of_degrees(400), Compass::Unavailable);
    assert_eq!(Compass::of_degrees(-1), Compass::Unavailable);
    assert_eq!(Compass::of_degrees(90), Compass::E);
    assert_eq!(Compass::of_degrees(157), Compass::SE);
    assert_eq!(Compass::of_degrees(180), Compass::S);
    assert_eq!(Compass::of_degrees(203), Compass::SW);
    assert_eq!(Compass::of_degrees(292), Compass::W);
    assert_eq!(Compass::of_degrees(336), Compass::NW);
}

#[test]
fn compass_labels() {
    assert_eq!(Compass::of_degrees(45).label(), "NE");
    assert_eq!(Compass::of_degrees(300).label(), "NW");
    assert_eq!(Compass::of_degrees(-5).label(), "N/A");
}

#[test]
fn reading_an_hour_of_the_series() {
    let mut rain = vec![0; 24];
    rain[2] = 5;
    rain[9] = 1;
    let w = fetch(&series(24, rain), 4).unwrap();
    assert_eq!(
        w,
        Weather {
            temperature: 1,
            relative_humidity_percent: 54,
            surface_pressure_hpa: 1004,
            wind_speed_km_h: 8,
            wind_direction_deg: 60,
            rain_in_x_hours: Some(5),
        }
    );
}

#[test]
fn rain_in_the_current_hour_counts_as_zero_hours() {
    let mut rain = vec![0; 24];
    rain[7] = 3;
    assert_eq!(fetch(&series(24, rain), 7).unwrap().rain_in_x_hours, Some(0));
}

#[test]
fn no_rain_ahead_gives_none() {
    let mut rain = vec![0; 24];
    rain[1] = 8;
    assert_eq!(fetch(&series(24, rain), 5).unwrap().rain_in_x_hours, None);
}

#[test]
fn hour_outside_series_is_an_error() {
    assert_eq!(fetch(&series(3, vec![0; 3]), 3), Err(FetchError::HourOutOfRange));
    assert_eq!(fetch(&series(0, vec![]), 0), Err(FetchError::HourOutOfRange));
}

#[test]
fn short_series_is_malformed() {
    let mut d = series(6, vec![0; 6]);
    d.surface_pressure.truncate(2);
    assert_eq!(fetch(&d, 4), Err(FetchError::Malformed));
    assert!(fetch(&d, 1).is_ok());
}

#[test]
fn utc_hours() {
    assert_eq!(utc_hour(0), 0);
    assert_eq!(utc_hour(3_600_000 * 5 + 59), 5);
    assert_eq!(utc_hour(1_767_225_600_000 + 23 * 3_600_000), 23);
    assert_eq!(utc_hour(-1), 23);
}

#[test]
fn sanitize_keeps_font_characters() {
    assert_eq!(sanitize("Hi! (a-b), #1+2; x:y_z 'q' *s/t\"?"), "Hi! (a-b), #1+2; x:y_z 'q' *s/t\"?");
}

#[test]
fn sanitize_replaces_others_and_trims() {
    assert_eq!(sanitize("  \tcafé <b>&</b> €\n"), "caf? ?b???/b? ?");
    assert_eq!(sanitize(" \r\n "), "");
    assert_eq!(sanitize(""), "");
}

#[test]
fn sanitize_replaces_vertical_tab() {
    assert_eq!(sanitize("\u{B}a b\u{B}"), "?a b?");
}

#[test]
fn trim_removes_unicode_space() {
    assert_eq!(trim("\u{3000}\u{A0} x y \u{2009}"), "x y");
    assert_eq!(trim("x"), "x");
}
