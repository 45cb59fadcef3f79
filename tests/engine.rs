use retro_cube::draw::{DrawCommand, Font};
use retro_cube::state::{Action, Config, Cursor, Event, State};
use retro_cube::view::View;
use retro_cube::weather::{FetchError, Weather};

const NEW_YEAR_2026_MS: i64 = 1_767_225_600_000;

fn config(zone: &str, secs: u64) -> Config {
    Config { timezone: zone.to_string(), refresh_interval_secs: secs }
}

fn texts(cmds: &[DrawCommand]) -> Vec<String> {
    cmds.iter()
        .filter_map(|c| match c {
            DrawCommand::Text { text, .. } => Some(text.clone()),
            _ => None,
        })
        .collect()
}

fn sample_weather() -> Weather {
    Weather {
        temperature: 21,
        relative_humidity_percent: 60,
        surface_pressure_hpa: 1013,
        wind_speed_km_h: 12,
        wind_direction_deg: 45,
        rain_in_x_hours: Some(3),
    }
}

fn draw(action: Action) -> Vec<DrawCommand> {
    match action {
        Action::Draw(cmds) => cmds,
        other => panic!("expected a frame, got {:?}", other),
    }
}

#[test]
fn next_and_previous_are_inverse() {
    for v in [View::Clock, View::Weather, View::Mailbox] {
        assert_eq!(v.next().previous(), v);
        assert_eq!(v.previous().next(), v);
        assert_eq!(v.next().next().next(), v);
        assert_ne!(v.next(), v);
    }
    assert_eq!(View::Mailbox.next(), View::Clock);
    assert_eq!(View::Clock.previous(), View::Mailbox);
}

#[test]
fn new_state_starts_on_clock_awake_and_empty() {
    let s = State::new(config("UTC", 10), 42);
    assert_eq!(s.view, View::Clock);
    assert!(!s.sleep);
    assert_eq!(s.last_fetch, None);
    assert_eq!(s.message, None);
    assert_eq!(s.weather, Weather::unknown());
    assert_eq!(s.current_letter, Cursor { offset: 0, changed_at: 42 });
}

#[test]
fn refresh_schedule_with_ten_second_interval() {
    let mut s = State::new(config("UTC", 10), 0);
    assert!(matches!(s.update(Event::Tick, 0), Action::Fetch));
    assert_eq!(s.last_fetch, Some(0));
    s.finish_tick(Err(FetchError::Transport), Err(FetchError::Transport));
    assert!(matches!(s.update(Event::Tick, 5_000), Action::Draw(_)));
    assert_eq!(s.last_fetch, Some(0));
    assert!(matches!(s.update(Event::Tick, 11_000), Action::Fetch));
    assert_eq!(s.last_fetch, Some(11_000));
}

#[test]
fn refresh_not_due_at_exactly_the_interval() {
    let mut s = State::new(config("UTC", 10), 0);
    assert!(s.fetch(1_000));
    assert!(!s.fetch(11_000));
    assert_eq!(s.last_fetch, Some(1_000));
    assert!(s.fetch(11_001));
    assert_eq!(s.last_fetch, Some(11_001));
}

#[test]
fn failed_weather_keeps_snapshot_and_message_still_arrives() {
    let mut s = State::new(config("UTC", 10), 0);
    s.store(Ok(sample_weather()), Err(FetchError::Transport));
    assert_eq!(s.weather, sample_weather());
    assert_eq!(s.message, None);
    s.store(Err(FetchError::Malformed), Ok("  Hello, world!  ".to_string()));
    assert_eq!(s.weather, sample_weather());
    assert_eq!(s.message.as_deref(), Some("Hello, world!"));
    s.store(Err(FetchError::HourOutOfRange), Err(FetchError::Transport));
    assert_eq!(s.weather, sample_weather());
    assert_eq!(s.message.as_deref(), Some("Hello, world!"));
}

#[test]
fn stored_message_is_sanitized() {
    let mut s = State::new(config("UTC", 10), 0);
    s.store(Err(FetchError::Transport), Ok("Grüße <3\u{7}".to_string()));
    assert_eq!(s.message.as_deref(), Some("Gr??e ?3?"));
}

#[test]
fn navigation_moves_view_and_resets_cursor() {
    let mut s = State::new(config("UTC", 10), 0);
    s.current_letter = Cursor { offset: 5, changed_at: 3 };
    assert!(matches!(s.update(Event::NavigateUp, 100), Action::Idle));
    assert_eq!(s.view, View::Weather);
    assert_eq!(s.current_letter, Cursor { offset: 0, changed_at: 100 });
    s.update(Event::NavigateDown, 200);
    s.update(Event::NavigateDown, 300);
    assert_eq!(s.view, View::Mailbox);
    assert_eq!(s.current_letter, Cursor { offset: 0, changed_at: 300 });
}

#[test]
fn toggling_sleep_twice_restores_it() {
    let mut s = State::new(config("UTC", 10), 0);
    s.update(Event::ToggleSleep, 1);
    assert!(s.sleep);
    s.update(Event::ToggleSleep, 2);
    assert!(!s.sleep);
}

#[test]
fn sleeping_tick_only_clears_in_every_view() {
    let mut s = State::new(config("UTC", 10), 0);
    s.last_fetch = Some(0);
    s.update(Event::ToggleSleep, 0);
    for (i, _) in [View::Clock, View::Weather, View::Mailbox].iter().enumerate() {
        let cmds = draw(s.update(Event::Tick, 1_000 + i as i64));
        assert_eq!(cmds.len(), 1);
        assert!(matches!(cmds[0], DrawCommand::Clear));
        s.update(Event::NavigateUp, 1_000 + i as i64);
    }
}

#[test]
fn sleeping_still_refreshes() {
    let mut s = State::new(config("UTC", 10), 0);
    s.update(Event::ToggleSleep, 0);
    assert!(matches!(s.update(Event::Tick, 0), Action::Fetch));
    let cmds = s.finish_tick(Ok(sample_weather()), Err(FetchError::Transport));
    assert_eq!(cmds.len(), 1);
    assert!(matches!(cmds[0], DrawCommand::Clear));
    assert_eq!(s.weather, sample_weather());
}

#[test]
fn cursor_dwells_then_steps_then_wraps() {
    let c = Cursor { offset: 0, changed_at: 1_000 };
    assert_eq!(c.advance(3, 2_499), c);
    let c = c.advance(3, 2_500);
    assert_eq!(c, Cursor { offset: 1, changed_at: 2_500 });
    assert_eq!(c.advance(3, 2_699), c);
    let c = c.advance(3, 2_700);
    assert_eq!(c, Cursor { offset: 2, changed_at: 2_700 });
    let c = c.advance(3, 2_900);
    assert_eq!(c, Cursor { offset: 0, changed_at: 2_900 });
    assert_eq!(c.advance(3, 3_000), c);
}

#[test]
fn cursor_on_empty_text_stays_at_start() {
    let c = Cursor { offset: 0, changed_at: 0 };
    assert_eq!(c.advance(0, 5_000), Cursor { offset: 0, changed_at: 5_000 });
}

#[test]
fn mailbox_scrolls_placeholder_until_message_arrives() {
    let mut s = State::new(config("UTC", 10), 0);
    s.last_fetch = Some(0);
    s.update(Event::NavigateDown, 0);
    assert_eq!(s.view, View::Mailbox);
    let cmds = draw(s.update(Event::Tick, 1_000));
    assert_eq!(cmds.len(), 5);
    assert_eq!(texts(&cmds), vec!["Message:".to_string(), "No message available".to_string()]);
    let cmds = draw(s.update(Event::Tick, 1_500));
    assert_eq!(s.current_letter.offset, 1);
    assert_eq!(texts(&cmds)[1], "o message available.");
}

#[test]
fn mailbox_window_shows_twenty_characters() {
    let mut s = State::new(config("UTC", 10), 0);
    s.last_fetch = Some(0);
    s.store(Err(FetchError::Transport), Ok("abcdefghijklmnopqrstuvwxyz".to_string()));
    s.update(Event::NavigateDown, 0);
    s.current_letter = Cursor { offset: 10, changed_at: 0 };
    let cmds = draw(s.update(Event::Tick, 100));
    assert_eq!(texts(&cmds)[1], "klmnopqrstuvwxyz");
    match &cmds[3] {
        DrawCommand::Text { x, y, font, .. } => {
            assert_eq!((*x, *y, *font), (6, 44, Font::LargeBold));
        }
        other => panic!("unexpected {:?}", other),
    }
}

#[test]
fn weather_view_lines() {
    let mut s = State::new(config("UTC", 10), 0);
    s.last_fetch = Some(0);
    s.store(Ok(sample_weather()), Err(FetchError::Transport));
    s.update(Event::NavigateUp, 0);
    let cmds = draw(s.update(Event::Tick, 10));
    assert_eq!(cmds.len(), 7);
    assert_eq!(
        texts(&cmds),
        vec![
            "21C  60% 1013 hpa".to_string(),
            "12km/h (NE)".to_string(),
            "Precipitation:".to_string(),
            "3h".to_string()
        ]
    );
}

#[test]
fn weather_view_negative_and_no_rain() {
    let mut s = State::new(config("UTC", 10), 0);
    s.last_fetch = Some(0);
    let w = Weather {
        temperature: -7,
        relative_humidity_percent: 100,
        surface_pressure_hpa: 987,
        wind_speed_km_h: 0,
        wind_direction_deg: 400,
        rain_in_x_hours: None,
    };
    s.store(Ok(w), Err(FetchError::Transport));
    s.update(Event::NavigateUp, 0);
    let t = texts(&draw(s.update(Event::Tick, 10)));
    assert_eq!(t[0], "-7C  100% 987 hpa");
    assert_eq!(t[1], "0km/h (N/A)");
    assert_eq!(t[3], "---");
}

#[test]
fn clock_view_in_utc() {
    let mut s = State::new(config("UTC", 10), 0);
    let at = NEW_YEAR_2026_MS + 3_723_000;
    s.last_fetch = Some(at);
    let cmds = draw(s.update(Event::Tick, at));
    assert_eq!(cmds.len(), 6);
    assert_eq!(texts(&cmds), vec!["2026-01-01".to_string(), "01:02".to_string()]);
    match &cmds[5] {
        DrawCommand::FillCircle { cx, cy, diameter } => assert_eq!((*cx, *cy, *diameter), (17, 48, 5)),
        other => panic!("unexpected {:?}", other),
    }
}

#[test]
fn clock_view_in_named_zone() {
    let mut s = State::new(config("Europe/Berlin", 10), 0);
    s.last_fetch = Some(NEW_YEAR_2026_MS);
    let cmds = draw(s.update(Event::Tick, NEW_YEAR_2026_MS - 1_000));
    assert_eq!(texts(&cmds), vec!["2026-01-01".to_string(), "00:59".to_string()]);
    match &cmds[5] {
        DrawCommand::FillCircle { cx, .. } => assert_eq!(*cx, 118),
        other => panic!("unexpected {:?}", other),
    }
}

#[test]
fn clock_view_with_unknown_zone_draws_frame_and_track_only() {
    let mut s = State::new(config("Nowhere/Special", 10), 0);
    s.last_fetch = Some(0);
    let cmds = draw(s.update(Event::Tick, 1_000));
    assert_eq!(cmds.len(), 3);
    assert!(matches!(cmds[2], DrawCommand::Line { x0: 10, y0: 48, x1: 118, y1: 48, stroke: 1 }));
}
