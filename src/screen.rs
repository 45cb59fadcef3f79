use crate::clock::{date_string, date_text, marker_of, marker_x, time_string, time_text, LocalTime};
use crate::digits::{decimal, push_decimal, push_signed, signed_decimal};
use crate::draw::{drawn, DrawCommand, Drawn, Font};
use crate::weather::{compass_label, compass_of, Compass, Weather};
use vstd::prelude::*;

verus! {

/// How many characters of the message are shown at once.
pub const VISIBLE_CHARS: usize = 20;

/// The screen while sleeping.
pub open spec fn blank_screen() -> Seq<Drawn> {
    seq![Drawn::Clear]
}

/// The clock screen: a bordered frame, the date and time when known, and a
/// seconds track with its marker.
pub open spec fn clock_screen(t: Option<LocalTime>) -> Seq<Drawn> {
    let frame = seq![
        Drawn::FillRect { x: 0, y: 0, width: 128, height: 64, on: true },
        Drawn::FillRect { x: 4, y: 4, width: 120, height: 56, on: false },
    ];
    let track = Drawn::Line { x0: 10, y0: 48, x1: 118, y1: 48, stroke: 1 };
    match t {
        Some(t) => frame + seq![
            Drawn::Text { text: date_text(t), x: 32, y: 16, font: Font::Small },
            Drawn::Text { text: time_text(t), x: 40, y: 35, font: Font::LargeBold },
            track,
            Drawn::FillCircle { cx: marker_of(t.second as int), cy: 48, diameter: 5 },
        ],
        None => frame.push(track),
    }
}

/// Temperature, humidity and pressure.
pub open spec fn conditions_text(w: Weather) -> Seq<char> {
    signed_decimal(w.temperature as int) + "C  "@ + signed_decimal(
        w.relative_humidity_percent as int,
    ) + "% "@ + signed_decimal(w.surface_pressure_hpa as int) + " hpa"@
}

/// Wind speed and compass sector.
pub open spec fn wind_text(w: Weather) -> Seq<char> {
    signed_decimal(w.wind_speed_km_h as int) + "km/h ("@ + compass_label(
        compass_of(w.wind_direction_deg as int),
    ) + ")"@
}

/// Hours until rain, or a placeholder when none is forecast.
pub open spec fn rain_text(w: Weather) -> Seq<char> {
    match w.rain_in_x_hours {
        Some(h) => decimal(h as nat) + "h"@,
        None => "---"@,
    }
}

/// The weather screen.
pub open spec fn weather_screen(w: Weather) -> Seq<Drawn> {
    seq![
        Drawn::FillRect { x: 0, y: 0, width: 128, height: 64, on: true },
        Drawn::FillRect { x: 2, y: 2, width: 124, height: 60, on: false },
        Drawn::Text { text: conditions_text(w), x: 6, y: 12, font: Font::Small },
        Drawn::Text { text: wind_text(w), x: 6, y: 24, font: Font::Small },
        Drawn::Line { x0: 6, y0: 32, x1: 120, y1: 32, stroke: 1 },
        Drawn::Text { text: "Precipitation:"@, x: 6, y: 44, font: Font::Small },
        Drawn::Text { text: rain_text(w), x: 6, y: 56, font: Font::Small },
    ]
}

/// The visible part of `text` when scrolled to `offset`: at most
/// `VISIBLE_CHARS` characters from `offset` on.
pub open spec fn window(text: Seq<char>, offset: int) -> Seq<char> {
    let from = if offset < text.len() {
        offset
    } else {
        text.len() as int
    };
    let to = if from + VISIBLE_CHARS < text.len() {
        from + VISIBLE_CHARS
    } else {
        text.len() as int
    };
    text.subrange(from, to)
}

/// The mailbox screen: header and footer bands, a title and the visible part
/// of the message.
pub open spec fn mailbox_screen(text: Seq<char>, offset: int) -> Seq<Drawn> {
    seq![
        Drawn::FillRect { x: 0, y: 0, width: 128, height: 8, on: true },
        Drawn::FillRect { x: 0, y: 56, width: 128, height: 8, on: true },
        Drawn::Text { text: "Message:"@, x: 6, y: 26, font: Font::LargeBold },
        Drawn::Text { text: window(text, offset), x: 6, y: 44, font: Font::LargeBold },
        Drawn::FillRect { x: 122, y: 32, width: 128, height: 15, on: false },
    ]
}

pub fn blank_frame() -> (r: Vec<DrawCommand>)
    ensures
        drawn(r@) == blank_screen(),
{
    let mut v: Vec<DrawCommand> = Vec::new();
    v.push(DrawCommand::Clear);
    assert(drawn(v@) =~= blank_screen());
    v
}

pub fn clock_frame(t: Option<LocalTime>) -> (r: Vec<DrawCommand>)
    requires
        t matches Some(x) ==> x.wf(),
    ensures
        drawn(r@) == clock_screen(t),
{
    let mut v: Vec<DrawCommand> = Vec::new();
    v.push(DrawCommand::FillRect { x: 0, y: 0, width: 128, height: 64, on: true });
    v.push(DrawCommand::FillRect { x: 4, y: 4, width: 120, height: 56, on: false });
    match t {
        Some(t) => {
            v.push(DrawCommand::Text { text: date_string(&t), x: 32, y: 16, font: Font::Small });
            v.push(
                DrawCommand::Text { text: time_string(&t), x: 40, y: 35, font: Font::LargeBold },
            );
            v.push(DrawCommand::Line { x0: 10, y0: 48, x1: 118, y1: 48, stroke: 1 });
            v.push(DrawCommand::FillCircle { cx: marker_x(t.second), cy: 48, diameter: 5 });
        },
        None => {
            v.push(DrawCommand::Line { x0: 10, y0: 48, x1: 118, y1: 48, stroke: 1 });
        },
    }
    assert(drawn(v@) =~= clock_screen(t));
    v
}

pub fn conditions_string(w: &Weather) -> (r: String)
    ensures
        r@ == conditions_text(*w),
{
    let mut s = String::new();
    push_signed(&mut s, w.temperature);
    s.append("C  ");
    push_signed(&mut s, w.relative_humidity_percent);
    s.append("% ");
    push_signed(&mut s, w.surface_pressure_hpa);
    s.append(" hpa");
    assert(s@ =~= conditions_text(*w));
    s
}

pub fn wind_string(w: &Weather) -> (r: String)
    ensures
        r@ == wind_text(*w),
{
    let mut s = String::new();
    push_signed(&mut s, w.wind_speed_km_h);
    s.append("km/h (");
    let label = Compass::of_degrees(w.wind_direction_deg).label();
    s.append(label.as_str());
    s.append(")");
    assert(s@ =~= wind_text(*w));
    s
}

pub fn rain_string(w: &Weather) -> (r: String)
    ensures
        r@ == rain_text(*w),
{
    match w.rain_in_x_hours {
        Some(h) => {
            let mut s = String::new();
            push_decimal(&mut s, h as u64);
            s.append("h");
            assert(s@ =~= rain_text(*w));
            s
        },
        None => String::from_str("---"),
    }
}

pub fn weather_frame(w: &Weather) -> (r: Vec<DrawCommand>)
    ensures
        drawn(r@) == weather_screen(*w),
{
    let mut v: Vec<DrawCommand> = Vec::new();
    v.push(DrawCommand::FillRect { x: 0, y: 0, width: 128, height: 64, on: true });
    v.push(DrawCommand::FillRect { x: 2, y: 2, width: 124, height: 60, on: false });
    v.push(DrawCommand::Text { text: conditions_string(w), x: 6, y: 12, font: Font::Small });
    v.push(DrawCommand::Text { text: wind_string(w), x: 6, y: 24, font: Font::Small });
    v.push(DrawCommand::Line { x0: 6, y0: 32, x1: 120, y1: 32, stroke: 1 });
    v.push(
        DrawCommand::Text {
            text: String::from_str("Precipitation:"),
            x: 6,
            y: 44,
            font: Font::Small,
        },
    );
    v.push(DrawCommand::Text { text: rain_string(w), x: 6, y: 56, font: Font::Small });
    assert(drawn(v@) =~= weather_screen(*w));
    v
}

/// The visible part of `text` scrolled to `offset`.
pub fn window_string(text: &str, offset: usize) -> (r: String)
    ensures
        r@ == window(text@, offset as int),
{
    let len = text.unicode_len();
    let from = if offset < len {
        offset
    } else {
        len
    };
    let to = if len - from > VISIBLE_CHARS {
        from + VISIBLE_CHARS
    } else {
        len
    };
    String::from_str(text.substring_char(from, to))
}

pub fn mailbox_frame(text: &str, offset: usize) -> (r: Vec<DrawCommand>)
    ensures
        drawn(r@) == mailbox_screen(text@, offset as int),
{
    let mut v: Vec<DrawCommand> = Vec::new();
    v.push(DrawCommand::FillRect { x: 0, y: 0, width: 128, height: 8, on: true });
    v.push(DrawCommand::FillRect { x: 0, y: 56, width: 128, height: 8, on: true });
    v.push(
        DrawCommand::Text {
            text: String::from_str("Message:"),
            x: 6,
            y: 26,
            font: Font::LargeBold,
        },
    );
    v.push(
        DrawCommand::Text {
            text: window_string(text, offset),
            x: 6,
            y: 44,
            font: Font::LargeBold,
        },
    );
    v.push(DrawCommand::FillRect { x: 122, y: 32, width: 128, height: 15, on: false });
    assert(drawn(v@) =~= mailbox_screen(text@, offset as int));
    v
}

} // verus!
