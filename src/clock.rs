use crate::digits::{
    four_digits, push_four_digits, push_signed, push_two_digits, signed_decimal, two_digits,
};
use chrono::{Datelike, Timelike};
use vstd::prelude::*;

verus! {

/// A civil date and time of day in some time zone.
#[derive(Clone, Copy, Debug, PartialEq, Eq, Structural)]
pub struct LocalTime {
    pub year: i32,
    /// 1 to 12.
    pub month: u32,
    /// 1 to 31.
    pub day: u32,
    /// 0 to 23.
    pub hour: u32,
    /// 0 to 59.
    pub minute: u32,
    /// 0 to 59.
    pub second: u32,
}

impl LocalTime {
    pub open spec fn wf(&self) -> bool {
        &&& 1 <= self.month <= 12
        &&& 1 <= self.day <= 31
        &&& self.hour < 24
        &&& self.minute < 60
        &&& self.second < 60
    }
}

/// The local (year, month, day, hour, minute, second) in the zone with the
/// given IANA name, at `utc_ms` milliseconds after the Unix epoch.
pub uninterp spec fn local_time_of(zone: Seq<char>, utc_ms: int) -> (int, int, int, int, int, int);

/// Relies on chrono-tz's `Tz::from_str` to find the zone by name, and on
/// chrono's `DateTime::from_timestamp_millis`, `DateTime::with_timezone` and
/// the `Datelike` / `Timelike` field readers, whose documented ranges are
/// month 1..=12, day 1..=31, hour 0..=23, minute and second 0..=59. `None`
/// when the zone is unknown or the instant lies outside chrono's range.
#[verifier::external_body]
pub(crate) fn local_time(zone: &str, utc_ms: i64) -> (r: Option<LocalTime>)
    ensures
        r matches Some(t) ==> t.wf() && (
        t.year as int,
        t.month as int,
        t.day as int,
        t.hour as int,
        t.minute as int,
        t.second as int,
        ) == local_time_of(zone@, utc_ms as int),
{
    let tz = zone.parse::<chrono_tz::Tz>().ok()?;
    let at = chrono::DateTime::from_timestamp_millis(utc_ms)?.with_timezone(&tz);
    Some(
        LocalTime {
            year: at.year(),
            month: at.month(),
            day: at.day(),
            hour: at.hour(),
            minute: at.minute(),
            second: at.second(),
        },
    )
}

/// `t` is what the zone lookup can give for `zone` at `utc_ms`: nothing, or
/// a well-formed local time equal to `local_time_of(zone, utc_ms)`.
pub open spec fn is_local_time(zone: Seq<char>, utc_ms: int, t: Option<LocalTime>) -> bool {
    t matches Some(x) ==> x.wf() && (
    x.year as int,
    x.month as int,
    x.day as int,
    x.hour as int,
    x.minute as int,
    x.second as int,
    ) == local_time_of(zone, utc_ms)
}

/// A year as four digits, or with its sign where four digits cannot hold it.
pub open spec fn year_text(year: int) -> Seq<char> {
    if 0 <= year <= 9999 {
        four_digits(year as nat)
    } else {
        signed_decimal(year)
    }
}

/// `YYYY-MM-DD`.
pub open spec fn date_text(t: LocalTime) -> Seq<char> {
    year_text(t.year as int) + "-"@ + two_digits(t.month as nat) + "-"@ + two_digits(t.day as nat)
}

/// `HH:MM`.
pub open spec fn time_text(t: LocalTime) -> Seq<char> {
    two_digits(t.hour as nat) + ":"@ + two_digits(t.minute as nat)
}

/// Left end of the seconds track.
pub const TRACK_START: i32 = 10;

/// Length of the seconds track in pixels.
pub const TRACK_LENGTH: i32 = 108;

/// Where the seconds marker stands: it sweeps the track once a minute, one
/// second ahead, so that it never sits exactly at the track's start.
pub open spec fn marker_of(second: int) -> int {
    TRACK_START + (TRACK_LENGTH * (second + 1)) / 60
}

pub fn date_string(t: &LocalTime) -> (r: String)
    requires
        t.wf(),
    ensures
        r@ == date_text(*t),
{
    let mut s = String::new();
    if 0 <= t.year && t.year <= 9999 {
        push_four_digits(&mut s, t.year as u32);
    } else {
        push_signed(&mut s, t.year);
    }
    s.append("-");
    push_two_digits(&mut s, t.month);
    s.append("-");
    push_two_digits(&mut s, t.day);
    assert(s@ =~= date_text(*t));
    s
}

pub fn time_string(t: &LocalTime) -> (r: String)
    requires
        t.wf(),
    ensures
        r@ == time_text(*t),
{
    let mut s = String::new();
    push_two_digits(&mut s, t.hour);
    s.append(":");
    push_two_digits(&mut s, t.minute);
    assert(s@ =~= time_text(*t));
    s
}

pub fn marker_x(second: u32) -> (r: i32)
    requires
        second < 60,
    ensures
        r == marker_of(second as int),
{
    TRACK_START + (TRACK_LENGTH * (second as i32 + 1)) / 60
}

/// The hour of the UTC day (0 to 23) at `utc_ms` milliseconds after the
/// Unix epoch.
pub open spec fn utc_hour_of(utc_ms: int) -> int {
    (utc_ms % 86_400_000) / 3_600_000
}

pub fn utc_hour(utc_ms: i64) -> (r: usize)
    ensures
        r == utc_hour_of(utc_ms as int),
        r < 24,
{
    let mut in_day: i64 = utc_ms % 86_400_000;
    if in_day < 0 {
        in_day = in_day + 86_400_000;
    }
    assert(in_day == (utc_ms as int) % 86_400_000);
    (in_day / 3_600_000) as usize
}

} // verus!
