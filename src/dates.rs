use vstd::prelude::*;
use chrono::{DateTime, NaiveTime, Timelike};
use crate::display::{signed_decimal, signed_decimal_of};

verus! {

/// A time of day, to the second.
#[derive(Debug, Clone, Copy, PartialEq, Eq, Structural)]
pub struct TimeOfDay {
    pub hour: u32,
    pub minute: u32,
    pub second: u32,
}

impl TimeOfDay {
    pub open spec fn wf(&self) -> bool {
        self.hour < 24 && self.minute < 60 && self.second < 60
    }

    /// Seconds since midnight.
    pub open spec fn seconds(&self) -> int {
        self.hour * 3600 + self.minute * 60 + self.second
    }

    /// `hour:minute:00`; `None` unless the hour and minute are in range.
    pub fn from_hm(hour: u32, minute: u32) -> (r: Option<TimeOfDay>)
        ensures
            (hour < 24 && minute < 60) <==> r is Some,
            r matches Some(t) ==> t.wf() && t.hour == hour && t.minute == minute && t.second == 0,
    {
        if hour < 24 && minute < 60 {
            Some(TimeOfDay { hour, minute, second: 0 })
        } else {
            None
        }
    }
}

/// What `NaiveTime::parse_from_str(s, "%H:%M")` gives, as (hour, minute).
pub uninterp spec fn hh_mm_parse(s: Seq<char>) -> Option<(u32, u32)>;

/// Relies on `chrono::NaiveTime::parse_from_str` with the format "%H:%M":
/// the hour and minute of the parsed time, which chrono keeps below 24 and
/// 60; `None` when chrono rejects the text.
#[verifier::external_body]
fn parse_hh_mm(s: &str) -> (r: Option<(u32, u32)>)
    ensures
        r == hh_mm_parse(s@),
        r matches Some(p) ==> p.0 < 24 && p.1 < 60,
{
    match NaiveTime::parse_from_str(s, "%H:%M") {
        Ok(t) => Some((t.hour(), t.minute())),
        Err(_) => None,
    }
}

/// The time of day written in `s` as 24-hour "HH:MM", if it is one.
pub fn parse_time_of_day(s: &str) -> (r: Option<TimeOfDay>)
    ensures
        match hh_mm_parse(s@) {
            Some(p) => r == Some(TimeOfDay { hour: p.0, minute: p.1, second: 0 }),
            None => r is None,
        },
        r matches Some(t) ==> t.wf(),
{
    match parse_hh_mm(s) {
        Some((h, m)) => Some(TimeOfDay { hour: h, minute: m, second: 0 }),
        None => None,
    }
}

/// The two-digit form of `n`, with a leading zero below 10.
pub open spec fn two_digits(n: nat) -> Seq<char> {
    if n < 10 {
        seq!['0'] + signed_decimal_of(n as int)
    } else {
        signed_decimal_of(n as int)
    }
}

fn push_two_digits(n: u32, out: &mut String)
    requires
        n < 100,
    ensures
        final(out)@ == old(out)@ + two_digits(n as nat),
{
    if n < 10 {
        proof {
            reveal_strlit("0");
        }
        out.append("0");
    }
    out.append(signed_decimal(n as i64).as_str());
}

/// The part of the day that an hour falls in, as a phrase before the time.
pub open spec fn day_part(hour: nat) -> Seq<char> {
    if hour <= 3 {
        "late night at "@
    } else if hour <= 7 {
        "in the early morning at "@
    } else if hour <= 11 {
        "in the morning at "@
    } else if hour == 12 {
        "at noon at "@
    } else if hour <= 16 {
        "in the afternoon at "@
    } else if hour <= 20 {
        "in the evening at "@
    } else if hour <= 23 {
        "at night at "@
    } else {
        "at "@
    }
}

/// A time of day in words, such as "in the morning at 08:30".
pub open spec fn when_human_of(t: TimeOfDay) -> Seq<char> {
    day_part(t.hour as nat) + two_digits(t.hour as nat) + seq![':'] + two_digits(t.minute as nat)
}

/// Describes a time of day in words, such as "at noon at 12:34".
pub fn when_human(time: TimeOfDay) -> (r: String)
    requires
        time.wf(),
    ensures
        r@ == when_human_of(time),
{
    let h = time.hour;
    let part = if h <= 3 {
        "late night at "
    } else if h <= 7 {
        "in the early morning at "
    } else if h <= 11 {
        "in the morning at "
    } else if h == 12 {
        "at noon at "
    } else if h <= 16 {
        "in the afternoon at "
    } else if h <= 20 {
        "in the evening at "
    } else if h <= 23 {
        "at night at "
    } else {
        "at "
    };
    proof {
        reveal_strlit("late night at ");
        reveal_strlit("in the early morning at ");
        reveal_strlit("in the morning at ");
        reveal_strlit("at noon at ");
        reveal_strlit("in the afternoon at ");
        reveal_strlit("in the evening at ");
        reveal_strlit("at night at ");
        reveal_strlit("at ");
        reveal_strlit(":");
    }
    let mut out = String::from_str(part);
    push_two_digits(h, &mut out);
    out.append(":");
    push_two_digits(time.minute, &mut out);
    out
}

/// The time of day `offset` seconds before `t`, wrapping around midnight.
pub open spec fn shifted_back(t: TimeOfDay, offset: int) -> int {
    (t.seconds() - offset) % 86400
}

/// Converts a local time of day at a UTC offset of `timezone_offset`
/// seconds into UTC.
pub fn get_utc_naive_time(time: TimeOfDay, timezone_offset: i32) -> (r: TimeOfDay)
    requires
        time.wf(),
    ensures
        r.wf(),
        r.seconds() == shifted_back(time, timezone_offset as int),
{
    let secs: i64 = (time.hour as i64) * 3600 + (time.minute as i64) * 60 + (time.second as i64);
    let diff: i64 = secs - (timezone_offset as i64);
    let mut wrapped: i64 = diff % 86400;
    if wrapped < 0 {
        wrapped = wrapped + 86400;
    }
    assert(wrapped == (time.seconds() - timezone_offset) % 86400);
    let w = wrapped as u32;
    let hour = w / 3600;
    let minute = (w % 3600) / 60;
    let second = w % 60;
    TimeOfDay { hour, minute, second }
}

/// What formatting a UTC timestamp of `millis` milliseconds with
/// "%A %B %-d" gives, such as "Saturday May 7"; `None` outside the range of
/// dates that can be represented.
pub uninterp spec fn utc_date_heading(millis: int) -> Option<Seq<char>>;

/// Relies on `chrono::DateTime::from_timestamp_millis` and
/// `DateTime::format("%A %B %-d")`: the weekday, month name and day of the
/// month of a UTC timestamp.
#[verifier::external_body]
fn date_heading(millis: i64) -> (r: Option<String>)
    ensures
        match r {
            Some(s) => utc_date_heading(millis as int) == Some(s@),
            None => utc_date_heading(millis as int) is None,
        },
{
    match DateTime::from_timestamp_millis(millis) {
        Some(d) => Some(d.format("%A %B %-d").to_string()),
        None => None,
    }
}

/// The title of a puzzle: its date followed by its number.
pub open spec fn header_text_of(date: int, puzzle_number: int) -> Seq<char> {
    match utc_date_heading(date) {
        Some(d) => d + " - Puzzle number "@ + signed_decimal_of(puzzle_number),
        None => "Puzzle number "@ + signed_decimal_of(puzzle_number),
    }
}

/// The title of the puzzle posted at `date` (milliseconds since the Unix
/// epoch, UTC), e.g. "Saturday May 7 - Puzzle number 123".
pub fn get_header_text(date: i64, puzzle_number: i64) -> (r: String)
    ensures
        r@ == header_text_of(date as int, puzzle_number as int),
{
    proof {
        reveal_strlit(" - Puzzle number ");
        reveal_strlit("Puzzle number ");
    }
    let mut out = match date_heading(date) {
        Some(d) => {
            let mut s = d;
            s.append(" - Puzzle number ");
            s
        },
        None => String::from_str("Puzzle number "),
    };
    out.append(signed_decimal(puzzle_number).as_str());
    out
}

} // verus!
