//! The clock formatter: a plain-value local-time instant and the verified
//! rendering of the calendar command from it.
use vstd::prelude::*;
use crate::text::{spec_two_digits, two_digits};
use chrono::{Datelike, Timelike};

verus! {

/// A local wall-clock instant reduced to the plain fields the formatter
/// reads. `weekday` counts days from Monday (0 = Monday .. 6 = Sunday);
/// `month` counts from 1.
#[derive(Clone, Copy, PartialEq, Eq, Structural, Debug)]
pub struct ClockInstant {
    pub hour: u8,
    pub minute: u8,
    pub weekday: u8,
    pub day: u8,
    pub month: u8,
}

impl ClockInstant {
    /// The ranges a calendar instant satisfies.
    pub open spec fn wf(self) -> bool {
        self.hour < 24 && self.minute < 60 && self.weekday < 7 && 1 <= self.day <= 31 && 1
            <= self.month <= 12
    }
}

/// The three-letter English weekday abbreviation, days counted from Monday.
pub open spec fn spec_weekday_abbr(w: int) -> Seq<char> {
    if w == 0 {
        "Mon"@
    } else if w == 1 {
        "Tue"@
    } else if w == 2 {
        "Wed"@
    } else if w == 3 {
        "Thu"@
    } else if w == 4 {
        "Fri"@
    } else if w == 5 {
        "Sat"@
    } else {
        "Sun"@
    }
}

pub fn weekday_abbr(w: u8) -> (r: &'static str)
    requires
        w < 7,
    ensures
        r@ == spec_weekday_abbr(w as int),
{
    match w {
        0 => "Mon",
        1 => "Tue",
        2 => "Wed",
        3 => "Thu",
        4 => "Fri",
        5 => "Sat",
        _ => "Sun",
    }
}

/// The three-letter English month abbreviation, months counted from 1.
pub open spec fn spec_month_abbr(m: int) -> Seq<char> {
    if m == 1 {
        "Jan"@
    } else if m == 2 {
        "Feb"@
    } else if m == 3 {
        "Mar"@
    } else if m == 4 {
        "Apr"@
    } else if m == 5 {
        "May"@
    } else if m == 6 {
        "Jun"@
    } else if m == 7 {
        "Jul"@
    } else if m == 8 {
        "Aug"@
    } else if m == 9 {
        "Sep"@
    } else if m == 10 {
        "Oct"@
    } else if m == 11 {
        "Nov"@
    } else {
        "Dec"@
    }
}

pub fn month_abbr(m: u8) -> (r: &'static str)
    requires
        1 <= m <= 12,
    ensures
        r@ == spec_month_abbr(m as int),
{
    match m {
        1 => "Jan",
        2 => "Feb",
        3 => "Mar",
        4 => "Apr",
        5 => "May",
        6 => "Jun",
        7 => "Jul",
        8 => "Aug",
        9 => "Sep",
        10 => "Oct",
        11 => "Nov",
        _ => "Dec",
    }
}

/// The calendar command for an instant: the icon carries the date as
/// `Sun 12. Oct`, the label the time as `HH:MM`.
pub open spec fn spec_clock_command(i: ClockInstant) -> Seq<char> {
    "--set calendar icon=\""@ + spec_weekday_abbr(i.weekday as int) + " "@ + spec_two_digits(
        i.day as int,
    ) + ". "@ + spec_month_abbr(i.month as int) + "\" label=\""@ + spec_two_digits(i.hour as int)
        + ":"@ + spec_two_digits(i.minute as int) + "\""@
}

/// Relies on chrono's `Local::now` and its `Datelike` / `Timelike`
/// accessors for the current local time: `hour` is 0..=23, `minute`
/// 0..=59, `num_days_from_monday` 0..=6, `day` 1..=31, `month` 1..=12.
#[verifier::external_body]
pub(crate) fn now_instant() -> (i: ClockInstant)
    ensures
        i.wf(),
{
    let t = chrono::Local::now();
    ClockInstant {
        hour: t.hour() as u8,
        minute: t.minute() as u8,
        weekday: t.weekday().num_days_from_monday() as u8,
        day: t.day() as u8,
        month: t.month() as u8,
    }
}

/// The clock formatter; `command` holds the last rendered calendar command.
pub struct Clock {
    pub command: String,
}

impl Clock {
    /// A fresh formatter with an empty command.
    pub fn new() -> (c: Clock)
        ensures
            c.command@ == Seq::<char>::empty(),
    {
        Clock { command: String::new() }
    }

    /// Renders the calendar command for one instant. The result is a pure
    /// function of the instant: rendering the same instant again yields
    /// the identical string.
    pub fn render(now: &ClockInstant) -> (r: String)
        requires
            now.wf(),
        ensures
            r@ == spec_clock_command(*now),
            r@.len() > 0,
    {
        let mut s = String::from_str("--set calendar icon=\"");
        s.append(weekday_abbr(now.weekday));
        s.append(" ");
        let day = two_digits(now.day);
        s.append(day.as_str());
        s.append(". ");
        s.append(month_abbr(now.month));
        s.append("\" label=\"");
        let hour = two_digits(now.hour);
        s.append(hour.as_str());
        s.append(":");
        let minute = two_digits(now.minute);
        s.append(minute.as_str());
        s.append("\"");
        proof {
            reveal_strlit("--set calendar icon=\"");
            assert(s@ =~= spec_clock_command(*now));
        }
        s
    }

    /// Renders the current local time into `command`.
    pub fn update(&mut self)
        ensures
            exists|i: ClockInstant| i.wf() && final(self).command@ == spec_clock_command(i),
            final(self).command@.len() > 0,
    {
        let now = now_instant();
        self.command = Self::render(&now);
        proof {
            assert(now.wf() && self.command@ == spec_clock_command(now));
        }
    }
}

} // verus!
