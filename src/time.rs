//! Times of day, calendar dates and local date-times as plain values.
use chrono::{Datelike, Timelike};
use vstd::prelude::*;

verus! {

/// Milliseconds in one second.
pub const MILLIS_PER_SECOND: u32 = 1000;

/// A time of day with millisecond resolution.
#[derive(Clone, Copy, Debug, PartialEq, Eq, Structural)]
pub struct TimeOfDay {
    pub hour: u32,
    pub minute: u32,
    pub second: u32,
    pub milli: u32,
}

/// Whether four numbers are in range for a time of day.
pub open spec fn time_in_range(hour: u32, minute: u32, second: u32, milli: u32) -> bool {
    hour < 24 && minute < 60 && second < 60 && milli < 1000
}

impl TimeOfDay {
    /// Each field is within its range (hour 0-23, minute 0-59, second 0-59,
    /// millisecond 0-999).
    pub open spec fn wf(self) -> bool {
        time_in_range(self.hour, self.minute, self.second, self.milli)
    }

    /// Builds a time of day, or `None` when a field is out of range.
    pub fn new(hour: u32, minute: u32, second: u32, milli: u32) -> (r: Option<TimeOfDay>)
        ensures
            r is Some <==> time_in_range(hour, minute, second, milli),
            r matches Some(t) ==> t.hour == hour && t.minute == minute && t.second == second
                && t.milli == milli,
    {
        if hour < 24 && minute < 60 && second < 60 && milli < MILLIS_PER_SECOND {
            Some(TimeOfDay { hour, minute, second, milli })
        } else {
            None
        }
    }
}

/// A calendar date as the local clock reports it.
#[derive(Clone, Copy, Debug, PartialEq, Eq, Structural)]
pub struct CalendarDate {
    pub year: i32,
    pub month: u32,
    pub day: u32,
}

impl CalendarDate {
    /// Month 1-12 and day of month 1-31.
    pub open spec fn wf(self) -> bool {
        1 <= self.month <= 12 && 1 <= self.day <= 31
    }

    /// `self` is strictly earlier than `other`.
    pub open spec fn before(self, other: CalendarDate) -> bool {
        self.year < other.year || (self.year == other.year && (self.month < other.month || (
        self.month == other.month && self.day < other.day)))
    }
}

impl TimeOfDay {
    /// `self` is strictly earlier in the day than `other`.
    pub open spec fn before(self, other: TimeOfDay) -> bool {
        self.hour < other.hour || (self.hour == other.hour && (self.minute < other.minute || (
        self.minute == other.minute && (self.second < other.second || (self.second
            == other.second && self.milli < other.milli)))))
    }
}

/// A local date and time of day: a point on the local wall clock.
#[derive(Clone, Copy, Debug, PartialEq, Eq, Structural)]
pub struct LocalDateTime {
    pub date: CalendarDate,
    pub time: TimeOfDay,
}

impl LocalDateTime {
    /// A valid date and a valid time of day.
    pub open spec fn wf(self) -> bool {
        self.date.wf() && self.time.wf()
    }

    /// `self` comes no later than `other` on the wall clock: dates compare
    /// first, then times of day.
    pub open spec fn no_later_than(self, other: LocalDateTime) -> bool {
        self.date.before(other.date) || (self.date == other.date && !other.time.before(self.time))
    }

    /// Whether the wall clock reading `self` has reached `target`.
    pub fn has_reached(&self, target: &LocalDateTime) -> (r: bool)
        ensures
            r == target.no_later_than(*self),
    {
        let (a, b) = (&target.date, &self.date);
        if a.year != b.year {
            return a.year < b.year;
        }
        if a.month != b.month {
            return a.month < b.month;
        }
        if a.day != b.day {
            return a.day < b.day;
        }
        let (s, t) = (&target.time, &self.time);
        if s.hour != t.hour {
            return s.hour < t.hour;
        }
        if s.minute != t.minute {
            return s.minute < t.minute;
        }
        if s.second != t.second {
            return s.second < t.second;
        }
        s.milli <= t.milli
    }

    /// The local wall clock now. A reading inside a leap second keeps
    /// millisecond 999 of the second before it.
    pub fn now() -> (r: LocalDateTime)
        ensures
            r.wf(),
    {
        let mut r = read_local_clock();
        if r.time.milli >= MILLIS_PER_SECOND {
            r.time.milli = MILLIS_PER_SECOND - 1;
        }
        r
    }
}

/// Relies on `chrono::Local::now` and the `Datelike` / `Timelike` accessors
/// of the `DateTime` it returns (month 1-12, day 1-31, hour 0-23, minute and
/// second 0-59), with `DateTime::timestamp_subsec_millis` for the
/// milliseconds, which may exceed 999 during a leap second.
#[verifier::external_body]
fn read_local_clock() -> (r: LocalDateTime)
    ensures
        r.date.wf(),
        r.time.hour < 24 && r.time.minute < 60 && r.time.second < 60,
{
    let now = chrono::Local::now();
    LocalDateTime {
        date: CalendarDate { year: now.year(), month: now.month(), day: now.day() },
        time: TimeOfDay {
            hour: now.hour(),
            minute: now.minute(),
            second: now.second(),
            milli: now.timestamp_subsec_millis(),
        },
    }
}

/// The instant at the given time of day on the calendar date of `today`,
/// or `None` when a field is out of range.
pub fn target_instant(today: &LocalDateTime, hour: u32, minute: u32, second: u32, milli: u32) -> (r:
    Option<LocalDateTime>)
    ensures
        r is Some <==> time_in_range(hour, minute, second, milli),
        r matches Some(t) ==> t.date == today.date && t.time == (TimeOfDay {
            hour,
            minute,
            second,
            milli,
        }),
{
    match TimeOfDay::new(hour, minute, second, milli) {
        Some(time) => Some(LocalDateTime { date: today.date, time }),
        None => None,
    }
}

} // verus!
