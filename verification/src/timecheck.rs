//! Days of the week and times of day, and the check of a time window.
//!
//! A time window is a pair of times of day; it may wrap past midnight
//! (23:00 to 04:00 is a window). The check covers the wraparound in exactly
//! three cases. The three cases are not the full complement of all
//! wraparound configurations — a collapsed window, for one, never holds —
//! and they stay as they are on purpose: a "corrected" formula would
//! silently change what existing rules mean.

use vstd::prelude::*;

verus! {

/// A day of the week.
#[derive(Clone, Copy, PartialEq, Eq, Structural, Debug)]
pub enum Weekday {
    Mon,
    Tue,
    Wed,
    Thu,
    Fri,
    Sat,
    Sun,
}

/// A time of day, held as the number of seconds since midnight.
#[derive(Clone, Copy, PartialEq, Eq, Structural, Debug)]
pub struct TimeOfDay {
    pub secs: u32,
}

/// A well-formed time of day lies below 24 hours.
pub open spec fn time_wf(t: TimeOfDay) -> bool {
    t.secs < 86400
}

impl TimeOfDay {
    /// Builds a time of day from hours, minutes and seconds.
    pub fn from_hms(hour: u32, min: u32, sec: u32) -> (r: TimeOfDay)
        requires
            hour < 24,
            min < 60,
            sec < 60,
        ensures
            r.secs == hour * 3600 + min * 60 + sec,
            time_wf(r),
    {
        TimeOfDay { secs: hour * 3600 + min * 60 + sec }
    }

    /// The seconds since midnight.
    pub fn seconds_of_day(&self) -> (r: u32)
        ensures
            r == self.secs,
    {
        self.secs
    }
}

/// Whether the moment `now` lies in the window from `start` to `end`, in
/// the engine's three-case reading: a non-wrapping window holds its strict
/// interior; a wrapping window (start above end) holds the moments strictly
/// below its end and the moments strictly above its start.
pub open spec fn spec_time_window_holds(start: TimeOfDay, end: TimeOfDay, now: TimeOfDay) -> bool {
    ||| (start.secs < now.secs && now.secs < end.secs && start.secs < end.secs)
    ||| (start.secs > now.secs && now.secs < end.secs && start.secs > end.secs)
    ||| (start.secs < now.secs && now.secs > end.secs && start.secs > end.secs)
}

/// The time-window check: a pure function of the window and the moment.
pub fn time_window_holds(start: TimeOfDay, end: TimeOfDay, now: TimeOfDay) -> (r: bool)
    ensures
        r == spec_time_window_holds(start, end, now),
{
    let bool_1 = (start.secs < now.secs) && (now.secs < end.secs) && (start.secs < end.secs);
    let bool_2 = (start.secs > now.secs) && (now.secs < end.secs) && (start.secs > end.secs);
    let bool_3 = (start.secs < now.secs) && (now.secs > end.secs) && (start.secs > end.secs);
    bool_1 || bool_2 || bool_3
}

/// Whether a weekday bound is met: an unset bound is met on every day, a
/// set bound only on that day.
pub open spec fn spec_weekday_matches(bound: Option<Weekday>, today: Weekday) -> bool {
    match bound {
        None => true,
        Some(d) => d == today,
    }
}

/// The full time-condition check: a pure function of the optional weekday
/// bound, the window, and the present weekday and time of day.
pub fn time_condition_holds(
    weekday: Option<Weekday>,
    start: TimeOfDay,
    end: TimeOfDay,
    today: Weekday,
    now: TimeOfDay,
) -> (r: bool)
    ensures
        r == (spec_weekday_matches(weekday, today) && spec_time_window_holds(start, end, now)),
{
    let weekday_ok = match weekday {
        None => true,
        Some(d) => d == today,
    };
    weekday_ok && time_window_holds(start, end, now)
}

} // verus!
