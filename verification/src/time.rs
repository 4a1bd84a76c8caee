//! The time value a time picker carries, on the 12-hour or the 24-hour
//! clock, and its conversions to and from a plain time of day.

use vstd::prelude::*;

verus! {

/// The period of a time value.
#[derive(Clone, Copy, Debug, PartialEq, Eq, Structural)]
pub enum Period {
    /// The time is given on the 24-hour clock.
    H24,
    /// Ante meridiem: the hour runs from 12 (midnight) through 1 to 11.
    Am,
    /// Post meridiem: the hour runs from 12 (noon) through 1 to 11.
    Pm,
}

/// A picked time: hour and minute, with or without seconds.
#[derive(Clone, Copy, Debug, PartialEq, Eq, Structural)]
pub enum Time {
    /// A time of hour and minute.
    Hm {
        /// The hour, read under `period`.
        hour: u32,
        /// The minute.
        minute: u32,
        /// The period the hour is given in.
        period: Period,
    },
    /// A time of hour, minute and second.
    Hms {
        /// The hour, read under `period`.
        hour: u32,
        /// The minute.
        minute: u32,
        /// The second.
        second: u32,
        /// The period the hour is given in.
        period: Period,
    },
}

/// A plain time of day on the 24-hour clock, as a widget's state stores it.
#[derive(Clone, Copy, Debug, PartialEq, Eq, Structural)]
pub struct ClockTime {
    /// The hour, below 24.
    pub hour: u32,
    /// The minute, below 60.
    pub minute: u32,
    /// The second, below 60.
    pub second: u32,
}

/// An hour is well formed when it lies in the range its period gives it:
/// 0 to 23 on the 24-hour clock, 1 to 12 otherwise.
pub open spec fn hour_wf(hour: u32, period: Period) -> bool {
    match period {
        Period::H24 => hour < 24,
        Period::Am => 1 <= hour && hour <= 12,
        Period::Pm => 1 <= hour && hour <= 12,
    }
}

/// The hour on the 24-hour clock that a period-qualified hour names.
pub open spec fn clock_hour_of(hour: u32, period: Period) -> u32 {
    match period {
        Period::H24 => hour,
        Period::Am => if hour == 12 {
            0u32
        } else {
            hour
        },
        Period::Pm => if hour == 12 {
            12u32
        } else {
            (hour + 12) as u32
        },
    }
}

/// The hour on the 12-hour clock that a 24-hour clock hour names.
pub open spec fn twelve_hour_of(hour: u32) -> u32 {
    if hour == 0 {
        12u32
    } else if hour > 12 {
        (hour - 12) as u32
    } else {
        hour
    }
}

/// The period of a 24-hour clock hour on the 12-hour clock.
pub open spec fn period_of_clock_hour(hour: u32) -> Period {
    if hour < 12 {
        Period::Am
    } else {
        Period::Pm
    }
}

/// The time that a plain time of day reads as, on the clock `use_24h`
/// selects, with the seconds kept or dropped as `show_seconds` says.
pub open spec fn spec_from_clock(c: ClockTime, use_24h: bool, show_seconds: bool) -> Time {
    let hour = if use_24h {
        c.hour
    } else {
        twelve_hour_of(c.hour)
    };
    let period = if use_24h {
        Period::H24
    } else {
        period_of_clock_hour(c.hour)
    };
    if show_seconds {
        Time::Hms { hour, minute: c.minute, second: c.second, period }
    } else {
        Time::Hm { hour, minute: c.minute, period }
    }
}

impl ClockTime {
    /// A time of day is well formed when each component lies on the clock.
    pub open spec fn wf(self) -> bool {
        self.hour < 24 && self.minute < 60 && self.second < 60
    }
}

impl Time {
    /// A time is well formed when its hour fits its period and its minute
    /// and second lie on the clock.
    pub open spec fn wf(self) -> bool {
        match self {
            Time::Hm { hour, minute, period } => hour_wf(hour, period) && minute < 60,
            Time::Hms { hour, minute, second, period } => hour_wf(hour, period) && minute < 60
                && second < 60,
        }
    }

    /// Returns whether the time is well formed.
    pub fn is_wf(&self) -> (b: bool)
        ensures
            b == self.wf(),
    {
        match *self {
            Time::Hm { hour, minute, period } => hour_in_period(hour, period) && minute < 60,
            Time::Hms { hour, minute, second, period } => hour_in_period(hour, period)
                && minute < 60 && second < 60,
        }
    }

    /// The period the time is given in.
    pub open spec fn spec_period(self) -> Period {
        match self {
            Time::Hm { period, .. } => period,
            Time::Hms { period, .. } => period,
        }
    }

    /// Whether the time carries seconds.
    pub open spec fn has_seconds(self) -> bool {
        match self {
            Time::Hm { .. } => false,
            Time::Hms { .. } => true,
        }
    }

    /// The plain time of day the time names; a time without seconds names
    /// the top of its minute.
    pub open spec fn spec_clock(self) -> ClockTime {
        match self {
            Time::Hm { hour, minute, period } => ClockTime {
                hour: clock_hour_of(hour, period),
                minute,
                second: 0,
            },
            Time::Hms { hour, minute, second, period } => ClockTime {
                hour: clock_hour_of(hour, period),
                minute,
                second,
            },
        }
    }

    /// Returns the plain time of day this time names.
    pub fn to_clock(&self) -> (c: ClockTime)
        requires
            self.wf(),
        ensures
            c == self.spec_clock(),
            c.wf(),
    {
        match *self {
            Time::Hm { hour, minute, period } => ClockTime {
                hour: clock_hour(hour, period),
                minute,
                second: 0,
            },
            Time::Hms { hour, minute, second, period } => ClockTime {
                hour: clock_hour(hour, period),
                minute,
                second,
            },
        }
    }

    /// Reads a plain time of day onto the clock `use_24h` selects, keeping
    /// the seconds only when `show_seconds` is set.
    pub fn from_clock(c: ClockTime, use_24h: bool, show_seconds: bool) -> (t: Time)
        ensures
            t == spec_from_clock(c, use_24h, show_seconds),
            c.wf() ==> t.wf(),
    {
        let hour: u32 = if use_24h {
            c.hour
        } else if c.hour == 0 {
            12
        } else if c.hour > 12 {
            c.hour - 12
        } else {
            c.hour
        };
        let period = if use_24h {
            Period::H24
        } else if c.hour < 12 {
            Period::Am
        } else {
            Period::Pm
        };
        if show_seconds {
            Time::Hms { hour, minute: c.minute, second: c.second, period }
        } else {
            Time::Hm { hour, minute: c.minute, period }
        }
    }

    /// Returns the current local time as hour and minute, on the clock
    /// `use_24h` selects.
    pub fn now_hm(use_24h: bool) -> (t: Time)
        ensures
            t.wf(),
            !t.has_seconds(),
            t.spec_period() == Period::H24 <==> use_24h,
    {
        let c = local_clock_now();
        Time::from_clock(c, use_24h, false)
    }

    /// Returns the current local time as hour, minute and second, on the
    /// clock `use_24h` selects.
    pub fn now_hms(use_24h: bool) -> (t: Time)
        ensures
            t.wf(),
            t.has_seconds(),
            t.spec_period() == Period::H24 <==> use_24h,
    {
        let c = local_clock_now();
        Time::from_clock(c, use_24h, true)
    }
}

/// Returns whether an hour lies in the range its period gives it.
fn hour_in_period(hour: u32, period: Period) -> (b: bool)
    ensures
        b == hour_wf(hour, period),
{
    match period {
        Period::H24 => hour < 24,
        Period::Am => 1 <= hour && hour <= 12,
        Period::Pm => 1 <= hour && hour <= 12,
    }
}

/// Returns the hour on the 24-hour clock that a period-qualified hour names.
fn clock_hour(hour: u32, period: Period) -> (h: u32)
    requires
        hour_wf(hour, period),
    ensures
        h == clock_hour_of(hour, period),
        h < 24,
{
    match period {
        Period::H24 => hour,
        Period::Am => if hour == 12 {
            0
        } else {
            hour
        },
        Period::Pm => if hour == 12 {
            12
        } else {
            hour + 12
        },
    }
}

/// Relies on chrono::Local::now and chrono's Timelike accessors on the local
/// time of day: hour runs from 0 to 23, minute and second from 0 to 59.
#[verifier::external_body]
pub(crate) fn local_clock_now() -> (c: ClockTime)
    ensures
        c.wf(),
{
    let t = chrono::Local::now().naive_local().time();
    ClockTime {
        hour: chrono::Timelike::hour(&t),
        minute: chrono::Timelike::minute(&t),
        second: chrono::Timelike::second(&t),
    }
}

/// Reading a well-formed time of day onto either clock and back returns the
/// same time of day, up to the seconds that an hour-and-minute reading drops.
pub proof fn lemma_clock_round_trip(c: ClockTime, use_24h: bool, show_seconds: bool)
    requires
        c.wf(),
    ensures
        spec_from_clock(c, use_24h, show_seconds).wf(),
        spec_from_clock(c, use_24h, true).spec_clock() == c,
        spec_from_clock(c, use_24h, false).spec_clock() == (ClockTime {
            hour: c.hour,
            minute: c.minute,
            second: 0,
        }),
{
}

/// A well-formed time is returned unchanged by passing through the plain
/// time of day it names, read back on its own clock with its own seconds.
pub proof fn lemma_time_round_trip(t: Time)
    requires
        t.wf(),
    ensures
        spec_from_clock(t.spec_clock(), t.spec_period() == Period::H24, t.has_seconds()) == t,
{
}

} // verus!
