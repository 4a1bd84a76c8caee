//! A time picker: an input element for picking times, wrapped around an
//! underlay element, with the per-instance state the widget tree keeps for
//! it across redraws.

use vstd::prelude::*;
use crate::geometry::Rectangle;
use crate::overlay::{OverlayTarget, overlay_target};
use crate::time::{ClockTime, local_clock_now};

pub use crate::time::{Period, Time};

verus! {

/// An input element for picking times.
#[derive(Clone, Copy, Debug, PartialEq, Eq, Structural)]
pub struct TimePicker {
    /// Show the picker.
    pub show_picker: bool,
    /// The time to show.
    pub time: Time,
    /// Whether the overlay offers the 24-hour clock instead of AM/PM.
    pub use_24h: bool,
    /// Whether the overlay also picks seconds.
    pub show_seconds: bool,
}

impl TimePicker {
    /// Creates a new time picker over the given underlay.
    ///
    /// It expects whether the overlay of the time picker is visible, and
    /// the initial time to show. The overlay starts on the AM/PM clock and
    /// without seconds.
    pub fn new(show_picker: bool, time: Time) -> (p: TimePicker)
        ensures
            p.show_picker == show_picker,
            p.time == time,
            !p.use_24h,
            !p.show_seconds,
    {
        TimePicker { show_picker, time, use_24h: false, show_seconds: false }
    }

    /// Use the 24-hour clock instead of AM/PM.
    pub fn use_24h(self) -> (p: TimePicker)
        ensures
            p == (TimePicker {
                show_picker: self.show_picker,
                time: self.time,
                use_24h: true,
                show_seconds: self.show_seconds,
            }),
    {
        TimePicker {
            show_picker: self.show_picker,
            time: self.time,
            use_24h: true,
            show_seconds: self.show_seconds,
        }
    }

    /// Enables the picker to also pick seconds.
    pub fn show_seconds(self) -> (p: TimePicker)
        ensures
            p == (TimePicker {
                show_picker: self.show_picker,
                time: self.time,
                use_24h: self.use_24h,
                show_seconds: true,
            }),
    {
        TimePicker {
            show_picker: self.show_picker,
            time: self.time,
            use_24h: self.use_24h,
            show_seconds: true,
        }
    }

    /// Returns the fresh per-instance state the widget tree stores for this
    /// picker: the time of day the picker's time names.
    pub fn state(&self) -> (s: State)
        requires
            self.time.wf(),
        ensures
            s.time == self.time.spec_clock(),
            s.time.wf(),
            !s.use_24h,
            !s.show_seconds,
    {
        State::new(self.time)
    }

    /// Returns the surface this picker presents in the overlay pass: its
    /// own overlay centered on the underlay's bounds while the picker is
    /// shown, the underlay's overlay otherwise.
    pub fn overlay_target(&self, bounds: &Rectangle) -> (t: OverlayTarget)
        requires
            bounds.wf(),
        ensures
            self.show_picker ==> t == OverlayTarget::Picker(bounds.spec_center()),
            !self.show_picker ==> t == OverlayTarget::Underlay,
    {
        overlay_target(self.show_picker, bounds)
    }
}

/// The state of a time picker, persisted across redraws.
#[derive(Clone, Copy, Debug, PartialEq, Eq, Structural)]
pub struct State {
    /// The time of day the overlay currently shows.
    pub time: ClockTime,
    /// Whether the overlay shows the 24-hour clock.
    pub use_24h: bool,
    /// Whether the overlay shows seconds.
    pub show_seconds: bool,
}

impl State {
    /// Creates a new state with the current local time.
    pub fn now() -> (s: State)
        ensures
            s.time.wf(),
            !s.use_24h,
            !s.show_seconds,
    {
        State { time: local_clock_now(), use_24h: false, show_seconds: false }
    }

    /// Creates a new state with the time of day the given time names.
    pub fn new(time: Time) -> (s: State)
        requires
            time.wf(),
        ensures
            s.time == time.spec_clock(),
            s.time.wf(),
            !s.use_24h,
            !s.show_seconds,
    {
        State { time: time.to_clock(), use_24h: false, show_seconds: false }
    }

    /// Resets the state to the current local time, back on the AM/PM clock
    /// and without seconds.
    pub fn reset(&mut self)
        ensures
            final(self).time.wf(),
            !final(self).use_24h,
            !final(self).show_seconds,
    {
        self.time = local_clock_now();
        self.use_24h = false;
        self.show_seconds = false;
    }
}

} // verus!
