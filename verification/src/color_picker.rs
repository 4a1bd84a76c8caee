//! A color picker: an input element for picking colors, wrapped around an
//! underlay element, with the per-instance state the widget tree keeps for
//! it across redraws.

use vstd::prelude::*;
use crate::color::{Rgba, reset_color, spec_reset_color};
use crate::geometry::Rectangle;
use crate::overlay::{OverlayTarget, overlay_target};

verus! {

/// An input element for picking colors.
#[derive(Clone, Copy, Debug, PartialEq, Eq, Structural)]
pub struct ColorPicker {
    /// Show the picker.
    pub show_picker: bool,
    /// The color to show.
    pub color: Rgba,
}

impl ColorPicker {
    /// Creates a new color picker over the given underlay.
    ///
    /// It expects whether the overlay of the color picker is visible, and
    /// the initial color to show.
    pub fn new(show_picker: bool, color: Rgba) -> (p: ColorPicker)
        ensures
            p.show_picker == show_picker,
            p.color == color,
    {
        ColorPicker { show_picker, color }
    }

    /// Returns the fresh per-instance state the widget tree stores for this
    /// picker: its current color, with no color bar dragged.
    pub fn state(&self) -> (s: State)
        ensures
            s.color == self.color,
            !s.color_bar_dragged,
    {
        State::new(self.color)
    }

    /// Returns the surface this picker presents in the overlay pass: its
    /// own overlay centered on the underlay's bounds while the picker is
    /// shown, the underlay's overlay otherwise.
    pub fn overlay_target(&self, bounds: &Rectangle) -> (t: OverlayTarget)
        requires
            bounds.wf(),
        ensures
            self.show_picker ==> t == OverlayTarget::Picker(bounds.spec_center()),
            !self.show_picker ==> t == OverlayTarget::Underlay,
    {
        overlay_target(self.show_picker, bounds)
    }
}

/// The state of a color picker, persisted across redraws.
#[derive(Clone, Copy, Debug, PartialEq, Eq, Structural)]
pub struct State {
    /// The color the overlay currently shows.
    pub color: Rgba,
    /// Whether one of the overlay's color bars is being dragged.
    pub color_bar_dragged: bool,
}

impl State {
    /// Creates a new state showing the given color, with no bar dragged.
    pub fn new(color: Rgba) -> (s: State)
        ensures
            s.color == color,
            !s.color_bar_dragged,
    {
        State { color, color_bar_dragged: false }
    }

    /// Resets the color of the state and releases any dragged bar.
    pub fn reset(&mut self)
        ensures
            final(self).color == spec_reset_color(),
            !final(self).color_bar_dragged,
    {
        self.color = reset_color();
        self.color_bar_dragged = false;
    }
}

impl Default for State {
    /// Returns the state showing opaque black, with no bar dragged.
    fn default() -> (s: State)
        ensures
            s.color == (Rgba { r: 0, g: 0, b: 0, a: 255 }),
            !s.color_bar_dragged,
    {
        State { color: Rgba { r: 0, g: 0, b: 0, a: 255 }, color_bar_dragged: false }
    }
}

} // verus!
