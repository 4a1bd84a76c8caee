//! The decision a picker takes in the overlay pass: present its own
//! floating surface, or let the underlay answer.

use vstd::prelude::*;
use crate::geometry::{Point, Rectangle};

verus! {

/// The surface a picker hands to the overlay pass.
#[derive(Clone, Copy, Debug, PartialEq, Eq, Structural)]
pub enum OverlayTarget {
    /// The picker's own overlay, anchored at the given point.
    Picker(Point),
    /// Whatever overlay the underlay itself presents.
    Underlay,
}

/// Returns the overlay surface a picker with the given visibility presents:
/// its own overlay, centered on the underlay's bounds, when the picker is
/// shown, and the underlay's overlay otherwise.
pub fn overlay_target(show_picker: bool, bounds: &Rectangle) -> (t: OverlayTarget)
    requires
        bounds.wf(),
    ensures
        show_picker ==> t == OverlayTarget::Picker(bounds.spec_center()),
        !show_picker ==> t == OverlayTarget::Underlay,
{
    if show_picker {
        OverlayTarget::Picker(bounds.center())
    } else {
        OverlayTarget::Underlay
    }
}

} // verus!
