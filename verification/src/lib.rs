//! Models of auxiliary input widgets: a color picker, a time picker and a
//! menu bar.
//!
//! Each widget wraps an always-visible underlay element and conditionally
//! presents a floating overlay above it. The crate verifies the plain data
//! that the widgets manage across redraws: the per-instance state records,
//! the time and color values they carry, and the decision which surface the
//! overlay pass hands back.

pub mod color;
pub mod color_picker;
pub mod geometry;
pub mod menu;
pub mod overlay;
pub mod time;
pub mod time_picker;
