//! A menu bar: a row of root items that opens menus beneath itself, with
//! the per-instance state the widget tree keeps for it across redraws.

use vstd::prelude::*;
use crate::geometry::Rectangle;

verus! {

/// How a widget sizes itself along one axis.
#[derive(Clone, Copy, Debug, PartialEq, Eq, Structural)]
pub enum Length {
    /// Fill all the available space.
    Fill,
    /// Fill a portion of the available space.
    FillPortion(u16),
    /// Shrink to the least space the content needs.
    Shrink,
    /// A fixed number of pixels.
    Fixed(u32),
}

/// Space around a widget's content, in whole pixels.
#[derive(Clone, Copy, Debug, PartialEq, Eq, Structural)]
pub struct Padding {
    /// Padding above the content.
    pub top: u32,
    /// Padding to the right of the content.
    pub right: u32,
    /// Padding below the content.
    pub bottom: u32,
    /// Padding to the left of the content.
    pub left: u32,
}

impl Padding {
    /// Returns padding of zero on every side.
    pub fn zero() -> (p: Padding)
        ensures
            p == (Padding { top: 0, right: 0, bottom: 0, left: 0 }),
    {
        Padding { top: 0, right: 0, bottom: 0, left: 0 }
    }
}

/// A menu bar over a row of root items.
#[derive(Clone, Copy, Debug, PartialEq, Eq, Structural)]
pub struct MenuBar {
    /// How many root items the bar holds.
    pub root_count: usize,
    /// Space between the root items.
    pub spacing: u32,
    /// Space around the row of root items.
    pub padding: Padding,
    /// How the bar sizes itself horizontally.
    pub width: Length,
    /// How the bar sizes itself vertically.
    pub height: Length,
}

impl MenuBar {
    /// Creates a new menu bar over the given number of root items, with no
    /// spacing, no padding, and shrinking to its content on both axes.
    pub fn new(root_count: usize) -> (b: MenuBar)
        ensures
            b.root_count == root_count,
            b.spacing == 0,
            b.padding == (Padding { top: 0, right: 0, bottom: 0, left: 0 }),
            b.width == Length::Shrink,
            b.height == Length::Shrink,
    {
        MenuBar {
            root_count,
            spacing: 0,
            padding: Padding::zero(),
            width: Length::Shrink,
            height: Length::Shrink,
        }
    }

    /// Returns how the bar sizes itself: its width and its height.
    pub fn size(&self) -> (s: (Length, Length))
        ensures
            s.0 == self.width,
            s.1 == self.height,
    {
        (self.width, self.height)
    }
}

/// The state of a menu bar, persisted across redraws.
#[derive(Clone, Debug, PartialEq, Eq)]
pub struct MenuBarState {
    /// The index of the root item whose menu is active.
    pub active_root: usize,
    /// Whether a menu is open.
    pub open: bool,
    /// The region the open menus may occupy.
    pub viewport: Rectangle,
    /// The path of open menu items, one index per level.
    pub indices: Vec<usize>,
}

impl Default for MenuBarState {
    /// Returns the state of a bar with no menu open: the first root active,
    /// an empty viewport and an empty path.
    fn default() -> (s: MenuBarState)
        ensures
            s.active_root == 0,
            !s.open,
            s.viewport == (Rectangle { x: 0, y: 0, width: 0, height: 0 }),
            s.indices@ == Seq::<usize>::empty(),
    {
        MenuBarState {
            active_root: 0,
            open: false,
            viewport: Rectangle::zero(),
            indices: Vec::new(),
        }
    }
}

} // verus!
