//! What the host samples from the pointer: where the cursor is and which
//! button event is waiting to be handled.

use crate::geometry::Vector2;
use vstd::prelude::*;

verus! {

/// Index of the button that selects, targets and sends units.
pub const PRIMARY_BUTTON: i64 = 1;

/// Index of the button that asks for a new unit.
pub const SECONDARY_BUTTON: i64 = 2;

/// The latest button event, until a system handles it.
#[derive(Clone, Copy, Debug, PartialEq, Eq)]
pub enum MouseButton {
    /// No event is waiting.
    Empty,
    Mouse { pressed: bool, button_index: i64 },
}

/// Where the cursor is, in world coordinates.
#[derive(Clone, Copy, Debug, PartialEq, Eq)]
pub struct MousePos {
    global: Vector2,
}

impl MouseButton {
    /// Whether a press of the button `index` is waiting.
    pub open spec fn pressed(self, index: i64) -> bool {
        self == (MouseButton::Mouse { pressed: true, button_index: index })
    }

    /// The event that the host reports.
    pub fn from_event(pressed: bool, button_index: i64) -> (b: MouseButton)
        ensures
            b == (MouseButton::Mouse { pressed, button_index }),
    {
        MouseButton::Mouse { pressed, button_index }
    }

    pub fn button_pressed(&self, index: i64) -> (b: bool)
        ensures
            b == self.pressed(index),
    {
        match *self {
            MouseButton::Empty => false,
            MouseButton::Mouse { pressed, button_index } => pressed && button_index == index,
        }
    }

    /// Marks the waiting event as handled, so that no later system reacts to
    /// it. Consuming twice is consuming once.
    pub fn consume(&mut self)
        ensures
            *final(self) == MouseButton::Empty,
            forall|index: i64| !final(self).pressed(index),
    {
        *self = MouseButton::Empty;
    }
}

impl MousePos {
    pub closed spec fn view(self) -> Vector2 {
        self.global
    }

    pub fn zero() -> (p: MousePos)
        ensures
            p@ == (Vector2 { x: 0, y: 0 }),
    {
        MousePos { global: Vector2 { x: 0, y: 0 } }
    }

    pub fn set_global(&mut self, position: Vector2)
        ensures
            final(self)@ == position,
    {
        self.global = position;
    }

    pub fn global(&self) -> (p: Vector2)
        ensures
            p == self@,
    {
        self.global
    }
}

} // verus!
