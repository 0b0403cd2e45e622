//! Interaction state of a dial.
//!
//! A dial is a bounded numeric control. The value itself, its bounds and the
//! scale that maps it to steps are the owner's; this module decides what an
//! input event asks of the value and keeps the dial's own state: whether a
//! drag is in progress, whether the value readout is shown, and its size.
//!
//! Scrolling moves the value one step in the direction of the scroll; with the
//! control key held, one tenth of a step. Holding the primary pointer button
//! starts a drag, and each pointer move during it moves the value by the
//! pointer's displacement, again finer with the control key held. Pressing the
//! secondary pointer button asks for a reset to the default value.

use vstd::prelude::*;

use crate::input::{MODIFIER_CTRL, PRIMARY_BUTTON, SECONDARY_BUTTON};

verus! {

/// Diameter, in pixels, of a dial of normal size.
pub const DIAL_DIAMETER: u32 = 36;

/// Steps taken with the control key held are this many times finer.
pub const FINE_STEP_DIVISOR: u32 = 10;

/// Size classes of a dial.
#[derive(Clone, Copy, PartialEq, Eq, Structural, Debug)]
pub enum DialSize {
    Small,
    Normal,
    Large,
}

/// The direction of a discrete step.
#[derive(Clone, Copy, PartialEq, Eq, Structural, Debug)]
pub enum Direction {
    Up,
    Down,
}

/// An input event as a dial sees it. `modifiers` holds the host's modifier bits.
#[derive(Clone, Copy, PartialEq, Eq, Structural, Debug)]
pub enum DialEvent {
    Scroll { direction: Direction, modifiers: u32 },
    PointerPress(u32),
    PointerRelease(u32),
    PointerMove { modifiers: u32 },
    Other,
}

/// What an event asks of the dial's value. `divisor` divides the size of a
/// step: 1 for whole steps, `FINE_STEP_DIVISOR` for fine ones.
#[derive(Clone, Copy, PartialEq, Eq, Structural, Debug)]
pub enum DialAction {
    /// The event is not the dial's.
    Decline,
    /// Move the value by one step, divided by `divisor`, in `direction`.
    Step { direction: Direction, divisor: u32 },
    /// Record the pointer position as the origin of a drag.
    BeginDrag,
    /// Move the value by the pointer's displacement since the last origin,
    /// divided by `divisor`, and take the new position as the origin.
    Drag { divisor: u32 },
    /// Forget the origin of the drag.
    EndDrag,
    /// Offer the default value, where one is set and differs from the value.
    ResetToDefault,
}

/// The abstract state of a dial's interaction.
pub struct DialState {
    pub size: DialSize,
    pub dragging: bool,
    pub value_indicator_active: bool,
}

pub open spec fn spec_step_divisor(modifiers: u32) -> u32 {
    if modifiers & MODIFIER_CTRL == 0 {
        1
    } else {
        FINE_STEP_DIVISOR
    }
}

pub open spec fn spec_radius(size: DialSize) -> int {
    match size {
        DialSize::Small => DIAL_DIAMETER as int / 3,
        DialSize::Normal => DIAL_DIAMETER as int / 2,
        DialSize::Large => 2 * DIAL_DIAMETER as int / 3,
    }
}

impl DialState {
    /// What the event asks of the value.
    pub open spec fn action(self, ev: DialEvent) -> DialAction {
        match ev {
            DialEvent::Scroll { direction, modifiers } => DialAction::Step {
                direction,
                divisor: spec_step_divisor(modifiers),
            },
            DialEvent::PointerPress(b) => if b == PRIMARY_BUTTON {
                DialAction::BeginDrag
            } else if b == SECONDARY_BUTTON {
                DialAction::ResetToDefault
            } else {
                DialAction::Decline
            },
            DialEvent::PointerRelease(b) => if b == PRIMARY_BUTTON {
                DialAction::EndDrag
            } else {
                DialAction::Decline
            },
            DialEvent::PointerMove { modifiers } => if self.dragging {
                DialAction::Drag { divisor: spec_step_divisor(modifiers) }
            } else {
                DialAction::Decline
            },
            DialEvent::Other => DialAction::Decline,
        }
    }

    /// The state after the event.
    pub open spec fn on_event(self, ev: DialEvent) -> DialState {
        match self.action(ev) {
            DialAction::BeginDrag => DialState { dragging: true, ..self },
            DialAction::EndDrag => DialState { dragging: false, ..self },
            _ => self,
        }
    }
}

/// Divides a step by `FINE_STEP_DIVISOR` when the control key is held.
pub fn step_divisor(modifiers: u32) -> (d: u32)
    ensures
        d == spec_step_divisor(modifiers),
{
    if modifiers & MODIFIER_CTRL == 0 {
        1
    } else {
        FINE_STEP_DIVISOR
    }
}

pub struct DialControl {
    size: DialSize,
    dragging: bool,
    value_indicator_active: bool,
}

impl View for DialControl {
    type V = DialState;

    closed spec fn view(&self) -> DialState {
        DialState {
            size: self.size,
            dragging: self.dragging,
            value_indicator_active: self.value_indicator_active,
        }
    }
}

impl DialControl {
    /// A dial of normal size, not dragged, without value readout.
    pub fn new() -> (d: DialControl)
        ensures
            d@ == (DialState {
                size: DialSize::Normal,
                dragging: false,
                value_indicator_active: false,
            }),
    {
        DialControl { size: DialSize::Normal, dragging: false, value_indicator_active: false }
    }

    pub fn size(&self) -> (r: DialSize)
        ensures
            r == self@.size,
    {
        self.size
    }

    pub fn set_large(&mut self)
        ensures
            final(self)@ == (DialState { size: DialSize::Large, ..old(self)@ }),
    {
        self.size = DialSize::Large;
    }

    pub fn set_small(&mut self)
        ensures
            final(self)@ == (DialState { size: DialSize::Small, ..old(self)@ }),
    {
        self.size = DialSize::Small;
    }

    /// The radius of the dial's disc, in pixels.
    pub fn radius(&self) -> (r: u32)
        ensures
            r == spec_radius(self@.size),
    {
        match self.size {
            DialSize::Small => DIAL_DIAMETER / 3,
            DialSize::Normal => DIAL_DIAMETER / 2,
            DialSize::Large => 2 * DIAL_DIAMETER / 3,
        }
    }

    /// The width the dial needs, in pixels: twice its diameter.
    pub fn min_width(&self) -> (w: u32)
        ensures
            w == 4 * spec_radius(self@.size),
    {
        4 * self.radius()
    }

    /// The height the dial needs, in pixels: twice its diameter and a margin.
    pub fn min_height(&self) -> (h: u32)
        ensures
            h == 4 * spec_radius(self@.size) + 3,
    {
        4 * self.radius() + 3
    }

    /// Whether a drag is in progress.
    pub fn is_dragging(&self) -> (r: bool)
        ensures
            r == self@.dragging,
    {
        self.dragging
    }

    /// Whether the value readout is shown.
    pub fn value_indicator_active(&self) -> (r: bool)
        ensures
            r == self@.value_indicator_active,
    {
        self.value_indicator_active
    }

    /// The pointer entered the dial: show the value readout.
    pub fn pointer_enter(&mut self)
        ensures
            final(self)@ == (DialState { value_indicator_active: true, ..old(self)@ }),
    {
        self.value_indicator_active = true;
    }

    /// The pointer left the dial: hide the value readout.
    pub fn pointer_leave(&mut self)
        ensures
            final(self)@ == (DialState { value_indicator_active: false, ..old(self)@ }),
    {
        self.value_indicator_active = false;
    }

    /// Reacts to an input event; returns what it asks of the value.
    pub fn event(&mut self, ev: DialEvent) -> (a: DialAction)
        ensures
            a == old(self)@.action(ev),
            final(self)@ == old(self)@.on_event(ev),
    {
        match ev {
            DialEvent::Scroll { direction, modifiers } => DialAction::Step {
                direction,
                divisor: step_divisor(modifiers),
            },
            DialEvent::PointerPress(b) => {
                if b == PRIMARY_BUTTON {
                    self.dragging = true;
                    DialAction::BeginDrag
                } else if b == SECONDARY_BUTTON {
                    DialAction::ResetToDefault
                } else {
                    DialAction::Decline
                }
            },
            DialEvent::PointerRelease(b) => {
                if b == PRIMARY_BUTTON {
                    self.dragging = false;
                    DialAction::EndDrag
                } else {
                    DialAction::Decline
                }
            },
            DialEvent::PointerMove { modifiers } => {
                if self.dragging {
                    DialAction::Drag { divisor: step_divisor(modifiers) }
                } else {
                    DialAction::Decline
                }
            },
            DialEvent::Other => DialAction::Decline,
        }
    }
}

} // verus!
