//! Conventions of the host's input events.

use vstd::prelude::*;

verus! {

/// The pointer button that presses buttons and drags dials.
pub const PRIMARY_BUTTON: u32 = 1;

/// The pointer button that resets a dial to its default value.
pub const SECONDARY_BUTTON: u32 = 3;

/// The host's modifier bit for the control key.
pub const MODIFIER_CTRL: u32 = 2;

} // verus!
