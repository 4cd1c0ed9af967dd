//! The first-person room: when the player may leave the ground.
//!
//! Looking around, walking, gravity and landing are floating-point work done by the caller, which
//! also tells whether the player stands on the floor.
use vstd::prelude::*;

verus! {

/// Whether a jump starts in this frame: only on a press of the jump key (not while it is held)
/// and only from the ground, so there is no second jump in the air.
pub fn takes_off(jump_pressed: bool, on_ground: bool) -> (starts: bool)
    ensures
        starts == (jump_pressed && on_ground),
{
    jump_pressed && on_ground
}

} // verus!
