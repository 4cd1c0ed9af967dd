//! Steering of the ship from the two turn keys.
use vstd::prelude::*;

verus! {

/// The turn that the two turn keys ask for: `-1` counter-clockwise (left key alone), `1`
/// clockwise (right key alone), `0` when both or neither are held.
pub open spec fn turn_of(left: bool, right: bool) -> int {
    if left && !right {
        -1
    } else if right && !left {
        1
    } else {
        0
    }
}

/// Combines the two held turn keys into one direction of rotation.
pub fn turn_direction(left: bool, right: bool) -> (direction: i8)
    ensures
        direction == turn_of(left, right),
{
    match (left, right) {
        (true, false) => -1,
        (false, true) => 1,
        _ => 0,
    }
}

/// Holding both turn keys, or neither, does not turn the ship; the two keys turn it opposite ways.
pub proof fn opposite_keys_cancel(left: bool, right: bool)
    ensures
        turn_of(true, true) == 0,
        turn_of(false, false) == 0,
        turn_of(left, right) == -turn_of(right, left),
{
}

} // verus!
