//! How many enemies a wave holds and where along the arena's edge each one enters.
//!
//! Positions are deterministic, computed from the wave number and the enemy's index rather than
//! drawn at random; the conversion of a place on the edge to coordinates is done by the caller.
use vstd::prelude::*;

verus! {

/// Number of enemies in wave `wave` (counted from one): three, and two more per later wave.
pub open spec fn enemy_count_of(wave: nat) -> int {
    3 + (wave - 1) * 2
}

/// Number of enemies in wave `wave`. Waves are numbered from one.
pub fn enemy_count(wave: u32) -> (count: u32)
    requires
        wave >= 1,
        enemy_count_of(wave as nat) <= u32::MAX,
    ensures
        count == enemy_count_of(wave as nat),
{
    3 + (wave - 1) * 2
}

/// Where the `index`-th enemy of wave `wave` enters: `edge` is the side of the arena (0 top,
/// 1 right, 2 bottom, 3 left, in turn) and `step` (0 to 96) is how far along that side, in
/// 97ths of its length.
pub open spec fn perimeter_slot_of(wave: nat, index: nat) -> (nat, nat) {
    (index % 4, (wave * 7 + index * 13) % 97)
}

/// The side of the arena and the place along it where an enemy of a wave enters.
pub fn perimeter_slot(wave: u32, index: u32) -> (slot: (u32, u32))
    requires
        wave * 7 + index * 13 <= u32::MAX,
    ensures
        slot.0 == perimeter_slot_of(wave as nat, index as nat).0,
        slot.1 == perimeter_slot_of(wave as nat, index as nat).1,
        slot.0 < 4,
        slot.1 < 97,
{
    (index % 4, (wave * 7 + index * 13) % 97)
}

/// Each wave holds two more enemies than the one before.
pub proof fn waves_grow_by_two(wave: nat)
    requires
        wave >= 1,
    ensures
        enemy_count_of(wave + 1) == enemy_count_of(wave) + 2,
        enemy_count_of(1) == 3,
{
}

/// Enemies of a wave take the four sides in turn.
pub proof fn sides_taken_in_turn(wave: nat, index: nat)
    ensures
        perimeter_slot_of(wave, index + 4).0 == perimeter_slot_of(wave, index).0,
        perimeter_slot_of(wave, index + 1).0 == (perimeter_slot_of(wave, index).0 + 1) % 4,
{
}

} // verus!
