//! Pickups: which kill leaves one, and what collecting them does to health and ammunition.
//!
//! Whether the player touches a pickup is circle geometry computed by the caller, one flag per
//! pickup; lifetimes are timers kept by the caller too.
use vstd::prelude::*;
use crate::collections::{count_indices, count_indices_step};

verus! {

/// Health restored by a health pickup.
pub const HEALTH_RESTORE: i32 = 30;

/// Rounds added by an ammunition pickup.
pub const AMMO_RESTORE: i32 = 15;

/// Kind of pickup.
#[derive(Clone, Copy, Debug, PartialEq, Eq, Structural)]
pub enum PickupKind {
    Health,
    Ammo,
}

/// What the `kill_number`-th kill leaves behind (the first kill is number one): every fourth kill
/// a health pickup, every other remaining second kill ammunition, the rest nothing.
pub open spec fn drop_for_kill(kill_number: nat) -> Option<PickupKind> {
    if kill_number % 4 == 0 {
        Some(PickupKind::Health)
    } else if kill_number % 2 == 0 {
        Some(PickupKind::Ammo)
    } else {
        None
    }
}

/// The pickup the `kill_number`-th kill leaves, decided by the count alone, without chance.
pub fn pickup_for_kill(kill_number: u32) -> (kind: Option<PickupKind>)
    ensures
        kind == drop_for_kill(kill_number as nat),
{
    if kill_number % 4 == 0 {
        Some(PickupKind::Health)
    } else if kill_number % 2 == 0 {
        Some(PickupKind::Ammo)
    } else {
        None
    }
}

/// Health after collecting the first `k` pickups, starting from `health`: each touched health
/// pickup adds `HEALTH_RESTORE`, capped at `max_health`.
pub open spec fn health_after(
    health: int,
    max_health: int,
    kinds: Seq<PickupKind>,
    touched: Seq<bool>,
    k: nat,
) -> int
    decreases k,
{
    if k == 0 {
        health
    } else {
        let before = health_after(health, max_health, kinds, touched, (k - 1) as nat);
        if touched[k - 1] && kinds[k - 1] == PickupKind::Health {
            if before + HEALTH_RESTORE <= max_health {
                before + HEALTH_RESTORE
            } else {
                max_health
            }
        } else {
            before
        }
    }
}

/// Number of touched ammunition pickups among the first `k`.
pub open spec fn ammo_pickups(kinds: Seq<PickupKind>, touched: Seq<bool>, k: nat) -> nat
    decreases k,
{
    if k == 0 {
        0
    } else {
        ammo_pickups(kinds, touched, (k - 1) as nat) + if touched[k - 1] && kinds[k - 1]
            == PickupKind::Ammo {
            1nat
        } else {
            0nat
        }
    }
}

/// Whether collecting the pickups keeps health and ammunition within `i32`: no health pickup
/// would lift health past `i32::MAX` before its cap is applied, and the rounds fit.
pub open spec fn collection_fits(
    health: int,
    max_health: int,
    ammo: int,
    kinds: Seq<PickupKind>,
    touched: Seq<bool>,
) -> bool {
    &&& forall|k: int|
        0 <= k < kinds.len() && #[trigger] touched[k] && kinds[k] == PickupKind::Health
            ==> health_after(health, max_health, kinds, touched, k as nat) + HEALTH_RESTORE
            <= i32::MAX
    &&& ammo + AMMO_RESTORE * ammo_pickups(kinds, touched, kinds.len()) <= i32::MAX
}

/// Collects the touched pickups (`touched[k]`: the player touches pickup `k`, of kind
/// `kinds[k]`), in order. Health never rises above `max_health` through a pickup; ammunition has
/// no cap. The collected pickups are the ones to remove. When health or ammunition would leave
/// `i32`, nothing changes and the result is false.
#[verifier::rlimit(40)]
pub fn resolve(
    kinds: &Vec<PickupKind>,
    touched: &Vec<bool>,
    health: &mut i32,
    max_health: i32,
    ammo: &mut i32,
) -> (collected: bool)
    requires
        kinds@.len() == touched@.len(),
    ensures
        collected == collection_fits(
            *old(health) as int,
            max_health as int,
            *old(ammo) as int,
            kinds@,
            touched@,
        ),
        collected ==> *final(health) == health_after(
            *old(health) as int,
            max_health as int,
            kinds@,
            touched@,
            kinds@.len(),
        ),
        collected ==> *final(ammo) == *old(ammo) + AMMO_RESTORE * ammo_pickups(
            kinds@,
            touched@,
            kinds@.len(),
        ),
        !collected ==> *final(health) == *old(health) && *final(ammo) == *old(ammo),
{
    let n = kinds.len();
    let ghost h0 = *health as int;
    let ghost a0 = *ammo as int;
    let mut h: i32 = *health;
    let mut a: i128 = *ammo as i128;
    let mut k: usize = 0;
    while k < n
        invariant
            k <= n,
            n == kinds@.len(),
            n == touched@.len(),
            h0 == *old(health),
            a0 == *old(ammo),
            forall|j: int|
                0 <= j < k && #[trigger] touched@[j] && kinds@[j] == PickupKind::Health
                    ==> health_after(h0, max_health as int, kinds@, touched@, j as nat)
                    + HEALTH_RESTORE <= i32::MAX,
            h == health_after(h0, max_health as int, kinds@, touched@, k as nat),
            a == a0 + AMMO_RESTORE * ammo_pickups(kinds@, touched@, k as nat),
            a <= i32::MAX,
        decreases n - k,
    {
        if touched[k] {
            match kinds[k] {
                PickupKind::Health => {
                    if h > i32::MAX - HEALTH_RESTORE {
                        return false;
                    }
                    let restored = h + HEALTH_RESTORE;
                    h = if restored <= max_health {
                        restored
                    } else {
                        max_health
                    };
                },
                PickupKind::Ammo => {
                    a = a + AMMO_RESTORE as i128;
                    if a > i32::MAX as i128 {
                        proof {
                            ammo_pickups_grow(kinds@, touched@, (k + 1) as nat, n as nat);
                        }
                        return false;
                    }
                },
            }
        }
        k = k + 1;
    }
    *health = h;
    *ammo = a as i32;
    true
}

proof fn ammo_pickups_grow(kinds: Seq<PickupKind>, touched: Seq<bool>, k: nat, n: nat)
    requires
        k <= n,
    ensures
        ammo_pickups(kinds, touched, k) <= ammo_pickups(kinds, touched, n),
    decreases n - k,
{
    if k < n {
        ammo_pickups_grow(kinds, touched, k, (n - 1) as nat);
    }
}

/// A health pickup never lifts health above the maximum: starting at or below it, health stays at
/// or below it after any pickups; and health never drops through a pickup.
pub proof fn health_stays_capped(
    health: int,
    max_health: int,
    kinds: Seq<PickupKind>,
    touched: Seq<bool>,
    k: nat,
)
    requires
        health <= max_health,
    ensures
        health_after(health, max_health, kinds, touched, k) <= max_health,
        health_after(health, max_health, kinds, touched, k) >= health,
    decreases k,
{
    if k > 0 {
        health_stays_capped(health, max_health, kinds, touched, (k - 1) as nat);
    }
}

/// The drop rule depends on the kill count alone and repeats every four kills.
pub proof fn drops_repeat_every_four_kills(kill_number: nat)
    ensures
        drop_for_kill(kill_number + 4) == drop_for_kill(kill_number),
{
}

/// Pickups the player does not touch do nothing: with none of the first `n` touched, health and
/// ammunition stay as they were.
pub proof fn untouched_pickups_change_nothing(
    health: int,
    max_health: int,
    kinds: Seq<PickupKind>,
    touched: Seq<bool>,
    n: nat,
)
    requires
        forall|k: int| 0 <= k < n ==> !#[trigger] touched[k],
    ensures
        health_after(health, max_health, kinds, touched, n) == health,
        ammo_pickups(kinds, touched, n) == 0,
    decreases n,
{
    if n > 0 {
        assert(!touched[n - 1]);
        untouched_pickups_change_nothing(health, max_health, kinds, touched, (n - 1) as nat);
    }
}

/// Health after the pickups: with `c` touched health pickups among the first `n`, health is
/// unchanged when `c` is zero and otherwise rises by `c` restores, cut at `max_health`.
/// Ammunition pickups and untouched pickups do not affect it.
pub proof fn touched_health_pickups_heal_up_to_the_cap(
    health: int,
    max_health: int,
    kinds: Seq<PickupKind>,
    touched: Seq<bool>,
    n: nat,
)
    ensures
        ({
            let c = count_indices(n, |k: int| touched[k] && kinds[k] == PickupKind::Health);
            health_after(health, max_health, kinds, touched, n) == if c == 0 {
                health
            } else if health + HEALTH_RESTORE * c <= max_health {
                health + HEALTH_RESTORE * c
            } else {
                max_health
            }
        }),
    decreases n,
{
    let pred = |k: int| touched[k] && kinds[k] == PickupKind::Health;
    count_indices_step(0, pred);
    if n > 0 {
        touched_health_pickups_heal_up_to_the_cap(health, max_health, kinds, touched, (n - 1) as nat);
        count_indices_step((n - 1) as nat, pred);
    }
}

/// Every touched ammunition pickup adds its rounds once: the rounds collected are one restore
/// for each of them.
pub proof fn touched_ammo_pickups_are_counted(kinds: Seq<PickupKind>, touched: Seq<bool>, n: nat)
    ensures
        ammo_pickups(kinds, touched, n) == count_indices(
            n,
            |k: int| touched[k] && kinds[k] == PickupKind::Ammo,
        ),
    decreases n,
{
    let pred = |k: int| touched[k] && kinds[k] == PickupKind::Ammo;
    count_indices_step(0, pred);
    if n > 0 {
        touched_ammo_pickups_are_counted(kinds, touched, (n - 1) as nat);
        count_indices_step((n - 1) as nat, pred);
    }
}

/// Which kill leaves what: every fourth kill leaves health, the other even kills ammunition, odd
/// kills nothing.
pub proof fn drops_by_kill_number(q: nat)
    ensures
        drop_for_kill(4 * q + 4) == Some(PickupKind::Health),
        drop_for_kill(4 * q + 2) == Some(PickupKind::Ammo),
        drop_for_kill(2 * q + 1) is None,
{
}

} // verus!
