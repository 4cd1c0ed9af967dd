//! Bullets hitting enemies in a frame.
//!
//! Whether a bullet touches an enemy is circle geometry computed by the caller, given as a table
//! `hits[e][b]` (bullet `b` touches enemy `e`). Enemies are taken in order; each bullet deals its
//! damage to the first enemy it touches and is spent, so no bullet hurts two enemies.
use vstd::prelude::*;
use crate::shooter::score::Score;
use crate::collections::{count_indices, count_indices_step};

verus! {

/// Damage of one bullet.
pub const BULLET_DAMAGE: i32 = 1;

/// Points for a killed enemy.
pub const ENEMY_KILL_POINTS: u32 = 10;

/// `hits` is a table with one row per enemy and one column per bullet.
pub open spec fn is_table(hits: Seq<Seq<bool>>, bullets: nat) -> bool {
    forall|e: int| 0 <= e < hits.len() ==> #[trigger] hits[e].len() == bullets
}

/// The view of a table of booleans as rows of booleans.
pub open spec fn rows(hits: &Vec<Vec<bool>>) -> Seq<Seq<bool>> {
    hits@.map_values(|row: Vec<bool>| row@)
}

/// Whether bullet `b` touches one of the first `e` enemies, and so is spent before enemy `e`.
pub open spec fn spent_before(hits: Seq<Seq<bool>>, e: nat, b: int) -> bool
    decreases e,
{
    if e == 0 {
        false
    } else {
        spent_before(hits, (e - 1) as nat, b) || hits[e - 1][b]
    }
}

/// Number of bullets among the first `b` that touch enemy `e` and are not spent on an earlier one.
pub open spec fn damage_from(hits: Seq<Seq<bool>>, e: nat, b: nat) -> nat
    decreases b,
{
    if b == 0 {
        0
    } else {
        damage_from(hits, e, (b - 1) as nat) + if hits[e as int][b - 1] && !spent_before(
            hits,
            e,
            b - 1,
        ) {
            1nat
        } else {
            0nat
        }
    }
}

/// Health of enemy `e` after the frame.
pub open spec fn health_after(health: Seq<i32>, hits: Seq<Seq<bool>>, bullets: nat, e: int) -> int {
    health[e] - BULLET_DAMAGE * damage_from(hits, e as nat, bullets)
}

/// Number of enemies among the first `e` that are dead after the frame.
pub open spec fn kills(health: Seq<i32>, hits: Seq<Seq<bool>>, bullets: nat, e: nat) -> nat
    decreases e,
{
    if e == 0 {
        0
    } else {
        kills(health, hits, bullets, (e - 1) as nat) + if health_after(health, hits, bullets, e - 1)
            <= 0 {
            1nat
        } else {
            0nat
        }
    }
}

/// The outcome of a frame of hits.
pub struct Hits {
    /// `spent[b]`: bullet `b` hit an enemy and is removed.
    pub spent: Vec<bool>,
    /// `killed[e]`: enemy `e` has no health left and is removed.
    pub killed: Vec<bool>,
}

/// Whether every enemy's health stays within `i32` after the frame.
pub open spec fn health_fits(health: Seq<i32>, hits: Seq<Seq<bool>>, bullets: nat) -> bool {
    forall|e: int| 0 <= e < hits.len() ==> i32::MIN <= #[trigger] health_after(health, hits, bullets, e)
}

/// Resolves the hits of a frame: lowers the health of the enemies hit, marks the spent bullets and
/// the dead enemies, and credits `ENEMY_KILL_POINTS` per dead enemy. When some health would drop
/// below `i32::MIN` or the score would pass `u32::MAX`, nothing changes and the result is `None`.
pub fn resolve(hits: &Vec<Vec<bool>>, bullets: usize, health: &mut Vec<i32>, score: &mut Score) -> (outcome: Option<Hits>)
    requires
        is_table(rows(hits), bullets as nat),
        old(health)@.len() == hits@.len(),
    ensures
        outcome is None <==> !health_fits(old(health)@, rows(hits), bullets as nat) || old(score)@
            + ENEMY_KILL_POINTS * kills(old(health)@, rows(hits), bullets as nat, hits@.len())
            > u32::MAX,
        outcome is None ==> final(health)@ == old(health)@ && final(score)@ == old(score)@,
        outcome matches Some(outcome) ==> {
            &&& final(health)@.len() == old(health)@.len()
            &&& forall|e: int|
                0 <= e < hits@.len() ==> #[trigger] final(health)@[e] == health_after(
                    old(health)@,
                    rows(hits),
                    bullets as nat,
                    e,
                )
            &&& outcome.killed@.len() == hits@.len()
            &&& forall|e: int|
                0 <= e < hits@.len() ==> #[trigger] outcome.killed@[e] == (final(health)@[e] <= 0)
            &&& outcome.spent@.len() == bullets
            &&& forall|b: int|
                0 <= b < bullets ==> #[trigger] outcome.spent@[b] == spent_before(
                    rows(hits),
                    hits@.len(),
                    b,
                )
            &&& final(score)@ == old(score)@ + ENEMY_KILL_POINTS * kills(
                old(health)@,
                rows(hits),
                bullets as nat,
                hits@.len(),
            )
        },
{
    let ghost table = rows(hits);
    let ghost start = health@;
    let enemies = hits.len();
    assert(table.len() == enemies);
    let mut spent: Vec<bool> = Vec::new();
    let mut b: usize = 0;
    while b < bullets
        invariant
            b <= bullets,
            spent@.len() == b,
            forall|k: int| 0 <= k < b ==> !#[trigger] spent@[k],
        decreases bullets - b,
    {
        spent.push(false);
        b = b + 1;
    }
    // Damage taken by each enemy, counted before any health is touched.
    let mut damage: Vec<usize> = Vec::new();
    let mut e: usize = 0;
    while e < enemies
        invariant
            e <= enemies,
            enemies == hits@.len(),
            table == rows(hits),
            is_table(table, bullets as nat),
            spent@.len() == bullets,
            forall|k: int| 0 <= k < bullets ==> #[trigger] spent@[k] == spent_before(table, e as nat, k),
            damage@.len() == e,
            forall|k: int| 0 <= k < e ==> #[trigger] damage@[k] == damage_from(table, k as nat, bullets as nat),
        decreases enemies - e,
    {
        let row = &hits[e];
        assert(row@ == table[e as int]);
        let mut count: usize = 0;
        let mut b: usize = 0;
        while b < bullets
            invariant
                b <= bullets,
                e < enemies,
                row@ == table[e as int],
                row@.len() == bullets,
                spent@.len() == bullets,
                forall|k: int| 0 <= k < b ==> #[trigger] spent@[k] == spent_before(table, (e + 1) as nat, k),
                forall|k: int| b <= k < bullets ==> #[trigger] spent@[k] == spent_before(table, e as nat, k),
                count == damage_from(table, e as nat, b as nat),
                count <= b,
            decreases bullets - b,
        {
            if row[b] && !spent[b] {
                spent.set(b, true);
                count = count + 1;
            }
            b = b + 1;
        }
        damage.push(count);
        e = e + 1;
    }
    // Refuse the frame when some health would leave `i32`.
    let mut k: usize = 0;
    while k < enemies
        invariant
            k <= enemies,
            enemies == hits@.len(),
            table.len() == enemies,
            table == rows(hits),
            start == old(health)@,
            health@ == start,
            start.len() == enemies,
            damage@.len() == enemies,
            forall|j: int| 0 <= j < enemies ==> #[trigger] damage@[j] == damage_from(table, j as nat, bullets as nat),
            forall|j: int| 0 <= j < k ==> i32::MIN <= #[trigger] health_after(start, table, bullets as nat, j),
        decreases enemies - k,
    {
        assert(health_after(start, table, bullets as nat, k as int) == start[k as int] as int
            - damage@[k as int] as int);
        if (health[k] as i128) - (damage[k] as i128) < i32::MIN as i128 {
            assert(!health_fits(start, table, bullets as nat)) by {
                assert(health_after(start, table, bullets as nat, k as int) < i32::MIN);
            }
            return None;
        }
        k = k + 1;
    }
    // Count the dead.
    let mut dead: u64 = 0;
    let mut k: usize = 0;
    while k < enemies
        invariant
            k <= enemies,
            enemies == hits@.len(),
            table.len() == enemies,
            table == rows(hits),
            start == old(health)@,
            health@ == start,
            start.len() == enemies,
            damage@.len() == enemies,
            forall|j: int| 0 <= j < enemies ==> #[trigger] damage@[j] == damage_from(table, j as nat, bullets as nat),
            dead == kills(start, table, bullets as nat, k as nat),
            dead <= k,
        decreases enemies - k,
    {
        assert(health_after(start, table, bullets as nat, k as int) == start[k as int] as int
            - damage@[k as int] as int);
        if (health[k] as i128) - (damage[k] as i128) <= 0 {
            dead = dead + 1;
        }
        k = k + 1;
    }
    assert(health_fits(start, table, bullets as nat));
    if dead > ((u32::MAX - score.value()) / ENEMY_KILL_POINTS) as u64 {
        return None;
    }
    // Apply the damage and mark the dead.
    let mut killed: Vec<bool> = Vec::new();
    let mut k: usize = 0;
    while k < enemies
        invariant
            k <= enemies,
            enemies == hits@.len(),
            health@.len() == enemies,
            start.len() == enemies,
            damage@.len() == enemies,
            forall|j: int| 0 <= j < enemies ==> #[trigger] damage@[j] == damage_from(table, j as nat, bullets as nat),
            health_fits(start, table, bullets as nat),
            table.len() == enemies,
            forall|j: int| 0 <= j < k ==> #[trigger] health@[j] == health_after(start, table, bullets as nat, j),
            forall|j: int| k <= j < enemies ==> #[trigger] health@[j] == start[j],
            killed@.len() == k,
            forall|j: int| 0 <= j < k ==> #[trigger] killed@[j] == (health@[j] <= 0),
        decreases enemies - k,
    {
        assert(health_after(start, table, bullets as nat, k as int) == start[k as int] as int
            - damage@[k as int] as int);
        assert(i32::MIN <= health_after(start, table, bullets as nat, k as int));
        let lowered = (health[k] as i128 - damage[k] as i128) as i32;
        health.set(k, lowered);
        killed.push(lowered <= 0);
        k = k + 1;
    }
    score.add((dead as u32) * ENEMY_KILL_POINTS);
    Some(Hits { spent, killed })
}

proof fn damage_grows(hits: Seq<Seq<bool>>, e: nat, b: nat, n: nat)
    requires
        b <= n,
    ensures
        damage_from(hits, e, b) <= damage_from(hits, e, n),
    decreases n - b,
{
    if b < n {
        damage_grows(hits, e, b, (n - 1) as nat);
    }
}

proof fn kills_grow(health: Seq<i32>, hits: Seq<Seq<bool>>, bullets: nat, e: nat, n: nat)
    requires
        e <= n,
    ensures
        kills(health, hits, bullets, e) <= kills(health, hits, bullets, n),
    decreases n - e,
{
    if e < n {
        kills_grow(health, hits, bullets, e, (n - 1) as nat);
    }
}

/// A bullet that touched an earlier enemy is spent before reaching a later one: no bullet deals
/// damage to two enemies.
pub proof fn bullet_hurts_one_enemy(hits: Seq<Seq<bool>>, first: nat, later: nat, b: int)
    requires
        first < later,
        hits[first as int][b],
    ensures
        spent_before(hits, later, b),
    decreases later,
{
    if later - 1 > first {
        bullet_hurts_one_enemy(hits, first, (later - 1) as nat, b);
    }
}

/// A bullet is spent by the end of the frame exactly when it touched some enemy.
pub proof fn spent_iff_touched(hits: Seq<Seq<bool>>, e: nat, b: int)
    ensures
        spent_before(hits, e, b) <==> exists|k: int| 0 <= k < e && #[trigger] hits[k][b],
    decreases e,
{
    if e > 0 {
        spent_iff_touched(hits, (e - 1) as nat, b);
        if spent_before(hits, (e - 1) as nat, b) {
            let k = choose|k: int| 0 <= k < e - 1 && #[trigger] hits[k][b];
            assert(0 <= k < e && hits[k][b]);
        }
        if hits[e - 1][b] {
            assert(0 <= e - 1 < e && hits[e - 1][b]);
        }
    }
}

/// The damage enemy `e` takes from the first `n` bullets is one bullet's worth for each of them
/// that touches it and was not spent on an earlier enemy: every such bullet counts, none twice.
pub proof fn damage_counts_unspent_touching_bullets(hits: Seq<Seq<bool>>, e: nat, n: nat)
    ensures
        damage_from(hits, e, n) == count_indices(
            n,
            |b: int| hits[e as int][b] && !spent_before(hits, e, b),
        ),
    decreases n,
{
    let pred = |b: int| hits[e as int][b] && !spent_before(hits, e, b);
    count_indices_step(0, pred);
    if n > 0 {
        damage_counts_unspent_touching_bullets(hits, e, (n - 1) as nat);
        count_indices_step((n - 1) as nat, pred);
    }
}

/// Bullets that all touch the first enemy all hurt it: `n` of them take `n` bullets' damage off
/// its health.
pub proof fn touching_bullets_all_hurt_the_first_enemy(health: Seq<i32>, hits: Seq<Seq<bool>>, n: nat)
    requires
        forall|b: int| 0 <= b < n ==> #[trigger] hits[0][b],
    ensures
        damage_from(hits, 0, n) == n,
        health_after(health, hits, n, 0) == health[0] - n * BULLET_DAMAGE,
    decreases n,
{
    if n > 0 {
        touching_bullets_all_hurt_the_first_enemy(health, hits, (n - 1) as nat);
        assert(hits[0][n - 1]);
        assert(!spent_before(hits, 0, n - 1));
        assert(damage_from(hits, 0, (n - 1) as nat) == n - 1);
    }
}

/// The kills of a frame are the enemies whose health after the frame is gone, each counted once.
pub proof fn kills_count_the_dead(health: Seq<i32>, hits: Seq<Seq<bool>>, bullets: nat, e: nat)
    ensures
        kills(health, hits, bullets, e) == count_indices(
            e,
            |k: int| health_after(health, hits, bullets, k) <= 0,
        ),
    decreases e,
{
    let pred = |k: int| health_after(health, hits, bullets, k) <= 0;
    count_indices_step(0, pred);
    if e > 0 {
        kills_count_the_dead(health, hits, bullets, (e - 1) as nat);
        count_indices_step((e - 1) as nat, pred);
    }
}

} // verus!
