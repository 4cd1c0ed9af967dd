//! Which bullets destroy which asteroids in a frame.
//!
//! Whether a bullet touches an asteroid is circle geometry computed by the caller; these rules take
//! that verdict as a table `hits[b][a]` (bullet `b` touches asteroid `a`) and decide the rest:
//! bullets are taken in order, each destroys the first asteroid it touches that no earlier bullet
//! destroyed, and no bullet destroys more than one.
use vstd::prelude::*;
use crate::asteroids::asteroid::{AsteroidSize, points_of};
use crate::asteroids::score::Score;

verus! {

/// The first asteroid at index `from` or later that `row` touches and that is not yet `taken`.
pub open spec fn first_free_hit(row: Seq<bool>, taken: Seq<bool>, from: nat) -> Option<nat>
    decreases row.len() - from,
{
    if from >= row.len() {
        None
    } else if row[from as int] && !taken[from as int] {
        Some(from)
    } else {
        first_free_hit(row, taken, from + 1)
    }
}

/// The asteroid bullet `b` destroys, given the asteroids already `taken` by earlier bullets.
pub open spec fn target(hits: Seq<Seq<bool>>, taken: Seq<bool>, b: int) -> Option<nat> {
    first_free_hit(hits[b], taken, 0)
}

/// Which of `count` asteroids are destroyed once the first `b` bullets have been resolved.
pub open spec fn taken_after(hits: Seq<Seq<bool>>, count: nat, b: nat) -> Seq<bool>
    decreases b,
{
    if b == 0 {
        Seq::new(count, |a: int| false)
    } else {
        let before = taken_after(hits, count, (b - 1) as nat);
        match target(hits, before, b - 1) {
            Some(a) => before.update(a as int, true),
            None => before,
        }
    }
}

/// The asteroids destroyed by the first `b` bullets, in the order they were destroyed.
pub open spec fn destroyed_after(hits: Seq<Seq<bool>>, count: nat, b: nat) -> Seq<int>
    decreases b,
{
    if b == 0 {
        Seq::empty()
    } else {
        let before = destroyed_after(hits, count, (b - 1) as nat);
        match target(hits, taken_after(hits, count, (b - 1) as nat), b - 1) {
            Some(a) => before.push(a as int),
            None => before,
        }
    }
}

/// Points for destroying the asteroids `destroyed` (indices into `sizes`).
pub open spec fn points_total(sizes: Seq<AsteroidSize>, destroyed: Seq<int>) -> nat
    decreases destroyed.len(),
{
    if destroyed.len() == 0 {
        0
    } else {
        points_total(sizes, destroyed.drop_last()) + points_of(sizes[destroyed.last()])
    }
}

/// `hits` is a table with one row per bullet and one column per asteroid.
pub open spec fn is_table(hits: Seq<Seq<bool>>, count: nat) -> bool {
    forall|b: int| 0 <= b < hits.len() ==> #[trigger] hits[b].len() == count
}

/// The outcome of a frame of strikes.
pub struct Strikes {
    /// `bullet_hit[b]`: bullet `b` destroyed an asteroid and is spent.
    pub bullet_hit: Vec<bool>,
    /// `asteroid_hit[a]`: asteroid `a` was destroyed.
    pub asteroid_hit: Vec<bool>,
    /// The destroyed asteroids, in the order of the bullets that destroyed them.
    pub destroyed: Vec<usize>,
}

/// The view of a table of booleans as rows of booleans.
pub open spec fn rows(hits: &Vec<Vec<bool>>) -> Seq<Seq<bool>> {
    hits@.map_values(|row: Vec<bool>| row@)
}

/// Resolves the strikes of a frame and credits the points of the destroyed asteroids. When those
/// points would carry the score past `u32::MAX`, nothing is resolved or credited and the result
/// is `None`.
pub fn resolve(hits: &Vec<Vec<bool>>, sizes: &Vec<AsteroidSize>, score: &mut Score) -> (strikes:
    Option<Strikes>)
    requires
        is_table(rows(hits), sizes@.len()),
    ensures
        strikes is None <==> old(score)@ + points_total(
            sizes@,
            destroyed_after(rows(hits), sizes@.len(), hits@.len()),
        ) > u32::MAX,
        strikes is None ==> final(score)@ == old(score)@,
        strikes matches Some(strikes) ==> {
            &&& strikes.bullet_hit@.len() == hits@.len()
            &&& forall|b: int|
                0 <= b < hits@.len() ==> #[trigger] strikes.bullet_hit@[b] == target(
                    rows(hits),
                    taken_after(rows(hits), sizes@.len(), b as nat),
                    b,
                ) is Some
            &&& strikes.asteroid_hit@ == taken_after(rows(hits), sizes@.len(), hits@.len())
            &&& strikes.destroyed@.map_values(|a: usize| a as int) == destroyed_after(
                rows(hits),
                sizes@.len(),
                hits@.len(),
            )
            &&& final(score)@ == old(score)@ + points_total(
                sizes@,
                destroyed_after(rows(hits), sizes@.len(), hits@.len()),
            )
        },
{
    let ghost table = rows(hits);
    let count = sizes.len();
    let mut asteroid_hit: Vec<bool> = Vec::new();
    let mut i: usize = 0;
    while i < count
        invariant
            i <= count,
            asteroid_hit@ == Seq::new(i as nat, |a: int| false),
        decreases count - i,
    {
        asteroid_hit.push(false);
        i = i + 1;
        assert(asteroid_hit@ =~= Seq::new(i as nat, |a: int| false));
    }
    let mut bullet_hit: Vec<bool> = Vec::new();
    let mut destroyed: Vec<usize> = Vec::new();
    let mut total: u128 = 0;
    let bullets = hits.len();
    let mut b: usize = 0;
    while b < bullets
        invariant
            b <= bullets,
            bullets == hits@.len(),
            count == sizes@.len(),
            table == rows(hits),
            is_table(table, count as nat),
            asteroid_hit@ == taken_after(table, count as nat, b as nat),
            asteroid_hit@.len() == count,
            destroyed@.map_values(|a: usize| a as int) == destroyed_after(table, count as nat, b as nat),
            bullet_hit@.len() == b,
            forall|k: int|
                0 <= k < b ==> #[trigger] bullet_hit@[k] == target(
                    table,
                    taken_after(table, count as nat, k as nat),
                    k,
                ) is Some,
            total == points_total(sizes@, destroyed_after(table, count as nat, b as nat)),
            total <= 100 * destroyed@.len(),
            destroyed@.len() <= b,
        decreases bullets - b,
    {
        let row = &hits[b];
        assert(row@ == table[b as int]);
        assert(row@.len() == count);
        let ghost taken = asteroid_hit@;
        let mut a: usize = 0;
        let mut found = false;
        while a < count
            invariant_except_break
                a <= count,
                count == row@.len(),
                asteroid_hit@ == taken,
                taken.len() == count,
                first_free_hit(row@, taken, 0) == first_free_hit(row@, taken, a as nat),
                found ==> a < count && row@[a as int] && !taken[a as int],
            ensures
                found ==> a < count && row@[a as int] && !taken[a as int],
                !found ==> a == count,
                first_free_hit(row@, taken, 0) == first_free_hit(row@, taken, a as nat),
                asteroid_hit@ == taken,
            decreases count - a,
        {
            if row[a] && !asteroid_hit[a] {
                found = true;
                break;
            }
            a = a + 1;
        }
        assert(found ==> first_free_hit(row@, taken, a as nat) == Some(a as nat));
        assert(!found ==> a == count && first_free_hit(row@, taken, a as nat) is None);
        let ghost old_destroyed = destroyed@;
        if found {
            asteroid_hit.set(a, true);
            destroyed.push(a);
            let p = sizes[a].points();
            total = total + p as u128;
            bullet_hit.push(true);
            proof {
                let d = destroyed_after(table, count as nat, b as nat);
                assert(d.push(a as int).drop_last() =~= d);
                assert(destroyed@.map_values(|x: usize| x as int) =~= d.push(a as int));
            }
        } else {
            bullet_hit.push(false);
        }
        assert(taken_after(table, count as nat, (b + 1) as nat) =~= asteroid_hit@);
        b = b + 1;
    }
    if total > (u32::MAX - score.value()) as u128 {
        return None;
    }
    score.add(total as u32);
    Some(Strikes { bullet_hit, asteroid_hit, destroyed })
}

/// The asteroid a bullet destroys is one it touches and that was still whole; when it destroys
/// none, every asteroid it touches was already destroyed.
pub proof fn first_free_hit_is_first(row: Seq<bool>, taken: Seq<bool>, from: nat)
    requires
        taken.len() == row.len(),
    ensures
        first_free_hit(row, taken, from) matches Some(a) ==> from <= a < row.len() && row[a as int]
            && !taken[a as int],
        first_free_hit(row, taken, from) is None ==> forall|a: int|
            from <= a < row.len() ==> !(#[trigger] row[a] && !taken[a]),
    decreases row.len() - from,
{
    if from < row.len() {
        first_free_hit_is_first(row, taken, from + 1);
    }
}

/// What the first `b` bullets destroyed: each asteroid at most once, only asteroids that exist,
/// and an asteroid is marked destroyed exactly when it is in the list of destroyed ones.
pub proof fn destruction_is_recorded_once(hits: Seq<Seq<bool>>, count: nat, b: nat)
    requires
        is_table(hits, count),
        b <= hits.len(),
    ensures
        taken_after(hits, count, b).len() == count,
        destroyed_after(hits, count, b).no_duplicates(),
        destroyed_after(hits, count, b).len() <= b,
        forall|i: int|
            0 <= i < destroyed_after(hits, count, b).len() ==> 0 <= #[trigger] destroyed_after(
                hits,
                count,
                b,
            )[i] < count,
        forall|a: int|
            0 <= a < count ==> (#[trigger] taken_after(hits, count, b)[a] <==> destroyed_after(
                hits,
                count,
                b,
            ).contains(a)),
    decreases b,
{
    if b > 0 {
        let k = (b - 1) as nat;
        destruction_is_recorded_once(hits, count, k);
        let before = taken_after(hits, count, k);
        let d = destroyed_after(hits, count, k);
        assert(hits[k as int].len() == count);
        first_free_hit_is_first(hits[k as int], before, 0);
        match target(hits, before, k as int) {
            Some(a) => {
                assert(!d.contains(a as int));
                assert forall|x: int|
                    0 <= x < count implies (#[trigger] taken_after(hits, count, b)[x]
                    <==> destroyed_after(hits, count, b).contains(x)) by {
                    if x != a {
                        assert(d.push(a as int).contains(x) ==> d.contains(x)) by {
                            if d.push(a as int).contains(x) {
                                let i = choose|i: int|
                                    0 <= i < d.push(a as int).len() && d.push(a as int)[i] == x;
                                assert(i < d.len());
                            }
                        }
                        assert(d.contains(x) ==> d.push(a as int).contains(x)) by {
                            if d.contains(x) {
                                let i = choose|i: int| 0 <= i < d.len() && d[i] == x;
                                assert(d.push(a as int)[i] == x);
                            }
                        }
                    } else {
                        assert(d.push(a as int)[d.len() as int] == x);
                    }
                }
            },
            None => {},
        }
    }
}

/// Taking more bullets never undoes a destruction.
pub proof fn destruction_is_final(hits: Seq<Seq<bool>>, count: nat, earlier: nat, later: nat)
    requires
        is_table(hits, count),
        earlier <= later <= hits.len(),
    ensures
        forall|a: int|
            0 <= a < count && #[trigger] taken_after(hits, count, earlier)[a] ==> taken_after(
                hits,
                count,
                later,
            )[a],
    decreases later - earlier,
{
    if earlier < later {
        let k = (later - 1) as nat;
        destruction_is_final(hits, count, earlier, k);
        destruction_is_recorded_once(hits, count, k);
        destruction_is_recorded_once(hits, count, earlier);
        let before = taken_after(hits, count, k);
        assert(hits[k as int].len() == count);
        first_free_hit_is_first(hits[k as int], before, 0);
        assert forall|a: int|
            0 <= a < count && #[trigger] taken_after(hits, count, earlier)[a] implies taken_after(
                hits,
                count,
                later,
            )[a] by {
            assert(before[a]);
            match target(hits, before, k as int) {
                Some(t) => {
                    assert(taken_after(hits, count, later) == before.update(t as int, true));
                },
                None => {},
            }
        }
    }
}

/// After a frame no bullet that survives touches an asteroid that survives: a bullet is spared only
/// when everything it touches was destroyed by an earlier bullet.
pub proof fn no_contact_survives(hits: Seq<Seq<bool>>, count: nat, b: nat, a: int)
    requires
        is_table(hits, count),
        b < hits.len(),
        0 <= a < count,
        hits[b as int][a],
        !taken_after(hits, count, hits.len())[a],
    ensures
        target(hits, taken_after(hits, count, b), b as int) is Some,
{
    destruction_is_recorded_once(hits, count, b);
    first_free_hit_is_first(hits[b as int], taken_after(hits, count, b), 0);
    destruction_is_final(hits, count, b, hits.len());
}

/// The points for a list of destroyed asteroids add up the worth of each destroyed asteroid's own
/// size: nothing for none, and one more destroyed asteroid `a` adds exactly `points_of(sizes[a])`.
pub proof fn points_add_up_by_size(sizes: Seq<AsteroidSize>, destroyed: Seq<int>, a: int)
    ensures
        points_total(sizes, Seq::empty()) == 0,
        points_total(sizes, destroyed.push(a)) == points_total(sizes, destroyed) + points_of(
            sizes[a],
        ),
        points_total(sizes, seq![a]) == points_of(sizes[a]),
{
    assert(destroyed.push(a).drop_last() =~= destroyed);
    assert(seq![a].drop_last() =~= Seq::<int>::empty());
}

/// What one bullet adds: the asteroids destroyed afterwards are those destroyed before and its
/// target, and the list of destroyed asteroids grows by that target alone, last.
pub proof fn a_bullet_destroys_its_target(hits: Seq<Seq<bool>>, count: nat, b: nat)
    requires
        is_table(hits, count),
        b < hits.len(),
    ensures
        forall|x: int|
            0 <= x < count ==> (#[trigger] taken_after(hits, count, b + 1)[x] <==> (taken_after(
                hits,
                count,
                b,
            )[x] || target(hits, taken_after(hits, count, b), b as int) == Some(x as nat))),
        target(hits, taken_after(hits, count, b), b as int) matches Some(a) ==> destroyed_after(
            hits,
            count,
            b + 1,
        ) == destroyed_after(hits, count, b).push(a as int),
        target(hits, taken_after(hits, count, b), b as int) is None ==> destroyed_after(
            hits,
            count,
            b + 1,
        ) == destroyed_after(hits, count, b),
{
    destruction_is_recorded_once(hits, count, b);
    assert(hits[b as int].len() == count);
    first_free_hit_is_first(hits[b as int], taken_after(hits, count, b), 0);
}

/// The first bullet destroys the first asteroid it touches, and the frame credits that
/// asteroid's worth for it.
pub proof fn first_bullet_takes_the_first_asteroid_it_touches(
    hits: Seq<Seq<bool>>,
    sizes: Seq<AsteroidSize>,
    a: int,
)
    requires
        is_table(hits, sizes.len()),
        hits.len() >= 1,
        0 <= a < sizes.len(),
        hits[0][a],
        forall|j: int| 0 <= j < a ==> !#[trigger] hits[0][j],
    ensures
        destroyed_after(hits, sizes.len(), 1) == seq![a],
        taken_after(hits, sizes.len(), 1)[a],
        points_total(sizes, destroyed_after(hits, sizes.len(), 1)) == points_of(sizes[a]),
{
    let none = taken_after(hits, sizes.len(), 0);
    assert(hits[0].len() == sizes.len());
    first_free_hit_is_first(hits[0], none, 0);
    first_free_hit_is_earliest(hits[0], none, 0, a as nat);
    assert(target(hits, none, 0) == Some(a as nat));
    assert(destroyed_after(hits, sizes.len(), 0) == Seq::<int>::empty());
    assert(destroyed_after(hits, sizes.len(), 1) == Seq::<int>::empty().push(a));
    assert(Seq::<int>::empty().push(a) =~= seq![a]);
    points_add_up_by_size(sizes, Seq::empty(), a);
}

/// The asteroid a bullet destroys is the first whole one it touches: if asteroid `a` from `from`
/// on is touched and whole, the chosen one is found no later than `a`, and nothing before the
/// chosen one was both touched and whole.
pub proof fn first_free_hit_is_earliest(row: Seq<bool>, taken: Seq<bool>, from: nat, a: nat)
    requires
        taken.len() == row.len(),
        from <= a < row.len(),
        row[a as int],
        !taken[a as int],
    ensures
        first_free_hit(row, taken, from) matches Some(f) && f <= a && forall|j: int|
            from <= j < f ==> !(#[trigger] row[j] && !taken[j]),
    decreases a - from,
{
    if from < a && !(row[from as int] && !taken[from as int]) {
        first_free_hit_is_earliest(row, taken, from + 1, a);
    }
}

} // verus!
