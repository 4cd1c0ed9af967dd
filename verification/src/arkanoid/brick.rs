//! Bricks: their kinds, the standard grid, and which brick a ball strikes in a frame.
//!
//! Whether the ball overlaps a brick is rectangle geometry computed by the caller; what reaches
//! these rules is that verdict, one flag per brick.
use vstd::prelude::*;

verus! {

/// Points for a destroyed brick.
pub const POINTS: u32 = 100;

/// Rows of the standard grid.
pub const ROWS: u32 = 5;

/// Columns of the standard grid.
pub const COLUMNS: u32 = 10;

/// Kind of a brick as written in a level layout.
#[derive(Clone, Copy, Debug, PartialEq, Eq, Structural)]
pub enum BrickKind {
    Normal,
    Strong,
    Indestructible,
}

/// The score of an Arkanoid game.
pub struct Score {
    pub points: u32,
}

impl Default for Score {
    fn default() -> (score: Self)
        ensures
            score.points == 0,
    {
        Score { points: 0 }
    }
}

/// The `(row, column)` slot of the `index`-th brick of the standard grid: row by row, left to
/// right.
pub open spec fn slot_of(index: nat) -> (nat, nat) {
    (index / (COLUMNS as nat), index % (COLUMNS as nat))
}

/// The slots of the standard grid of `ROWS` rows and `COLUMNS` columns, row by row.
pub fn layout_slots() -> (slots: Vec<(u32, u32)>)
    ensures
        slots@.len() == ROWS * COLUMNS,
        forall|i: int|
            0 <= i < slots@.len() ==> (#[trigger] slots@[i]).0 == slot_of(i as nat).0
                && slots@[i].1 == slot_of(i as nat).1,
{
    let mut slots: Vec<(u32, u32)> = Vec::new();
    let mut row: u32 = 0;
    while row < ROWS
        invariant
            row <= ROWS,
            slots@.len() == row * COLUMNS,
            forall|i: int|
                0 <= i < slots@.len() ==> (#[trigger] slots@[i]).0 == slot_of(i as nat).0
                    && slots@[i].1 == slot_of(i as nat).1,
        decreases ROWS - row,
    {
        let mut column: u32 = 0;
        while column < COLUMNS
            invariant
                row < ROWS,
                column <= COLUMNS,
                slots@.len() == row * COLUMNS + column,
                forall|i: int|
                    0 <= i < slots@.len() ==> (#[trigger] slots@[i]).0 == slot_of(i as nat).0
                        && slots@[i].1 == slot_of(i as nat).1,
            decreases COLUMNS - column,
        {
            proof {
                let i = row * COLUMNS + column;
                assert(i / 10 == row && i % 10 == column) by (nonlinear_arith)
                    requires
                        i == row * 10 + column,
                        column < 10,
                ;
            }
            slots.push((row, column));
            column = column + 1;
        }
        row = row + 1;
    }
    slots
}

/// The first brick at index `from` or later that is still standing and that the ball overlaps.
pub open spec fn first_strike(destroyed: Seq<bool>, overlapping: Seq<bool>, from: nat) -> Option<
    nat,
>
    decreases destroyed.len() - from,
{
    if from >= destroyed.len() {
        None
    } else if !destroyed[from as int] && overlapping[from as int] {
        Some(from)
    } else {
        first_strike(destroyed, overlapping, from + 1)
    }
}

/// The strike of the ball on the bricks in one frame. The first standing brick the ball overlaps
/// is destroyed and pays `POINTS`; the ball bounces at most once per frame, so no other brick is
/// touched. Returns the struck brick, for the caller to turn the ball around.
pub fn strike(destroyed: &mut Vec<bool>, overlapping: &Vec<bool>, score: &mut Score) -> (struck:
    Option<usize>)
    requires
        old(destroyed)@.len() == overlapping@.len(),
        first_strike(old(destroyed)@, overlapping@, 0) is Some ==> old(score).points + POINTS
            <= u32::MAX,
    ensures
        struck matches Some(i) ==> first_strike(old(destroyed)@, overlapping@, 0) == Some(i as nat)
            && final(destroyed)@ == old(destroyed)@.update(i as int, true) && final(score).points
            == old(score).points + POINTS,
        struck is None ==> first_strike(old(destroyed)@, overlapping@, 0) is None
            && final(destroyed)@ == old(destroyed)@ && final(score).points == old(score).points,
{
    let n = destroyed.len();
    let mut i: usize = 0;
    while i < n
        invariant
            i <= n,
            n == destroyed@.len(),
            n == overlapping@.len(),
            destroyed@ == old(destroyed)@,
            score.points == old(score).points,
            first_strike(old(destroyed)@, overlapping@, 0) is Some ==> old(score).points + POINTS
                <= u32::MAX,
            first_strike(destroyed@, overlapping@, 0) == first_strike(destroyed@, overlapping@, i as nat),
        decreases n - i,
    {
        if !destroyed[i] && overlapping[i] {
            destroyed.set(i, true);
            score.points = score.points + POINTS;
            return Some(i);
        }
        i = i + 1;
    }
    None
}

/// The first brick struck is one that still stood and that the ball overlaps; when none is struck,
/// the ball overlaps no standing brick.
pub proof fn strike_takes_a_standing_brick(destroyed: Seq<bool>, overlapping: Seq<bool>, from: nat)
    requires
        destroyed.len() == overlapping.len(),
    ensures
        first_strike(destroyed, overlapping, from) matches Some(i) ==> from <= i < destroyed.len()
            && !destroyed[i as int] && overlapping[i as int],
        first_strike(destroyed, overlapping, from) is None ==> forall|i: int|
            from <= i < destroyed.len() ==> !(!destroyed[i] && #[trigger] overlapping[i]),
    decreases destroyed.len() - from,
{
    if from < destroyed.len() {
        strike_takes_a_standing_brick(destroyed, overlapping, from + 1);
    }
}

/// The struck brick is the first standing brick the ball overlaps: no standing brick before it
/// is overlapped.
pub proof fn strike_takes_the_first_overlapped_brick(
    destroyed: Seq<bool>,
    overlapping: Seq<bool>,
    from: nat,
)
    requires
        destroyed.len() == overlapping.len(),
    ensures
        first_strike(destroyed, overlapping, from) matches Some(i) ==> forall|j: int|
            from <= j < i ==> !(!destroyed[j] && #[trigger] overlapping[j]),
    decreases destroyed.len() - from,
{
    if from < destroyed.len() {
        strike_takes_the_first_overlapped_brick(destroyed, overlapping, from + 1);
    }
}

/// The grid is laid out row by row: brick `row * COLUMNS + column` stands in that row and column,
/// and every brick of the grid has a slot inside it.
pub proof fn slots_are_row_major(row: nat, column: nat, index: nat)
    requires
        row < ROWS,
        column < COLUMNS,
        index < ROWS * COLUMNS,
    ensures
        slot_of(row * COLUMNS as nat + column) == (row, column),
        slot_of(index).0 < ROWS && slot_of(index).1 < COLUMNS,
{
    assert((row * 10 + column) / 10 == row && (row * 10 + column) % 10 == column) by (nonlinear_arith)
        requires
            column < 10,
    ;
}

} // verus!
