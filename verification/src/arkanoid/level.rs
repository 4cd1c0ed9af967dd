//! Level layouts, written in the code as text: each line is a row of bricks, each symbol a brick —
//! `N` normal, `S` strong, `I` indestructible, `.` an empty place.
//!
//! Where a brick stands on screen depends on the size of the field and is computed by the caller
//! from the row and column given here.
use vstd::prelude::*;
use crate::arkanoid::brick::BrickKind;

verus! {

/// Number of the first level. Levels are numbered from one, as the player sees them.
pub const FIRST: usize = 1;

/// The rows of level `number` (1 to 3), top to bottom.
pub open spec fn layout_rows(number: nat) -> Seq<Seq<char>> {
    if number == 1 {
        seq!["NNNNNNNNNN"@, "NNNNNNNNNN"@, "NNNNNNNNNN"@]
    } else if number == 2 {
        seq!["SSSSSSSSSS"@, "NNNNNNNNNN"@, "I.NNNNNN.I"@, "NNNNNNNNNN"@]
    } else {
        seq!["ISSSSSSSSI"@, "SNNNNNNNNS"@, "NN.NNNN.NN"@, "I.NNNNNN.I"@, "NNNNNNNNNN"@]
    }
}

/// The kind of brick a layout symbol stands for; any other symbol is an empty place.
pub open spec fn kind_of_symbol(symbol: char) -> Option<BrickKind> {
    if symbol == 'N' {
        Some(BrickKind::Normal)
    } else if symbol == 'S' {
        Some(BrickKind::Strong)
    } else if symbol == 'I' {
        Some(BrickKind::Indestructible)
    } else {
        None
    }
}

/// A brick of a level: where it stands in the grid and what kind it is.
#[derive(Clone, Copy, Debug, PartialEq, Eq, Structural)]
pub struct Cell {
    pub row: usize,
    pub column: usize,
    pub kind: BrickKind,
}

/// The bricks of row number `row` whose symbols are `symbols`, left to right.
pub open spec fn row_cells(row: nat, symbols: Seq<char>) -> Seq<Cell>
    decreases symbols.len(),
{
    if symbols.len() == 0 {
        Seq::empty()
    } else {
        let before = row_cells(row, symbols.drop_last());
        match kind_of_symbol(symbols.last()) {
            Some(kind) => before.push(
                Cell { row: row as usize, column: (symbols.len() - 1) as usize, kind },
            ),
            None => before,
        }
    }
}

/// The bricks of a layout, row by row from the top, each row left to right.
pub open spec fn grid_cells(rows: Seq<Seq<char>>) -> Seq<Cell>
    decreases rows.len(),
{
    if rows.len() == 0 {
        Seq::empty()
    } else {
        grid_cells(rows.drop_last()) + row_cells((rows.len() - 1) as nat, rows.last())
    }
}

/// How many levels the game has. The last one ends in victory rather than in a next level.
pub fn count() -> (levels: usize)
    ensures
        levels == 3,
{
    3
}

/// The kind of brick a layout symbol stands for; an empty place makes no brick.
pub fn kind_of(symbol: char) -> (kind: Option<BrickKind>)
    ensures
        kind == kind_of_symbol(symbol),
{
    match symbol {
        'N' => Some(BrickKind::Normal),
        'S' => Some(BrickKind::Strong),
        'I' => Some(BrickKind::Indestructible),
        _ => None,
    }
}

fn rows_of(number: usize) -> (rows: Vec<&'static str>)
    requires
        FIRST <= number <= 3,
    ensures
        rows@.len() == layout_rows(number as nat).len(),
        forall|k: int| 0 <= k < rows@.len() ==> #[trigger] rows@[k]@ == layout_rows(number as nat)[k],
{
    let rows = if number == 1 {
        vec!["NNNNNNNNNN", "NNNNNNNNNN", "NNNNNNNNNN"]
    } else if number == 2 {
        vec!["SSSSSSSSSS", "NNNNNNNNNN", "I.NNNNNN.I", "NNNNNNNNNN"]
    } else {
        vec!["ISSSSSSSSI", "SNNNNNNNNS", "NN.NNNN.NN", "I.NNNNNN.I", "NNNNNNNNNN"]
    };
    assert(rows@.map_values(|r: &'static str| r@) =~= layout_rows(number as nat));
    assert forall|k: int| 0 <= k < rows@.len() implies #[trigger] rows@[k]@ == layout_rows(
        number as nat,
    )[k] by {
        assert(rows@.map_values(|r: &'static str| r@)[k] == rows@[k]@);
    }
    rows
}

/// Number of columns of level `number`: the length of its first row.
pub fn columns(number: usize) -> (columns: usize)
    requires
        FIRST <= number <= 3,
    ensures
        columns == layout_rows(number as nat)[0].len(),
{
    let rows = rows_of(number);
    rows[0].unicode_len()
}

/// The bricks of level `number` (1 to 3), row by row from the top, each row left to right.
pub fn cells(number: usize) -> (cells: Vec<Cell>)
    requires
        FIRST <= number <= 3,
    ensures
        cells@ == grid_cells(layout_rows(number as nat)),
{
    let rows = rows_of(number);
    let ghost layout = layout_rows(number as nat);
    let mut cells: Vec<Cell> = Vec::new();
    let mut r: usize = 0;
    assert(layout.take(0) =~= Seq::<Seq<char>>::empty());
    while r < rows.len()
        invariant
            r <= rows@.len(),
            rows@.len() == layout.len(),
            layout.len() <= 5,
            forall|k: int| 0 <= k < rows@.len() ==> #[trigger] rows@[k]@ == layout[k],
            cells@ == grid_cells(layout.take(r as int)),
        decreases rows@.len() - r,
    {
        let row = rows[r];
        let len = row.unicode_len();
        let mut c: usize = 0;
        assert(row@.take(0) =~= Seq::<char>::empty());
        assert(grid_cells(layout.take(r as int)) + row_cells(r as nat, row@.take(0)) =~= cells@);
        while c < len
            invariant
                c <= len,
                len == row@.len(),
                r < rows@.len(),
                cells@ == grid_cells(layout.take(r as int)) + row_cells(r as nat, row@.take(c as int)),
            decreases len - c,
        {
            let symbol = row.get_char(c);
            let ghost before = cells@;
            assert(row@.take(c + 1).drop_last() =~= row@.take(c as int));
            assert(row@.take(c + 1).last() == symbol);
            match kind_of(symbol) {
                Some(kind) => {
                    cells.push(Cell { row: r, column: c, kind });
                },
                None => {},
            }
            c = c + 1;
            assert(cells@ =~= grid_cells(layout.take(r as int)) + row_cells(r as nat, row@.take(c as int)));
        }
        assert(row@.take(len as int) =~= row@);
        assert(layout.take(r + 1).drop_last() =~= layout.take(r as int));
        assert(layout.take(r + 1).last() == row@);
        r = r + 1;
    }
    assert(layout.take(rows@.len() as int) =~= layout);
    cells
}

/// Every brick of a row stands on a brick symbol of that row, in the row's order; every brick
/// symbol of the row gives a brick.
pub proof fn row_cells_match_symbols(row: nat, symbols: Seq<char>)
    requires
        row <= usize::MAX,
        symbols.len() <= usize::MAX,
    ensures
        forall|i: int|
            0 <= i < row_cells(row, symbols).len() ==> {
                let cell = #[trigger] row_cells(row, symbols)[i];
                &&& cell.row == row
                &&& cell.column < symbols.len()
                &&& kind_of_symbol(symbols[cell.column as int]) == Some(cell.kind)
            },
        forall|i: int, j: int|
            0 <= i < j < row_cells(row, symbols).len() ==> #[trigger] row_cells(row, symbols)[i].column
                < #[trigger] row_cells(row, symbols)[j].column,
        forall|c: int|
            0 <= c < symbols.len() && #[trigger] kind_of_symbol(symbols[c]) is Some ==> exists|i: int|
                0 <= i < row_cells(row, symbols).len() && row_cells(row, symbols)[i].column == c,
    decreases symbols.len(),
{
    if symbols.len() > 0 {
        let shorter = symbols.drop_last();
        row_cells_match_symbols(row, shorter);
        let before = row_cells(row, shorter);
        assert forall|c: int|
            0 <= c < symbols.len() && #[trigger] kind_of_symbol(symbols[c]) is Some implies exists|
                i: int,
            |
                0 <= i < row_cells(row, symbols).len() && row_cells(row, symbols)[i].column == c by {
            if c < shorter.len() {
                assert(shorter[c] == symbols[c]);
                let i = choose|i: int| 0 <= i < before.len() && before[i].column == c;
                assert(row_cells(row, symbols)[i] == before[i]);
            } else {
                assert(row_cells(row, symbols)[before.len() as int].column == c);
            }
        }
        assert forall|i: int|
            0 <= i < row_cells(row, symbols).len() implies {
                let cell = #[trigger] row_cells(row, symbols)[i];
                &&& cell.row == row
                &&& cell.column < symbols.len()
                &&& kind_of_symbol(symbols[cell.column as int]) == Some(cell.kind)
            } by {
            if i < before.len() {
                assert(row_cells(row, symbols)[i] == before[i]);
                assert(symbols[before[i].column as int] == shorter[before[i].column as int]);
            }
        }
    }
}

/// Every brick of a level stands on a brick symbol of the layout, of the kind the symbol names,
/// and every brick symbol of the layout gives a brick in its row.
pub proof fn grid_cells_match_layout(rows: Seq<Seq<char>>)
    requires
        rows.len() <= usize::MAX,
        forall|r: int| 0 <= r < rows.len() ==> #[trigger] rows[r].len() <= usize::MAX,
    ensures
        forall|i: int|
            0 <= i < grid_cells(rows).len() ==> {
                let cell = #[trigger] grid_cells(rows)[i];
                &&& cell.row < rows.len()
                &&& cell.column < rows[cell.row as int].len()
                &&& kind_of_symbol(rows[cell.row as int][cell.column as int]) == Some(cell.kind)
            },
        forall|r: int, c: int|
            0 <= r < rows.len() && 0 <= c < rows[r].len() && #[trigger] kind_of_symbol(rows[r][c])
                is Some ==> exists|i: int|
                0 <= i < grid_cells(rows).len() && grid_cells(rows)[i].row == r && grid_cells(
                    rows,
                )[i].column == c,
    decreases rows.len(),
{
    if rows.len() > 0 {
        let upper = rows.drop_last();
        let last = (rows.len() - 1) as nat;
        grid_cells_match_layout(upper);
        row_cells_match_symbols(last, rows.last());
        let top = grid_cells(upper);
        let bottom = row_cells(last, rows.last());
        assert(grid_cells(rows) == top + bottom);
        assert forall|i: int|
            0 <= i < grid_cells(rows).len() implies {
                let cell = #[trigger] grid_cells(rows)[i];
                &&& cell.row < rows.len()
                &&& cell.column < rows[cell.row as int].len()
                &&& kind_of_symbol(rows[cell.row as int][cell.column as int]) == Some(cell.kind)
            } by {
            if i < top.len() {
                assert(grid_cells(rows)[i] == top[i]);
                assert(rows[top[i].row as int] == upper[top[i].row as int]);
            } else {
                assert(grid_cells(rows)[i] == bottom[i - top.len()]);
            }
        }
        assert forall|r: int, c: int|
            0 <= r < rows.len() && 0 <= c < rows[r].len() && #[trigger] kind_of_symbol(rows[r][c])
                is Some implies exists|i: int|
                0 <= i < grid_cells(rows).len() && grid_cells(rows)[i].row == r && grid_cells(
                    rows,
                )[i].column == c by {
            if r < upper.len() {
                assert(upper[r] == rows[r]);
                assert(kind_of_symbol(upper[r][c]) is Some);
                let i = choose|i: int|
                    0 <= i < top.len() && top[i].row == r && top[i].column == c;
                assert(grid_cells(rows)[i] == top[i]);
            } else {
                assert(kind_of_symbol(rows.last()[c]) is Some);
                let j = choose|j: int| 0 <= j < bottom.len() && bottom[j].column == c;
                assert(grid_cells(rows)[top.len() + j] == bottom[j]);
            }
        }
    }
}

} // verus!
