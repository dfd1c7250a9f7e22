use vstd::prelude::*;
use crate::brick::{Brick, BrickKind, fresh_brick};

verus! {

/// Maximum number of levels before the player wins.
pub const MAX_LEVEL: u32 = 3;

/// Number of brick columns in every level.
pub const LEVEL_COLUMNS: usize = 10;

/// A level definition containing the initial bricks, row by row, each row
/// `LEVEL_COLUMNS` bricks long (row 0 is the top row).
pub struct Level {
    pub bricks: Vec<Brick>,
}

/// Number of brick rows in level `level`: 4, 5 and 6 for the first three
/// levels; beyond them (and for level 0) `level + 2`, capped at 10.
pub open spec fn level_rows(level: u32) -> nat {
    if level == 1 {
        4
    } else if level == 2 {
        5
    } else if level == 3 {
        6
    } else if level + 2 < 10 {
        (level + 2) as nat
    } else {
        10
    }
}

/// Kind of the brick at (`row`, `col`) in level `level`.
///
/// Level 1 is all normal; level 2 has an indestructible top row, two tough
/// rows and normal rows below; level 3 is a checkerboard of tough and normal;
/// later levels have an indestructible top row, tough rows 1 and 2, and
/// normal rows below.
pub open spec fn level_kind(level: u32, row: int, col: int) -> BrickKind {
    if level == 1 {
        BrickKind::Normal
    } else if level == 2 {
        if row == 0 {
            BrickKind::Indestructible
        } else if row == 1 || row == 2 {
            BrickKind::Tough
        } else {
            BrickKind::Normal
        }
    } else if level == 3 {
        if (row + col) % 2 == 0 {
            BrickKind::Tough
        } else {
            BrickKind::Normal
        }
    } else {
        if row == 0 {
            BrickKind::Indestructible
        } else if row < 3 {
            BrickKind::Tough
        } else {
            BrickKind::Normal
        }
    }
}

/// The brick in row `row`, column `col` of a row-major grid `cols` wide.
pub open spec fn grid_cell(bricks: Seq<Brick>, cols: int, row: int, col: int) -> Brick {
    bricks[row * cols + col]
}

/// The bricks form a `rows` × `cols` grid laid out row by row, the brick at
/// (`r`, `c`) being a fresh brick of kind `kind(r, c)`.
pub open spec fn is_level_grid(bricks: Seq<Brick>, rows: int, cols: int, kind: spec_fn(int, int) -> BrickKind) -> bool {
    &&& bricks.len() == rows * cols
    &&& forall|r: int, c: int|
        0 <= r < rows && 0 <= c < cols ==> #[trigger] grid_cell(bricks, cols, r, c) == fresh_brick(kind(r, c))
}

/// The layout of level `level`.
pub open spec fn level_layout_holds(level: u32, bricks: Seq<Brick>) -> bool {
    is_level_grid(bricks, level_rows(level) as int, LEVEL_COLUMNS as int, |r: int, c: int| level_kind(level, r, c))
}

proof fn lemma_grid_index(r: int, c: int, row: int, rows: int, cols: int)
    requires
        0 <= r < row <= rows,
        0 <= c < cols,
    ensures
        0 <= r * cols + c < row * cols,
        row * cols <= rows * cols,
        (r + 1) * cols == r * cols + cols,
{
    assert(0 <= r * cols) by (nonlinear_arith)
        requires
            0 <= r,
            0 <= cols,
    ;
    assert(r * cols + cols <= row * cols) by (nonlinear_arith)
        requires
            r + 1 <= row,
            0 <= cols,
    ;
    assert(row * cols <= rows * cols) by (nonlinear_arith)
        requires
            row <= rows,
            0 <= cols,
    ;
    assert((r + 1) * cols == r * cols + cols) by (nonlinear_arith);
}

/// Creates the brick layout for a given level number.
pub fn create_level(level_num: u32) -> (level: Level)
    requires
        level_num <= u32::MAX - 2,
    ensures
        level_layout_holds(level_num, level.bricks@),
{
    let cols = LEVEL_COLUMNS;
    let bricks = if level_num == 1 {
        build_level_1(cols)
    } else if level_num == 2 {
        build_level_2(cols)
    } else if level_num == 3 {
        build_level_3(cols)
    } else {
        build_level_endless(level_num, cols)
    };
    Level { bricks }
}

/// Level 1 — 4 rows of normal bricks.
fn build_level_1(cols: usize) -> (bricks: Vec<Brick>)
    requires
        cols == LEVEL_COLUMNS,
    ensures
        level_layout_holds(1, bricks@),
{
    let kind_fn = |row: usize, col: usize| -> (k: BrickKind)
        ensures
            k == level_kind(1, row as int, col as int),
        { BrickKind::Normal };
    grid(cols, 4, kind_fn, Ghost(|r: int, c: int| level_kind(1, r, c)))
}

/// Level 2 — top row indestructible, next 2 rows tough, bottom normal.
fn build_level_2(cols: usize) -> (bricks: Vec<Brick>)
    requires
        cols == LEVEL_COLUMNS,
    ensures
        level_layout_holds(2, bricks@),
{
    let kind_fn = |row: usize, col: usize| -> (k: BrickKind)
        ensures
            k == level_kind(2, row as int, col as int),
        {
            if row == 0 {
                BrickKind::Indestructible
            } else if row == 1 || row == 2 {
                BrickKind::Tough
            } else {
                BrickKind::Normal
            }
        };
    grid(cols, 5, kind_fn, Ghost(|r: int, c: int| level_kind(2, r, c)))
}

/// Level 3 — checkerboard of tough and normal bricks.
fn build_level_3(cols: usize) -> (bricks: Vec<Brick>)
    requires
        cols == LEVEL_COLUMNS,
    ensures
        level_layout_holds(3, bricks@),
{
    let kind_fn = |row: usize, col: usize| -> (k: BrickKind)
        requires
            row < 100,
            col < 100,
        ensures
            k == level_kind(3, row as int, col as int),
        {
            if (row + col) % 2 == 0 {
                BrickKind::Tough
            } else {
                BrickKind::Normal
            }
        };
    grid(cols, 6, kind_fn, Ghost(|r: int, c: int| level_kind(3, r, c)))
}

/// Endless mode — grows the grid with the level number, up to 10 rows.
fn build_level_endless(level: u32, cols: usize) -> (bricks: Vec<Brick>)
    requires
        cols == LEVEL_COLUMNS,
        level <= u32::MAX - 2,
        level != 1 && level != 2 && level != 3,
    ensures
        level_layout_holds(level, bricks@),
{
    let grown = level + 2;
    let rows: usize = if grown < 10 { grown as usize } else { 10 };
    let kind_fn = |row: usize, col: usize| -> (k: BrickKind)
        ensures
            k == level_kind(level, row as int, col as int),
        {
            if row == 0 {
                BrickKind::Indestructible
            } else if row < 3 {
                BrickKind::Tough
            } else {
                BrickKind::Normal
            }
        };
    grid(cols, rows, kind_fn, Ghost(|r: int, c: int| level_kind(level, r, c)))
}

/// A `rows` × `cols` grid of fresh bricks, row by row, of the kinds `kind_fn` gives.
fn grid<F: Fn(usize, usize) -> BrickKind>(
    cols: usize,
    rows: usize,
    kind_fn: F,
    Ghost(kind): Ghost<spec_fn(int, int) -> BrickKind>,
) -> (bricks: Vec<Brick>)
    requires
        cols <= 100,
        rows <= 100,
        forall|r: usize, c: usize| r < rows && c < cols ==> call_requires(kind_fn, (r, c)),
        forall|r: usize, c: usize, k: BrickKind|
            r < rows && c < cols && #[trigger] call_ensures(kind_fn, (r, c), k) ==> k == kind(r as int, c as int),
    ensures
        is_level_grid(bricks@, rows as int, cols as int, kind),
{
    let mut bricks: Vec<Brick> = Vec::new();
    let mut row: usize = 0;
    while row < rows
        invariant
            row <= rows <= 100,
            cols <= 100,
            forall|r: usize, c: usize| r < rows && c < cols ==> call_requires(kind_fn, (r, c)),
            forall|r: usize, c: usize, k: BrickKind|
                r < rows && c < cols && #[trigger] call_ensures(kind_fn, (r, c), k) ==> k == kind(r as int, c as int),
            bricks@.len() == row * cols,
            forall|r: int, c: int|
                0 <= r < row && 0 <= c < cols ==> #[trigger] grid_cell(bricks@, cols as int, r, c) == fresh_brick(kind(r, c)),
        decreases rows - row,
    {
        let mut col: usize = 0;
        while col < cols
            invariant
                row < rows <= 100,
                col <= cols <= 100,
                forall|r: usize, c: usize| r < rows && c < cols ==> call_requires(kind_fn, (r, c)),
                forall|r: usize, c: usize, k: BrickKind|
                    r < rows && c < cols && #[trigger] call_ensures(kind_fn, (r, c), k) ==> k == kind(r as int, c as int),
                bricks@.len() == row * cols + col,
                forall|r: int, c: int|
                    0 <= r < row && 0 <= c < cols ==> #[trigger] grid_cell(bricks@, cols as int, r, c) == fresh_brick(kind(r, c)),
                forall|c: int|
                    0 <= c < col ==> #[trigger] grid_cell(bricks@, cols as int, row as int, c) == fresh_brick(kind(row as int, c)),
            decreases cols - col,
        {
            let k = kind_fn(row, col);
            let ghost before = bricks@;
            proof {
                assert(row * cols + col < 100 * 100 + 100) by (nonlinear_arith)
                    requires
                        row < 100,
                        col < 100,
                        cols <= 100,
                ;
            }
            bricks.push(Brick::new(k));
            proof {
                assert forall|r: int, c: int|
                    0 <= r < row && 0 <= c < cols implies #[trigger] grid_cell(bricks@, cols as int, r, c) == fresh_brick(kind(r, c)) by {
                    lemma_grid_index(r, c, row as int, rows as int, cols as int);
                    assert(grid_cell(before, cols as int, r, c) == fresh_brick(kind(r, c)));
                }
                assert forall|c: int|
                    0 <= c < col + 1 implies #[trigger] grid_cell(bricks@, cols as int, row as int, c) == fresh_brick(kind(row as int, c)) by {
                    if c < col {
                        assert(grid_cell(before, cols as int, row as int, c) == fresh_brick(kind(row as int, c)));
                    }
                }
            }
            col = col + 1;
        }
        proof {
            assert((row + 1) * cols == row * cols + cols) by (nonlinear_arith);
        }
        row = row + 1;
    }
    bricks
}

/// Every level has between 2 and 10 rows: 4, 5 and 6 for the first three
/// levels, and beyond them the rows never shrink as the level number grows.
pub proof fn lemma_level_rows(a: u32, b: u32)
    ensures
        level_rows(1) == 4,
        level_rows(2) == 5,
        level_rows(3) == 6,
        2 <= level_rows(a) <= 10,
        3 <= a <= b ==> level_rows(a) <= level_rows(b),
{
}

/// In a level layout, the brick at index `i` is the fresh brick of the kind
/// that the level puts in row `i / LEVEL_COLUMNS`, column `i % LEVEL_COLUMNS`.
pub proof fn lemma_level_brick_at(level: u32, bricks: Seq<Brick>, i: int)
    requires
        level_layout_holds(level, bricks),
        0 <= i < bricks.len(),
    ensures
        bricks.len() == LEVEL_COLUMNS * level_rows(level),
        bricks[i] == fresh_brick(level_kind(level, i / LEVEL_COLUMNS as int, i % LEVEL_COLUMNS as int)),
{
    let cols = LEVEL_COLUMNS as int;
    let rows = level_rows(level) as int;
    let r = i / cols;
    let c = i % cols;
    assert(i == r * cols + c) by (nonlinear_arith)
        requires
            cols == 10,
            r == i / cols,
            c == i % cols,
    ;
    assert(0 <= r < rows && 0 <= c < cols) by (nonlinear_arith)
        requires
            cols == 10,
            r == i / cols,
            c == i % cols,
            0 <= i < rows * cols,
    ;
    assert(grid_cell(bricks, cols, r, c) == fresh_brick(level_kind(level, r, c)));
}

/// The kinds in each level: level 1 is all normal; level 2 and every level
/// past 3 (and level 0) have an indestructible top row, tough rows 1 and 2,
/// and normal rows below; level 3 alternates tough and normal like a
/// checkerboard, starting with tough in the top-left corner.
pub proof fn lemma_level_kinds(level: u32, row: int, col: int)
    requires
        0 <= row,
        0 <= col,
    ensures
        level == 1 ==> level_kind(level, row, col) == BrickKind::Normal,
        level != 1 && level != 3 && row == 0 ==> level_kind(level, row, col) == BrickKind::Indestructible,
        level != 1 && level != 3 && (row == 1 || row == 2) ==> level_kind(level, row, col)
            == BrickKind::Tough,
        level != 1 && level != 3 && row >= 3 ==> level_kind(level, row, col) == BrickKind::Normal,
        level == 3 && (row + col) % 2 == 0 ==> level_kind(level, row, col) == BrickKind::Tough,
        level == 3 && (row + col) % 2 == 1 ==> level_kind(level, row, col) == BrickKind::Normal,
{
}

/// Level 1 is made only of normal bricks.
pub proof fn lemma_level_1_all_normal(bricks: Seq<Brick>)
    requires
        level_layout_holds(1, bricks),
    ensures
        bricks.len() == 40,
        forall|i: int| 0 <= i < bricks.len() ==> #[trigger] bricks[i] == fresh_brick(BrickKind::Normal),
{
    assert forall|i: int| 0 <= i < bricks.len() implies #[trigger] bricks[i] == fresh_brick(BrickKind::Normal) by {
        lemma_level_brick_at(1, bricks, i);
    }
}

/// The first row of level 2 is indestructible; its size is 5 rows of 10.
pub proof fn lemma_level_2_top_row(bricks: Seq<Brick>)
    requires
        level_layout_holds(2, bricks),
    ensures
        bricks.len() == 50,
        forall|i: int| 0 <= i < LEVEL_COLUMNS ==> #[trigger] bricks[i] == fresh_brick(BrickKind::Indestructible),
{
    assert forall|i: int| 0 <= i < LEVEL_COLUMNS implies #[trigger] bricks[i] == fresh_brick(BrickKind::Indestructible) by {
        lemma_level_brick_at(2, bricks, i);
    }
}

} // verus!
