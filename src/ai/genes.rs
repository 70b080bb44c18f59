//! The features that the heuristic weighs. Each one measures the board as
//! it stands after one more tick, so that a piece that has just landed is
//! locked and its full rows are cleared first.
use crate::ai::Gene;
use crate::game::{filled, rows_of, StandardGame, HEIGHT, WIDTH};
use crate::tetromino::Color;
use vstd::prelude::*;

verus! {

/// The first occupied row of column `x` at or below row `from`, or the
/// number of rows when there is none.
pub open spec fn first_filled(rows: Seq<Seq<Color>>, x: int, from: int) -> int
    decreases rows.len() - from,
{
    if from < 0 || from >= rows.len() {
        rows.len() as int
    } else if filled(rows, from, x) {
        from
    } else {
        first_filled(rows, x, from + 1)
    }
}

/// The height of column `x`: how far its highest occupied cell stands
/// above the floor, or zero for an empty column.
pub open spec fn height(rows: Seq<Seq<Color>>, x: int) -> int {
    rows.len() - first_filled(rows, x, 0)
}

/// The empty cells of column `x` at or below row `from`.
pub open spec fn empties_from(rows: Seq<Seq<Color>>, x: int, from: int) -> int
    decreases rows.len() - from,
{
    if from < 0 || from >= rows.len() {
        0
    } else {
        empties_from(rows, x, from + 1) + if filled(rows, from, x) {
            0int
        } else {
            1int
        }
    }
}

/// The empty cells of column `x` that have an occupied cell above them.
pub open spec fn column_holes(rows: Seq<Seq<Color>>, x: int) -> int {
    empties_from(rows, x, first_filled(rows, x, 0) + 1)
}

/// The holes of the first `n` columns.
pub open spec fn holes(rows: Seq<Seq<Color>>, n: int) -> int
    decreases n,
{
    if n <= 0 {
        0
    } else {
        holes(rows, n - 1) + column_holes(rows, n - 1)
    }
}

/// The tallest of the first `n` columns.
pub open spec fn max_height(rows: Seq<Seq<Color>>, n: int) -> int
    decreases n,
{
    if n <= 0 {
        0
    } else if max_height(rows, n - 1) >= height(rows, n - 1) {
        max_height(rows, n - 1)
    } else {
        height(rows, n - 1)
    }
}

/// The sum of the heights of the first `n` columns.
pub open spec fn total_height(rows: Seq<Seq<Color>>, n: int) -> int
    decreases n,
{
    if n <= 0 {
        0
    } else {
        total_height(rows, n - 1) + height(rows, n - 1)
    }
}

/// The sum of the height differences of neighbouring columns among the
/// first `n`.
pub open spec fn bumpiness(rows: Seq<Seq<Color>>, n: int) -> int
    decreases n,
{
    if n <= 1 {
        0
    } else {
        let d = height(rows, n - 2) - height(rows, n - 1);
        bumpiness(rows, n - 1) + if d >= 0 {
            d
        } else {
            -d
        }
    }
}

proof fn lemma_empties_range(rows: Seq<Seq<Color>>, x: int, from: int)
    requires
        0 <= from,
    ensures
        0 <= empties_from(rows, x, from),
        from <= rows.len() ==> empties_from(rows, x, from) <= rows.len() - from,
    decreases rows.len() - from,
{
    if from < rows.len() {
        lemma_empties_range(rows, x, from + 1);
    }
}

/// The first occupied row of column `x`, or `HEIGHT`.
fn column_top(grid: &[[Color; WIDTH]; HEIGHT], x: usize) -> (r: usize)
    requires
        x < WIDTH,
    ensures
        r == first_filled(rows_of(*grid), x as int, 0),
        r <= HEIGHT,
{
    let ghost rows = rows_of(*grid);
    let mut y: usize = 0;
    while y < HEIGHT && grid[y][x].is_none()
        invariant
            y <= HEIGHT,
            x < WIDTH,
            rows == rows_of(*grid),
            first_filled(rows, x as int, 0) == first_filled(rows, x as int, y as int),
        decreases HEIGHT - y,
    {
        y += 1;
    }
    y
}

fn column_height(grid: &[[Color; WIDTH]; HEIGHT], x: usize) -> (r: u32)
    requires
        x < WIDTH,
    ensures
        r == height(rows_of(*grid), x as int),
        r <= HEIGHT,
{
    let top = column_top(grid, x);
    (HEIGHT - top) as u32
}

fn column_hole_count(grid: &[[Color; WIDTH]; HEIGHT], x: usize) -> (r: u32)
    requires
        x < WIDTH,
    ensures
        r == column_holes(rows_of(*grid), x as int),
        r <= HEIGHT,
{
    let ghost rows = rows_of(*grid);
    let top = column_top(grid, x);
    let mut count: u32 = 0;
    let mut y: usize = top + 1;
    proof {
        lemma_empties_range(rows, x as int, y as int);
    }
    while y < HEIGHT
        invariant
            top < y,
            top <= HEIGHT,
            x < WIDTH,
            rows == rows_of(*grid),
            top == first_filled(rows, x as int, 0),
            count + empties_from(rows, x as int, y as int) == empties_from(
                rows,
                x as int,
                top + 1,
            ),
            count <= y - top - 1,
        decreases HEIGHT - y,
    {
        if grid[y][x].is_none() {
            count = count + 1;
        }
        y += 1;
    }
    proof {
        lemma_empties_range(rows, x as int, top + 1);
    }
    count
}

/// The holes of a grid: empty cells below the highest occupied cell of
/// their column.
pub fn grid_holes(grid: &[[Color; WIDTH]; HEIGHT]) -> (r: u32)
    ensures
        r == holes(rows_of(*grid), WIDTH as int),
{
    let mut sum: u32 = 0;
    let mut x: usize = 0;
    while x < WIDTH
        invariant
            x <= WIDTH,
            sum == holes(rows_of(*grid), x as int),
            sum <= x * HEIGHT,
        decreases WIDTH - x,
    {
        let h = column_hole_count(grid, x);
        sum = sum + h;
        x += 1;
    }
    sum
}

/// The height of the tallest column of a grid.
pub fn grid_max_height(grid: &[[Color; WIDTH]; HEIGHT]) -> (r: u32)
    ensures
        r == max_height(rows_of(*grid), WIDTH as int),
{
    let mut best: u32 = 0;
    let mut x: usize = 0;
    while x < WIDTH
        invariant
            x <= WIDTH,
            best == max_height(rows_of(*grid), x as int),
        decreases WIDTH - x,
    {
        let h = column_height(grid, x);
        if h > best {
            best = h;
        }
        x += 1;
    }
    best
}

/// The sum of the column heights of a grid.
pub fn grid_total_height(grid: &[[Color; WIDTH]; HEIGHT]) -> (r: u32)
    ensures
        r == total_height(rows_of(*grid), WIDTH as int),
{
    let mut sum: u32 = 0;
    let mut x: usize = 0;
    while x < WIDTH
        invariant
            x <= WIDTH,
            sum == total_height(rows_of(*grid), x as int),
            sum <= x * HEIGHT,
        decreases WIDTH - x,
    {
        let h = column_height(grid, x);
        sum = sum + h;
        x += 1;
    }
    sum
}

/// The sum of the height differences of neighbouring columns of a grid.
pub fn grid_bumpiness(grid: &[[Color; WIDTH]; HEIGHT]) -> (r: u32)
    ensures
        r == bumpiness(rows_of(*grid), WIDTH as int),
{
    let mut sum: u32 = 0;
    let mut prev: u32 = column_height(grid, 0);
    let mut x: usize = 1;
    while x < WIDTH
        invariant
            1 <= x <= WIDTH,
            sum == bumpiness(rows_of(*grid), x as int),
            prev == height(rows_of(*grid), x - 1),
            prev <= HEIGHT,
            sum <= x * HEIGHT,
        decreases WIDTH - x,
    {
        let h = column_height(grid, x);
        let d = if prev >= h {
            prev - h
        } else {
            h - prev
        };
        sum = sum + d;
        prev = h;
        x += 1;
    }
    sum
}

/// Empty cells covered by an occupied cell in their column.
pub struct Holes;

/// The height of the tallest column.
pub struct MaxHeight;

/// How uneven the surface is.
pub struct Bumpiness;

/// The sum of the column heights.
pub struct TotalHeight;

/// The rows that the next tick clears.
pub struct LinesCleared;

impl Gene for Holes {
    fn evaluate(&self, state: &StandardGame) -> (r: u32)
        ensures
            r == holes(state.settled_rows(), WIDTH as int),
    {
        let mut state = state.clone();
        state.tick();
        grid_holes(&state.grid)
    }
}

impl Gene for MaxHeight {
    fn evaluate(&self, state: &StandardGame) -> (r: u32)
        ensures
            r == max_height(state.settled_rows(), WIDTH as int),
    {
        let mut state = state.clone();
        state.tick();
        grid_max_height(&state.grid)
    }
}

impl Gene for Bumpiness {
    fn evaluate(&self, state: &StandardGame) -> (r: u32)
        ensures
            r == bumpiness(state.settled_rows(), WIDTH as int),
    {
        let mut state = state.clone();
        state.tick();
        grid_bumpiness(&state.grid)
    }
}

impl Gene for TotalHeight {
    fn evaluate(&self, state: &StandardGame) -> (r: u32)
        ensures
            r == total_height(state.settled_rows(), WIDTH as int),
    {
        let mut state = state.clone();
        state.tick();
        grid_total_height(&state.grid)
    }
}

impl Gene for LinesCleared {
    fn evaluate(&self, state: &StandardGame) -> (r: u32)
        ensures
            r == state.settled_lines(),
    {
        let mut state = state.clone();
        let prev_score = state.score;
        state.tick();
        state.score - prev_score
    }
}

} // verus!
