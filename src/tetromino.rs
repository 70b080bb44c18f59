use crate::random::{pick_color, random_below, rng_from_entropy};
use rand::rngs::SmallRng;
use vstd::prelude::*;

verus! {

/// The colour of a grid cell; `Empty` marks an empty cell.
#[derive(Clone, Copy, Debug, PartialEq, Eq, Structural)]
pub enum Color {
    Empty,
    Red,
    Green,
    Blue,
    Magenta,
    Yellow,
    Cyan,
}

impl Color {
    /// The cell is empty.
    pub fn is_none(&self) -> (r: bool)
        ensures
            r <==> *self == Color::Empty,
    {
        matches!(self, Color::Empty)
    }

    /// The cell holds a colour.
    pub fn is_some(&self) -> (r: bool)
        ensures
            r <==> *self != Color::Empty,
    {
        !matches!(self, Color::Empty)
    }
}

/// A direction in which a piece can be moved.
#[derive(Clone, Copy, Debug, PartialEq, Eq, Structural)]
pub enum Direction {
    Left,
    Right,
    Down,
}

/// The number of distinct shapes.
pub const SHAPES: usize = 7;

/// The cells of a piece as `(row, column)` pairs.
pub type Cells = [(usize, usize); 4];

/// The cells of a piece as mathematical pairs.
pub open spec fn cells_view(c: Cells) -> Seq<(int, int)> {
    c@.map_values(|p: (usize, usize)| (p.0 as int, p.1 as int))
}

/// The cells of each shape at the origin; cell 1 is the pivot.
pub open spec fn shape_cells(index: int) -> Seq<(int, int)> {
    if index == 0 {
        seq![(0, 0), (1, 0), (2, 0), (3, 0)]
    } else if index == 1 {
        seq![(0, 0), (1, 0), (2, 0), (0, 1)]
    } else if index == 2 {
        seq![(0, 0), (1, 0), (2, 0), (1, 1)]
    } else if index == 3 {
        seq![(0, 0), (1, 0), (2, 0), (2, 1)]
    } else if index == 4 {
        seq![(0, 0), (1, 0), (2, 1), (1, 1)]
    } else if index == 5 {
        seq![(0, 1), (1, 0), (2, 0), (1, 1)]
    } else {
        seq![(0, 0), (1, 0), (0, 1), (1, 1)]
    }
}

/// A shape moved `offset` columns to the right.
pub open spec fn spawned(index: int, offset: int) -> Seq<(int, int)> {
    shape_cells(index).map_values(|p: (int, int)| (p.0, p.1 + offset))
}

/// Every cell moved one step in a direction.
pub open spec fn shifted(c: Seq<(int, int)>, dir: Direction) -> Seq<(int, int)> {
    c.map_values(
        |p: (int, int)|
            match dir {
                Direction::Left => (p.0, p.1 - 1),
                Direction::Right => (p.0, p.1 + 1),
                Direction::Down => (p.0 + 1, p.1),
            },
    )
}

/// A point turned by a quarter about a pivot.
pub open spec fn turn_point(p: (int, int), pivot: (int, int)) -> (int, int) {
    (pivot.0 + (p.1 - pivot.1), pivot.1 + (pivot.0 - p.0))
}

/// Every cell turned by a quarter about the pivot, cell 1.
pub open spec fn rotated(c: Seq<(int, int)>) -> Seq<(int, int)> {
    c.map_values(|p: (int, int)| turn_point(p, c[1]))
}

/// Both coordinates of a point can be held in a `usize`.
pub open spec fn in_usize(p: (int, int)) -> bool {
    0 <= p.0 <= usize::MAX && 0 <= p.1 <= usize::MAX
}

/// Every coordinate of the four cells can be held in a `usize`.
pub open spec fn representable(c: Seq<(int, int)>) -> bool {
    in_usize(c[0]) && in_usize(c[1]) && in_usize(c[2]) && in_usize(c[3])
}

/// Four quarter turns about the pivot bring every cell back to where it was.
pub proof fn lemma_four_turns(c: Seq<(int, int)>)
    requires
        c.len() == 4,
    ensures
        rotated(rotated(rotated(rotated(c)))) == c,
{
    let r1 = rotated(c);
    let r2 = rotated(r1);
    let r3 = rotated(r2);
    let r4 = rotated(r3);
    assert(r1[1] == c[1]);
    assert(r2[1] == c[1]);
    assert(r3[1] == c[1]);
    assert(r4 =~= c);
}

/// A piece: four cells and the colour it leaves on the grid.
#[derive(Clone, Copy, Debug)]
pub struct Tetromino {
    pub cells: Cells,
    pub color: Color,
}

fn shape(index: usize) -> (r: Cells)
    requires
        index < SHAPES,
    ensures
        cells_view(r) == shape_cells(index as int),
{
    let r: Cells = if index == 0 {
        [(0, 0), (1, 0), (2, 0), (3, 0)]
    } else if index == 1 {
        [(0, 0), (1, 0), (2, 0), (0, 1)]
    } else if index == 2 {
        [(0, 0), (1, 0), (2, 0), (1, 1)]
    } else if index == 3 {
        [(0, 0), (1, 0), (2, 0), (2, 1)]
    } else if index == 4 {
        [(0, 0), (1, 0), (2, 1), (1, 1)]
    } else if index == 5 {
        [(0, 1), (1, 0), (2, 0), (1, 1)]
    } else {
        [(0, 0), (1, 0), (0, 1), (1, 1)]
    };
    assert(cells_view(r) =~= shape_cells(index as int));
    r
}

/// `base + plus - minus`, when that is a `usize`.
fn offset(base: usize, plus: usize, minus: usize) -> (r: Option<usize>)
    ensures
        r is Some <==> 0 <= base + plus - minus <= usize::MAX,
        r matches Some(v) ==> v == base + plus - minus,
{
    if plus >= minus {
        base.checked_add(plus - minus)
    } else if base >= minus - plus {
        Some(base - (minus - plus))
    } else {
        None
    }
}

/// One cell moved one step; the caller keeps it in range.
fn step(p: (usize, usize), dir: Direction) -> (r: (usize, usize))
    requires
        dir == Direction::Left ==> p.1 > 0,
        dir == Direction::Right ==> p.1 < usize::MAX,
        dir == Direction::Down ==> p.0 < usize::MAX,
    ensures
        (r.0 as int, r.1 as int) == match dir {
            Direction::Left => (p.0 as int, p.1 - 1),
            Direction::Right => (p.0 as int, p.1 + 1),
            Direction::Down => (p.0 + 1, p.1 as int),
        },
{
    match dir {
        Direction::Left => (p.0, p.1 - 1),
        Direction::Right => (p.0, p.1 + 1),
        Direction::Down => (p.0 + 1, p.1),
    }
}

/// Every shape lies within four rows and two columns.
pub proof fn lemma_shape_bounds(index: int)
    ensures
        forall|k: int|
            0 <= k < 4 ==> 0 <= #[trigger] shape_cells(index)[k].0 <= 3 && 0
                <= shape_cells(index)[k].1 <= 1,
        shape_cells(index).len() == 4,
{
}

impl Tetromino {
    /// The shape `index` at the origin, in the given colour.
    pub fn new(index: usize, color: Color) -> (r: Self)
        requires
            index < SHAPES,
        ensures
            cells_view(r.cells) == shape_cells(index as int),
            r.color == color,
    {
        Tetromino { cells: shape(index), color }
    }

    /// The shape `index` in the given colour, moved `offset` columns to the
    /// right.
    pub fn spawn(index: usize, color: Color, offset: usize) -> (r: Self)
        requires
            index < SHAPES,
            offset < usize::MAX,
        ensures
            cells_view(r.cells) == spawned(index as int, offset as int),
            r.color == color,
    {
        let c = shape(index);
        proof {
            lemma_shape_bounds(index as int);
        }
        let cells: Cells = [
            (c[0].0, c[0].1 + offset),
            (c[1].0, c[1].1 + offset),
            (c[2].0, c[2].1 + offset),
            (c[3].0, c[3].1 + offset),
        ];
        assert(cells_view(cells) =~= spawned(index as int, offset as int));
        Tetromino { cells, color }
    }

    /// A piece of a random shape and colour, moved right by a random
    /// offset so that it lies within a grid of the given width.
    pub fn new_with_rng(width: usize, rng: &mut SmallRng) -> (r: Self)
        requires
            width >= 3,
        ensures
            exists|index: int, off: int|
                0 <= index < SHAPES && 0 <= off < width - 2 && cells_view(r.cells) == spawned(
                    index,
                    off,
                ),
            r.color != Color::Empty,
    {
        let t = random_below(rng, SHAPES);
        let palette: [Color; 6] = [
            Color::Red,
            Color::Green,
            Color::Blue,
            Color::Magenta,
            Color::Yellow,
            Color::Cyan,
        ];
        let picked = pick_color(rng, &palette);
        let color = match picked {
            Some(c) => c,
            None => Color::Red,
        };
        assert(color != Color::Empty) by {
            assert(palette@.contains(color));
            let k = choose|k: int| 0 <= k < palette@.len() && palette@[k] == color;
        }
        let center = random_below(rng, width - 2);
        Self::spawn(t, color, center)
    }

    /// A piece of a random shape and colour within a grid of the given
    /// width, drawn from a generator seeded by the operating system.
    pub fn new_random(width: usize) -> (r: Self)
        requires
            width >= 3,
        ensures
            exists|index: int, off: int|
                0 <= index < SHAPES && 0 <= off < width - 2 && cells_view(r.cells) == spawned(
                    index,
                    off,
                ),
            r.color != Color::Empty,
    {
        let mut rng = rng_from_entropy();
        Self::new_with_rng(width, &mut rng)
    }

    /// Moves every cell one step; the caller keeps the cells in range.
    pub fn shift(&mut self, dir: Direction)
        requires
            representable(shifted(cells_view(old(self).cells), dir)),
        ensures
            cells_view(final(self).cells) == shifted(cells_view(old(self).cells), dir),
            final(self).color == old(self).color,
    {
        let c = self.cells;
        self.cells = [step(c[0], dir), step(c[1], dir), step(c[2], dir), step(c[3], dir)];
        assert(cells_view(self.cells) =~= shifted(cells_view(c), dir));
    }

    /// Turns the piece by a quarter about its pivot, cell 1. Where a
    /// resulting coordinate would be negative the piece stays as it was
    /// and `None` comes back.
    pub fn rotate(&mut self) -> (r: Option<()>)
        ensures
            r is Some <==> representable(rotated(cells_view(old(self).cells))),
            r is Some ==> cells_view(final(self).cells) == rotated(cells_view(old(self).cells)),
            r is None ==> final(self).cells == old(self).cells,
            final(self).color == old(self).color,
    {
        let c = self.cells;
        let (center_y, center_x) = c[1];
        let ghost start = cells_view(c);
        let y0 = offset(center_y, c[0].1, center_x);
        let x0 = offset(center_x, center_y, c[0].0);
        let y2 = offset(center_y, c[2].1, center_x);
        let x2 = offset(center_x, center_y, c[2].0);
        let y3 = offset(center_y, c[3].1, center_x);
        let x3 = offset(center_x, center_y, c[3].0);
        assert(rotated(start)[1] == start[1]);
        match (y0, x0, y2, x2, y3, x3) {
            (Some(a0), Some(b0), Some(a2), Some(b2), Some(a3), Some(b3)) => {
                self.cells = [(a0, b0), c[1], (a2, b2), (a3, b3)];
                assert(cells_view(self.cells) =~= rotated(start));
                Some(())
            },
            _ => {
                assert(!representable(rotated(start))) by {
                    let t = rotated(start);
                    assert(t.len() == 4);
                    assert(t[0] == turn_point(start[0], start[1]));
                    assert(t[2] == turn_point(start[2], start[1]));
                    assert(t[3] == turn_point(start[3], start[1]));
                }
                None
            },
        }
    }
}

} // verus!
