//! The board: a grid of cells, a falling piece, and the moves that act on them.
use crate::random::{clone_rng, rng_from_entropy, rng_from_seed};
use crate::tetromino::{
    cells_view, lemma_four_turns, lemma_shape_bounds, rotated, shape_cells, shifted, spawned, Color, Direction,
    Tetromino, SHAPES,
};
use rand::rngs::SmallRng;
use vstd::prelude::*;

verus! {

pub const WIDTH: usize = 10;

pub const HEIGHT: usize = 20;

/// The board of the standard size.
pub type StandardGame = Game<WIDTH, HEIGHT>;

/// The cell at row `y`, column `x` exists and holds a colour.
pub open spec fn filled(rows: Seq<Seq<Color>>, y: int, x: int) -> bool {
    0 <= y < rows.len() && 0 <= x < rows[y].len() && rows[y][x] != Color::Empty
}

/// A row of `w` empty cells.
pub open spec fn empty_row(w: nat) -> Seq<Color> {
    Seq::new(w, |x: int| Color::Empty)
}

/// Every cell of the row holds a colour.
pub open spec fn full(row: Seq<Color>) -> bool {
    forall|x: int| 0 <= x < row.len() ==> row[x] != Color::Empty
}

/// One of the four cells is `(y, x)`.
pub open spec fn covers(c: Seq<(int, int)>, y: int, x: int) -> bool {
    c[0] == (y, x) || c[1] == (y, x) || c[2] == (y, x) || c[3] == (y, x)
}

/// The rows with the four cells set to `color`.
pub open spec fn painted(rows: Seq<Seq<Color>>, c: Seq<(int, int)>, color: Color) -> Seq<Seq<Color>> {
    Seq::new(
        rows.len(),
        |y: int| Seq::new(rows[y].len(), |x: int| if covers(c, y, x) { color } else { rows[y][x] }),
    )
}

/// The rows with every full row taken out and as many empty rows of
/// width `w` put on top.
pub open spec fn cleared(rows: Seq<Seq<Color>>, w: nat) -> Seq<Seq<Color>>
    decreases rows.len(),
{
    if rows.len() == 0 {
        rows
    } else {
        let rest = cleared(rows.drop_last(), w);
        if full(rows.last()) {
            seq![empty_row(w)] + rest
        } else {
            rest.push(rows.last())
        }
    }
}

/// How many of the rows are full.
pub open spec fn full_rows(rows: Seq<Seq<Color>>) -> nat
    decreases rows.len(),
{
    if rows.len() == 0 {
        0
    } else {
        full_rows(rows.drop_last()) + if full(rows.last()) {
            1nat
        } else {
            0nat
        }
    }
}

/// The grid as rows of colours.
pub open spec fn rows_of<const W: usize, const H: usize>(grid: [[Color; W]; H]) -> Seq<Seq<Color>> {
    grid@.map_values(|r: [Color; W]| r@)
}

/// The point lies on a board of `W` columns and `H` rows.
pub open spec fn inside<const W: usize, const H: usize>(p: (int, int)) -> bool {
    0 <= p.0 < H && 0 <= p.1 < W
}

/// The cell `p` cannot move in direction `dir`: the edge or an occupied
/// cell is next to it.
pub open spec fn cell_touches<const W: usize, const H: usize>(
    grid: [[Color; W]; H],
    p: (int, int),
    dir: Direction,
) -> bool {
    match dir {
        Direction::Left => p.1 == 0 || filled(rows_of(grid), p.0, p.1 - 1),
        Direction::Right => p.1 == W - 1 || filled(rows_of(grid), p.0, p.1 + 1),
        Direction::Down => p.0 == H - 1 || filled(rows_of(grid), p.0 + 1, p.1),
    }
}

/// The cells `c` cannot move in direction `dir`.
pub open spec fn touches<const W: usize, const H: usize>(
    grid: [[Color; W]; H],
    c: Seq<(int, int)>,
    dir: Direction,
) -> bool {
    cell_touches(grid, c[0], dir) || cell_touches(grid, c[1], dir) || cell_touches(grid, c[2], dir)
        || cell_touches(grid, c[3], dir)
}

/// The cells after one attempted move.
pub open spec fn after_shift<const W: usize, const H: usize>(
    grid: [[Color; W]; H],
    c: Seq<(int, int)>,
    dir: Direction,
) -> Seq<(int, int)> {
    if touches(grid, c, dir) {
        c
    } else {
        shifted(c, dir)
    }
}

/// The cells after `n` attempted moves.
pub open spec fn shift_n<const W: usize, const H: usize>(
    grid: [[Color; W]; H],
    c: Seq<(int, int)>,
    dir: Direction,
    n: nat,
) -> Seq<(int, int)>
    decreases n,
{
    if n == 0 {
        c
    } else {
        after_shift(grid, shift_n(grid, c, dir, (n - 1) as nat), dir)
    }
}

/// The cell `p` lies on the board and is free.
pub open spec fn cell_fits<const W: usize, const H: usize>(grid: [[Color; W]; H], p: (int, int)) -> bool {
    inside::<W, H>(p) && !filled(rows_of(grid), p.0, p.1)
}

/// All four cells lie on the board and are free.
pub open spec fn fits<const W: usize, const H: usize>(grid: [[Color; W]; H], c: Seq<(int, int)>) -> bool {
    cell_fits(grid, c[0]) && cell_fits(grid, c[1]) && cell_fits(grid, c[2]) && cell_fits(grid, c[3])
}

/// The cells after one attempted rotation.
pub open spec fn after_rotate<const W: usize, const H: usize>(
    grid: [[Color; W]; H],
    c: Seq<(int, int)>,
) -> Seq<(int, int)> {
    if fits(grid, rotated(c)) {
        rotated(c)
    } else {
        c
    }
}

/// The cells after `n` attempted rotations.
pub open spec fn rotate_n<const W: usize, const H: usize>(
    grid: [[Color; W]; H],
    c: Seq<(int, int)>,
    n: nat,
) -> Seq<(int, int)>
    decreases n,
{
    if n == 0 {
        c
    } else {
        after_rotate(grid, rotate_n(grid, c, (n - 1) as nat))
    }
}

/// The cells moved down until they touch.
pub open spec fn dropped<const W: usize, const H: usize>(
    grid: [[Color; W]; H],
    c: Seq<(int, int)>,
) -> Seq<(int, int)>
    decreases H - c[0].0,
{
    if touches(grid, c, Direction::Down) || c.len() != 4 || c[0].0 >= H {
        c
    } else {
        dropped(grid, shifted(c, Direction::Down))
    }
}

/// The resting place of the cells after pushing them fully left, then
/// `shifts` moves right and `rotations` rotations, then a hard drop.
pub open spec fn placement<const W: usize, const H: usize>(
    grid: [[Color; W]; H],
    c: Seq<(int, int)>,
    shifts: nat,
    rotations: nat,
) -> Seq<(int, int)> {
    dropped(
        grid,
        rotate_n(
            grid,
            shift_n(grid, shift_n(grid, c, Direction::Left, W as nat), Direction::Right, shifts),
            rotations,
        ),
    )
}

/// The rows that are not full, in their order.
pub open spec fn remaining(rows: Seq<Seq<Color>>) -> Seq<Seq<Color>> {
    rows.filter(|r: Seq<Color>| !full(r))
}

/// `n` empty rows of width `w`.
pub open spec fn empty_rows(n: nat, w: nat) -> Seq<Seq<Color>> {
    Seq::new(n, |i: int| empty_row(w))
}

/// One of the four cells is occupied on the grid.
pub open spec fn overlaps(rows: Seq<Seq<Color>>, c: Seq<(int, int)>) -> bool {
    filled(rows, c[0].0, c[0].1) || filled(rows, c[1].0, c[1].1) || filled(rows, c[2].0, c[2].1)
        || filled(rows, c[3].0, c[3].1)
}

/// A board of `W` columns and `H` rows. Row 0 is the top.
pub struct Game<const W: usize, const H: usize> {
    pub grid: [[Color; W]; H],
    /// The number of rows cleared so far.
    pub score: u32,
    /// The falling piece; it is not part of `grid` until it locks.
    pub tetromino: Tetromino,
    /// Set once a new piece spawns onto occupied cells.
    pub over: bool,
    /// The generator that the next pieces are drawn from.
    pub rng: SmallRng,
}

impl<const W: usize, const H: usize> Clone for Game<W, H> {
    /// A copy of the board; the copy draws its pieces from a copy of the
    /// generator.
    fn clone(&self) -> (r: Self)
        ensures
            r.grid == self.grid,
            r.score == self.score,
            r.tetromino == self.tetromino,
            r.over == self.over,
    {
        Game {
            grid: self.grid,
            score: self.score,
            tetromino: self.tetromino,
            over: self.over,
            rng: clone_rng(&self.rng),
        }
    }
}

impl<const W: usize, const H: usize> Game<W, H> {
    /// The grid as rows of colours.
    pub open spec fn rows(&self) -> Seq<Seq<Color>> {
        rows_of(self.grid)
    }

    /// The cells of the falling piece.
    pub open spec fn cells(&self) -> Seq<(int, int)> {
        cells_view(self.tetromino.cells)
    }

    /// The board is large enough for every shape, and the falling piece
    /// lies on it with a colour.
    pub open spec fn wf(&self) -> bool {
        &&& 3 <= W
        &&& 4 <= H
        &&& inside::<W, H>(self.cells()[0])
        &&& inside::<W, H>(self.cells()[1])
        &&& inside::<W, H>(self.cells()[2])
        &&& inside::<W, H>(self.cells()[3])
        &&& self.tetromino.color != Color::Empty
    }

    /// Everything but the cells of the falling piece agrees.
    pub open spec fn same_but_piece(&self, other: &Self) -> bool {
        &&& self.grid == other.grid
        &&& self.score == other.score
        &&& self.over == other.over
        &&& self.tetromino.color == other.tetromino.color
    }

    /// The falling piece has come to rest.
    pub open spec fn landed(&self) -> bool {
        touches(self.grid, self.cells(), Direction::Down)
    }

    /// The grid with the falling piece locked into it.
    pub open spec fn locked_rows(&self) -> Seq<Seq<Color>> {
        painted(self.rows(), self.cells(), self.tetromino.color)
    }

    /// The grid after one tick.
    pub open spec fn settled_rows(&self) -> Seq<Seq<Color>> {
        if self.landed() {
            cleared(self.locked_rows(), W as nat)
        } else {
            self.rows()
        }
    }

    /// The rows that one tick clears.
    pub open spec fn settled_lines(&self) -> nat {
        if self.landed() {
            full_rows(self.locked_rows())
        } else {
            0
        }
    }

    /// A freshly spawned piece: a shape moved right within the board, with
    /// a colour.
    pub open spec fn is_spawn(t: Tetromino) -> bool {
        &&& exists|index: int, off: int|
            0 <= index < SHAPES && 0 <= off < W - 2 && cells_view(t.cells) == spawned(index, off)
        &&& t.color != Color::Empty
    }
}


/// A spawned piece lies on any board of at least three columns and four rows.
proof fn lemma_spawn_inside<const W: usize, const H: usize>(t: Tetromino)
    requires
        Game::<W, H>::is_spawn(t),
        3 <= W,
        4 <= H,
    ensures
        inside::<W, H>(cells_view(t.cells)[0]),
        inside::<W, H>(cells_view(t.cells)[1]),
        inside::<W, H>(cells_view(t.cells)[2]),
        inside::<W, H>(cells_view(t.cells)[3]),
{
    let (index, off) = choose|index: int, off: int|
        0 <= index < SHAPES && 0 <= off < W - 2 && cells_view(t.cells) == spawned(index, off);
    lemma_shape_bounds(index);
    assert(spawned(index, off)[0] == (shape_cells(index)[0].0, shape_cells(index)[0].1 + off));
    assert(spawned(index, off)[1] == (shape_cells(index)[1].0, shape_cells(index)[1].1 + off));
    assert(spawned(index, off)[2] == (shape_cells(index)[2].0, shape_cells(index)[2].1 + off));
    assert(spawned(index, off)[3] == (shape_cells(index)[3].0, shape_cells(index)[3].1 + off));
}

impl<const W: usize, const H: usize> Game<W, H> {
    /// An empty board with a first piece drawn from `rng`.
    fn with_rng(rng: SmallRng) -> (r: Self)
        requires
            3 <= W,
            4 <= H,
        ensures
            r.wf(),
            r.rows() == Seq::new(H as nat, |y: int| empty_row(W as nat)),
            r.score == 0,
            !r.over,
            Self::is_spawn(r.tetromino),
    {
        let mut rng = rng;
        let tetromino = Tetromino::new_with_rng(W, &mut rng);
        let grid = [[Color::Empty; W]; H];
        let r = Game { grid, score: 0, tetromino, over: false, rng };
        proof {
            lemma_spawn_inside::<W, H>(tetromino);
            assert forall|y: int| 0 <= y < H implies r.rows()[y] =~= empty_row(W as nat) by {}
            assert(r.rows() =~= Seq::new(H as nat, |y: int| empty_row(W as nat)));
        }
        r
    }

    /// An empty board whose pieces come from a generator seeded by the
    /// operating system.
    pub fn new() -> (r: Self)
        requires
            3 <= W,
            4 <= H,
        ensures
            r.wf(),
            r.rows() == Seq::new(H as nat, |y: int| empty_row(W as nat)),
            r.score == 0,
            !r.over,
            Self::is_spawn(r.tetromino),
    {
        Self::with_rng(rng_from_entropy())
    }

    /// An empty board whose pieces come from a generator with the given
    /// seed, so that the same seed gives the same pieces.
    pub fn new_with_seed(seed: u64) -> (r: Self)
        requires
            3 <= W,
            4 <= H,
        ensures
            r.wf(),
            r.rows() == Seq::new(H as nat, |y: int| empty_row(W as nat)),
            r.score == 0,
            !r.over,
            Self::is_spawn(r.tetromino),
    {
        Self::with_rng(rng_from_seed(seed))
    }

    /// Whether the board is well formed; see `wf`.
    pub fn well_formed(&self) -> (r: bool)
        ensures
            r == self.wf(),
    {
        let c = self.tetromino.cells;
        3 <= W && 4 <= H && c[0].0 < H && c[0].1 < W && c[1].0 < H && c[1].1 < W && c[2].0 < H
            && c[2].1 < W && c[3].0 < H && c[3].1 < W && self.tetromino.color.is_some()
    }

    /// Sets one cell of the grid.
    fn paint(&mut self, p: (usize, usize), color: Color)
        requires
            p.0 < H,
            p.1 < W,
        ensures
            final(self).rows() == old(self).rows().update(
                p.0 as int,
                old(self).rows()[p.0 as int].update(p.1 as int, color),
            ),
            final(self).score == old(self).score,
            final(self).tetromino == old(self).tetromino,
            final(self).over == old(self).over,
            final(self).rng == old(self).rng,
    {
        let mut row = self.grid[p.0];
        row[p.1] = color;
        self.grid[p.0] = row;
        assert(self.rows() =~= old(self).rows().update(
            p.0 as int,
            old(self).rows()[p.0 as int].update(p.1 as int, color),
        ));
    }

    /// Writes the falling piece's colour into its cells, or empties them.
    pub fn draw_piece(&mut self, draw: bool)
        requires
            old(self).wf(),
        ensures
            final(self).rows() == painted(
                old(self).rows(),
                old(self).cells(),
                if draw {
                    old(self).tetromino.color
                } else {
                    Color::Empty
                },
            ),
            final(self).score == old(self).score,
            final(self).tetromino == old(self).tetromino,
            final(self).over == old(self).over,
            final(self).rng == old(self).rng,
    {
        let color = if draw {
            self.tetromino.color
        } else {
            Color::Empty
        };
        let c = self.tetromino.cells;
        let ghost start = self.rows();
        let ghost cv = self.cells();
        self.paint(c[0], color);
        self.paint(c[1], color);
        self.paint(c[2], color);
        self.paint(c[3], color);
        assert forall|y: int| 0 <= y < H implies #[trigger] self.rows()[y] =~= painted(
            start,
            cv,
            color,
        )[y] by {}
        assert(self.rows() =~= painted(start, cv, color));
    }

    fn cell_touches_exec(&self, p: (usize, usize)) -> (r: (bool, bool, bool))
        requires
            inside::<W, H>((p.0 as int, p.1 as int)),
        ensures
            r.0 == cell_touches(self.grid, (p.0 as int, p.1 as int), Direction::Left),
            r.1 == cell_touches(self.grid, (p.0 as int, p.1 as int), Direction::Right),
            r.2 == cell_touches(self.grid, (p.0 as int, p.1 as int), Direction::Down),
    {
        let (y, x) = p;
        let left = x == 0 || self.grid[y][x - 1].is_some();
        let right = x == W - 1 || self.grid[y][x + 1].is_some();
        let down = y == H - 1 || self.grid[y + 1][x].is_some();
        (left, right, down)
    }

    /// Whether the falling piece is blocked to the left, to the right and
    /// below.
    fn piece_touches(&self) -> (r: (bool, bool, bool))
        requires
            self.wf(),
        ensures
            r.0 == touches(self.grid, self.cells(), Direction::Left),
            r.1 == touches(self.grid, self.cells(), Direction::Right),
            r.2 == touches(self.grid, self.cells(), Direction::Down),
    {
        let c = self.tetromino.cells;
        let a = self.cell_touches_exec(c[0]);
        let b = self.cell_touches_exec(c[1]);
        let d = self.cell_touches_exec(c[2]);
        let e = self.cell_touches_exec(c[3]);
        (a.0 || b.0 || d.0 || e.0, a.1 || b.1 || d.1 || e.1, a.2 || b.2 || d.2 || e.2)
    }

    /// Moves the falling piece one step, unless an edge or an occupied cell
    /// blocks it; a blocked move changes nothing.
    pub fn shift(&mut self, dir: Direction)
        requires
            old(self).wf(),
        ensures
            final(self).wf(),
            final(self).same_but_piece(old(self)),
            final(self).rng == old(self).rng,
            final(self).cells() == after_shift(old(self).grid, old(self).cells(), dir),
            touches(old(self).grid, old(self).cells(), dir) ==> *final(self) == *old(self),
    {
        let (left, right, down) = self.piece_touches();
        let touch = match dir {
            Direction::Left => left,
            Direction::Right => right,
            Direction::Down => down,
        };
        if !touch {
            self.tetromino.shift(dir);
        }
    }

    fn cell_free(&self, p: (usize, usize)) -> (r: bool)
        ensures
            r == cell_fits(self.grid, (p.0 as int, p.1 as int)),
    {
        p.0 < H && p.1 < W && self.grid[p.0][p.1].is_none()
    }

    /// Turns the falling piece by a quarter about its pivot. The turn is
    /// refused, and nothing changes, when a turned cell would have a
    /// negative coordinate, leave the board, or land on an occupied cell.
    /// Returns whether the turn was made.
    pub fn rotate(&mut self) -> (r: bool)
        requires
            old(self).wf(),
        ensures
            final(self).wf(),
            final(self).same_but_piece(old(self)),
            final(self).rng == old(self).rng,
            r == fits(old(self).grid, rotated(old(self).cells())),
            !r ==> *final(self) == *old(self),
            final(self).cells() == after_rotate(old(self).grid, old(self).cells()),
    {
        let backup = self.tetromino.cells;
        if self.tetromino.rotate().is_some() {
            let c = self.tetromino.cells;
            if self.cell_free(c[0]) && self.cell_free(c[1]) && self.cell_free(c[2])
                && self.cell_free(c[3]) {
                return true;
            }
        }
        self.tetromino.cells = backup;
        false
    }

    /// The interactive name of `rotate`.
    pub fn turn(&mut self)
        requires
            old(self).wf(),
        ensures
            final(self).wf(),
            final(self).same_but_piece(old(self)),
            final(self).rng == old(self).rng,
            final(self).cells() == after_rotate(old(self).grid, old(self).cells()),
    {
        self.rotate();
    }

    /// Moves the falling piece down until it is blocked.
    pub fn hard_drop(&mut self)
        requires
            old(self).wf(),
        ensures
            final(self).wf(),
            final(self).same_but_piece(old(self)),
            final(self).rng == old(self).rng,
            final(self).cells() == dropped(old(self).grid, old(self).cells()),
            final(self).landed(),
    {
        while !self.piece_touches().2
            invariant
                self.wf(),
                self.same_but_piece(old(self)),
                self.rng == old(self).rng,
                dropped(self.grid, self.cells()) == dropped(old(self).grid, old(self).cells()),
            decreases H - self.cells()[0].0,
        {
            self.shift(Direction::Down);
        }
    }
}

/// A row of empty cells.
fn blank_row<const W: usize>() -> (r: [Color; W])
    ensures
        r@ == empty_row(W as nat),
{
    let empty = Color::Empty;
    let r = [empty; W];
    assert(r == vstd::array::spec_array_fill_for_copy_type::<Color, W>(empty));
    assert(r@ =~= empty_row(W as nat));
    r
}

impl<const W: usize, const H: usize> Game<W, H> {
    fn row_full(row: &[Color; W]) -> (r: bool)
        ensures
            r == full(row@),
    {
        let mut x: usize = 0;
        while x < W
            invariant
                x <= W,
                forall|k: int| 0 <= k < x ==> row@[k] != Color::Empty,
            decreases W - x,
        {
            if row[x].is_none() {
                return false;
            }
            x += 1;
        }
        true
    }

    /// Takes every full row out, moving the rows above it down by one and
    /// emptying the top row, and counts each in the score.
    fn clear_lines(&mut self)
        requires
            old(self).score + H <= u32::MAX,
        ensures
            final(self).rows() == cleared(old(self).rows(), W as nat),
            final(self).score == old(self).score + full_rows(old(self).rows()),
            final(self).tetromino == old(self).tetromino,
            final(self).over == old(self).over,
    {
        let ghost start = self.rows();
        let mut i: usize = 0;
        while i < H
            invariant
                i <= H,
                start == rows_of(old(self).grid),
                self.rows().subrange(0, i as int) == cleared(start.subrange(0, i as int), W as nat),
                self.rows().subrange(i as int, H as int) == start.subrange(i as int, H as int),
                self.score == old(self).score + full_rows(start.subrange(0, i as int)),
                full_rows(start.subrange(0, i as int)) <= i,
                self.tetromino == old(self).tetromino,
                self.over == old(self).over,
                old(self).score + H <= u32::MAX,
            decreases H - i,
        {
            let ghost before = self.rows();
            let ghost prefix = start.subrange(0, i as int);
            let ghost next = start.subrange(0, i + 1);
            assert(next.drop_last() =~= prefix);
            assert(next.last() == before[i as int]) by {
                assert(before.subrange(i as int, H as int)[0] == start.subrange(i as int, H as int)[0]);
            }
            if Self::row_full(&self.grid[i]) {
                self.score = self.score + 1;
                let mut k: usize = i;
                while k > 0
                    invariant
                        k <= i < H,
                        before.len() == H,
                        self.rows().len() == H,
                        forall|j: int| 0 <= j <= k ==> #[trigger] self.rows()[j] == before[j],
                        forall|j: int| k < j <= i ==> #[trigger] self.rows()[j] == before[j - 1],
                        forall|j: int| i < j < H ==> #[trigger] self.rows()[j] == before[j],
                        self.score == old(self).score + full_rows(prefix) + 1,
                        self.tetromino == old(self).tetromino,
                        self.over == old(self).over,
                    decreases k,
                {
                    let ghost g0 = self.rows();
                    let prev_row = self.grid[k - 1];
                    self.grid[k] = prev_row;
                    assert(self.rows() =~= g0.update(k as int, g0[k - 1]));
                    k -= 1;
                }
                let ghost g1 = self.rows();
                let blank = blank_row::<W>();
                self.grid[0] = blank;
                assert(self.rows() =~= g1.update(0, empty_row(W as nat)));
                assert(self.rows().subrange(0, i + 1) =~= seq![empty_row(W as nat)]
                    + before.subrange(0, i as int));
                assert(self.rows().subrange(i + 1, H as int) =~= start.subrange(i + 1, H as int)) by {
                    assert forall|j: int| 0 <= j < H - i - 1 implies #[trigger] self.rows().subrange(
                        i + 1,
                        H as int,
                    )[j] == start.subrange(i + 1, H as int)[j] by {
                        assert(self.rows()[i + 1 + j] == before[i + 1 + j]);
                        assert(before.subrange(i as int, H as int)[j + 1] == start.subrange(
                            i as int,
                            H as int,
                        )[j + 1]);
                    }
                }
            } else {
                assert(self.rows().subrange(0, i + 1) =~= before.subrange(0, i as int).push(
                    before[i as int],
                ));
                assert(self.rows().subrange(i + 1, H as int) =~= start.subrange(i + 1, H as int)) by {
                    assert forall|j: int| 0 <= j < H - i - 1 implies #[trigger] self.rows().subrange(
                        i + 1,
                        H as int,
                    )[j] == start.subrange(i + 1, H as int)[j] by {
                        assert(before.subrange(i as int, H as int)[j + 1] == start.subrange(
                            i as int,
                            H as int,
                        )[j + 1]);
                    }
                }
            }
            i += 1;
        }
        assert(start.subrange(0, H as int) =~= start);
        assert(self.rows().subrange(0, H as int) =~= self.rows());
    }

    fn occupied(&self, p: (usize, usize)) -> (r: bool)
        requires
            inside::<W, H>((p.0 as int, p.1 as int)),
        ensures
            r == filled(self.rows(), p.0 as int, p.1 as int),
    {
        self.grid[p.0][p.1].is_some()
    }

    /// Advances the game by one step. A piece that can still fall moves
    /// down one row. A piece that has landed is locked into the grid, the
    /// full rows are cleared and scored, a new piece spawns, and the game is
    /// over when that piece lands on occupied cells.
    pub fn tick(&mut self)
        requires
            old(self).wf(),
            old(self).score + H <= u32::MAX,
        ensures
            final(self).wf(),
            final(self).rows() == old(self).settled_rows(),
            final(self).score == old(self).score + old(self).settled_lines(),
            !old(self).landed() ==> final(self).same_but_piece(old(self)) && final(self).cells()
                == shifted(old(self).cells(), Direction::Down) && final(self).rng == old(self).rng,
            old(self).landed() ==> final(self).rows() == empty_rows(
                full_rows(old(self).locked_rows()),
                W as nat,
            ) + remaining(old(self).locked_rows()),
            old(self).landed() ==> forall|y: int|
                0 <= y < H ==> !full(#[trigger] final(self).rows()[y]),
            old(self).landed() ==> Self::is_spawn(final(self).tetromino) && final(self).over
                == overlaps(final(self).rows(), final(self).cells()),
    {
        let (_, _, down) = self.piece_touches();
        if !down {
            self.shift(Direction::Down);
        } else {
            self.draw_piece(true);
            self.clear_lines();
            self.tetromino = Tetromino::new_with_rng(W, &mut self.rng);
            proof {
                lemma_spawn_inside::<W, H>(self.tetromino);
            }
            proof {
                lemma_cleared(old(self).locked_rows(), W as nat);
            }
            let c = self.tetromino.cells;
            self.over = self.occupied(c[0]) || self.occupied(c[1]) || self.occupied(c[2])
                || self.occupied(c[3]);
        }
    }

    /// Puts the falling piece where a player would: fully left, then
    /// `shifts` moves right and `rotations` turns, each refused where it is
    /// blocked, then a hard drop. The piece is not locked.
    pub fn place(&mut self, shifts: usize, rotations: usize)
        requires
            old(self).wf(),
        ensures
            final(self).wf(),
            final(self).same_but_piece(old(self)),
            final(self).rng == old(self).rng,
            final(self).cells() == placement(
                old(self).grid,
                old(self).cells(),
                shifts as nat,
                rotations as nat,
            ),
            final(self).landed(),
    {
        let ghost c0 = self.cells();
        let mut i: usize = 0;
        while i < W
            invariant
                i <= W,
                self.wf(),
                self.same_but_piece(old(self)),
                self.rng == old(self).rng,
                c0 == old(self).cells(),
                self.cells() == shift_n(old(self).grid, c0, Direction::Left, i as nat),
            decreases W - i,
        {
            self.shift(Direction::Left);
            i += 1;
        }
        let ghost c1 = self.cells();
        let mut i: usize = 0;
        while i < shifts
            invariant
                i <= shifts,
                self.wf(),
                self.same_but_piece(old(self)),
                self.rng == old(self).rng,
                self.cells() == shift_n(old(self).grid, c1, Direction::Right, i as nat),
            decreases shifts - i,
        {
            self.shift(Direction::Right);
            i += 1;
        }
        let ghost c2 = self.cells();
        let mut i: usize = 0;
        while i < rotations
            invariant
                i <= rotations,
                self.wf(),
                self.same_but_piece(old(self)),
                self.rng == old(self).rng,
                self.cells() == rotate_n(old(self).grid, c2, i as nat),
            decreases rotations - i,
        {
            self.rotate();
            i += 1;
        }
        self.hard_drop();
    }
}
/// Clearing rows takes out exactly the full rows and keeps the others in
/// their order, moved down below as many empty rows as were taken out. The
/// number of rows stays the same, and no full row is left.
pub proof fn lemma_cleared(rows: Seq<Seq<Color>>, w: nat)
    requires
        w > 0,
    ensures
        cleared(rows, w) == empty_rows(full_rows(rows), w) + remaining(rows),
        full_rows(rows) + remaining(rows).len() == rows.len(),
        cleared(rows, w).len() == rows.len(),
        forall|y: int| 0 <= y < rows.len() ==> !full(#[trigger] cleared(rows, w)[y]),
    decreases rows.len(),
{
    reveal(Seq::filter);
    if rows.len() > 0 {
        let p = rows.drop_last();
        let l = rows.last();
        lemma_cleared(p, w);
        let k = full_rows(p);
        if full(l) {
            assert(remaining(rows) == remaining(p));
            assert(seq![empty_row(w)] + (empty_rows(k, w) + remaining(p)) =~= empty_rows(k + 1, w)
                + remaining(p));
        } else {
            assert(remaining(rows) == remaining(p).push(l));
            assert((empty_rows(k, w) + remaining(p)).push(l) =~= empty_rows(k, w) + remaining(
                p,
            ).push(l));
        }
    }
    let c = cleared(rows, w);
    let n = full_rows(rows);
    assert forall|y: int| 0 <= y < rows.len() implies !full(#[trigger] c[y]) by {
        if y < n {
            assert(c[y] == empty_row(w));
            assert(c[y][0] == Color::Empty);
        } else {
            assert(c[y] == remaining(rows)[y - n]);
            rows.lemma_filter_pred(|r: Seq<Color>| !full(r), y - n);
        }
    }
}

/// When four turns in a row are all accepted, the piece is back on the
/// cells it started from.
pub proof fn lemma_four_accepted_turns<const W: usize, const H: usize>(
    grid: [[Color; W]; H],
    c: Seq<(int, int)>,
)
    requires
        c.len() == 4,
        fits(grid, rotated(c)),
        fits(grid, rotated(rotated(c))),
        fits(grid, rotated(rotated(rotated(c)))),
        fits(grid, rotated(rotated(rotated(rotated(c))))),
    ensures
        rotate_n(grid, c, 4) == c,
{
    lemma_four_turns(c);
    assert(rotate_n(grid, c, 0) == c);
    assert(rotate_n(grid, c, 1) == rotated(c));
    assert(rotate_n(grid, c, 2) == rotated(rotated(c)));
    assert(rotate_n(grid, c, 3) == rotated(rotated(rotated(c))));
}

/// After a landed piece settles for one tick, the grid holds as many empty
/// rows as the locked grid had full rows, then the locked grid's other rows
/// in their order; it keeps its height, no row of it is full, and the score
/// grows by the number of rows taken out.
pub proof fn lemma_settled_rows<const W: usize, const H: usize>(g: Game<W, H>)
    requires
        g.wf(),
        g.landed(),
    ensures
        g.settled_rows() == empty_rows(g.settled_lines(), W as nat) + remaining(g.locked_rows()),
        g.settled_rows().len() == H,
        forall|y: int| 0 <= y < H ==> !full(#[trigger] g.settled_rows()[y]),
        g.settled_lines() + remaining(g.locked_rows()).len() == H,
{
    lemma_cleared(g.locked_rows(), W as nat);
}

} // verus!
