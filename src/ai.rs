//! The search for a placement heuristic: the candidate placements of a
//! piece, the board features, the stopping rules of a simulated game, and
//! the integer side of ranking and breeding genomes.
use crate::game::{
    full_rows, cleared, overlaps, painted, placement, Game, StandardGame, HEIGHT, WIDTH,
};
use crate::random::{sample_index, total, weighted_index, weights_of, Roulette};
use rand::distributions::WeightedError;
use rand::rngs::SmallRng;
use vstd::prelude::*;

pub mod genes;

verus! {

/// A simulated game stops once its score reaches this.
pub const SCORE_LIMIT: u32 = 1000;

/// A simulated game stops after this many pieces.
pub const MOVE_LIMIT: u32 = 1000;

/// The number of trials, each with its own seed, in one generation.
pub const NUMBER_OF_SIMULATIONS: usize = 10;

/// A feature of a board, measured after the board settles for one tick.
pub trait Gene {
    fn evaluate(&self, state: &StandardGame) -> u32
        requires
            state.wf(),
            state.score + HEIGHT <= u32::MAX,
    ;
}

impl<const W: usize, const H: usize> Game<W, H> {
    /// Every placement of the falling piece: for each number of moves right
    /// from the fully-left position and each number of turns below four, the
    /// board after those moves and a hard drop. Entry `4 * shifts +
    /// rotations` holds `(board, shifts, rotations)`.
    pub fn all_possible_states(&self) -> (r: Vec<(Self, usize, usize)>)
        requires
            self.wf(),
        ensures
            r.len() == 4 * W,
            forall|i: int|
                0 <= i < r.len() ==> {
                    let e = #[trigger] r@[i];
                    &&& 4 * e.1 + e.2 == i
                    &&& e.2 < 4
                    &&& e.0.wf()
                    &&& e.0.same_but_piece(self)
                    &&& e.0.cells() == placement(self.grid, self.cells(), e.1 as nat, e.2 as nat)
                    &&& e.0.landed()
                },
            forall|i: int| 0 <= i < r.len() ==> #[trigger] r@[i].1 < W,
            forall|i: int, j: int|
                0 <= i < j < r.len() ==> (#[trigger] r@[i].1, r@[i].2) != (#[trigger] r@[j].1, r@[j].2),
    {
        let mut states: Vec<(Self, usize, usize)> = Vec::new();
        let mut shifts: usize = 0;
        while shifts < W
            invariant
                shifts <= W,
                self.wf(),
                states.len() == 4 * shifts,
                forall|i: int|
                    0 <= i < states.len() ==> {
                        let e = #[trigger] states@[i];
                        &&& 4 * e.1 + e.2 == i
                        &&& e.2 < 4
                        &&& e.0.wf()
                        &&& e.0.same_but_piece(self)
                        &&& e.0.cells() == placement(
                            self.grid,
                            self.cells(),
                            e.1 as nat,
                            e.2 as nat,
                        )
                        &&& e.0.landed()
                    },
            decreases W - shifts,
        {
            let mut rotations: usize = 0;
            while rotations < 4
                invariant
                    shifts < W,
                    rotations <= 4,
                    self.wf(),
                    states.len() == 4 * shifts + rotations,
                    forall|i: int|
                        0 <= i < states.len() ==> {
                            let e = #[trigger] states@[i];
                            &&& 4 * e.1 + e.2 == i
                            &&& e.2 < 4
                            &&& e.0.wf()
                            &&& e.0.same_but_piece(self)
                            &&& e.0.cells() == placement(
                                self.grid,
                                self.cells(),
                                e.1 as nat,
                                e.2 as nat,
                            )
                            &&& e.0.landed()
                        },
                decreases 4 - rotations,
            {
                let mut game = self.clone();
                game.place(shifts, rotations);
                states.push((game, shifts, rotations));
                rotations += 1;
            }
            shifts += 1;
        }
        assert forall|i: int| 0 <= i < states.len() implies #[trigger] states@[i].1 < W by {
            let e = states@[i];
            assert(4 * e.1 + e.2 == i);
        }
        states
    }
}

/// The index of the highest entry; of equal highest entries, the last.
pub fn champion_index(rank: &Vec<u32>) -> (r: usize)
    requires
        rank.len() > 0,
    ensures
        r < rank.len(),
        forall|j: int| 0 <= j < rank.len() ==> rank[j] <= rank[r as int],
        forall|j: int| r < j < rank.len() ==> rank[j] < rank[r as int],
{
    let mut best: usize = 0;
    let mut i: usize = 1;
    while i < rank.len()
        invariant
            0 < i <= rank.len(),
            best < i,
            forall|j: int| 0 <= j < i ==> rank[j] <= rank[best as int],
            forall|j: int| best < j < i ==> rank[j] < rank[best as int],
        decreases rank.len() - i,
    {
        if rank[i] >= rank[best] {
            best = i;
        }
        i += 1;
    }
    best
}

/// Adds one trial's scores to the running fitness of each genome.
pub fn add_trial(totals: &mut Vec<u32>, trial: &Vec<u32>)
    requires
        old(totals).len() == trial.len(),
        forall|i: int| 0 <= i < trial.len() ==> old(totals)[i] + trial[i] <= u32::MAX,
    ensures
        final(totals).len() == old(totals).len(),
        forall|i: int| 0 <= i < trial.len() ==> final(totals)[i] == old(totals)[i] + trial[i],
{
    let mut i: usize = 0;
    while i < trial.len()
        invariant
            i <= trial.len(),
            totals.len() == trial.len(),
            forall|j: int| 0 <= j < trial.len() ==> old(totals)[j] + trial[j] <= u32::MAX,
            forall|j: int| 0 <= j < i ==> totals[j] == old(totals)[j] + trial[j],
            forall|j: int| i <= j < trial.len() ==> totals[j] == old(totals)[j],
        decreases trial.len() - i,
    {
        let sum = totals[i] + trial[i];
        totals.set(i, sum);
        i += 1;
    }
}

/// Why a generation cannot be bred.
#[derive(Clone, Copy, Debug, PartialEq, Eq, Structural)]
pub enum SelectionError {
    /// There is no genome to select from.
    NoGenomes,
    /// Every genome has fitness zero, so no fitness-proportionate choice
    /// exists.
    AllUnfit,
}

/// A fitness-proportionate choice of genomes.
pub struct Selection {
    wheel: Roulette,
}

impl Selection {
    /// The fitness of each genome.
    pub closed spec fn weights(&self) -> Seq<u32> {
        weights_of(self.wheel)
    }

    /// The choice over genomes with the given fitness. It fails when there
    /// is no genome, or when all fitness is zero.
    pub fn new(fitness: &Vec<u32>) -> (r: Result<Selection, SelectionError>)
        requires
            total(fitness@) <= u32::MAX,
        ensures
            r is Ok <==> fitness.len() > 0 && total(fitness@) > 0,
            r matches Ok(s) ==> s.weights() == fitness@,
            r == Err::<Selection, SelectionError>(SelectionError::NoGenomes) <==> fitness.len() == 0,
            r == Err::<Selection, SelectionError>(SelectionError::AllUnfit) <==> fitness.len() > 0
                && total(fitness@) == 0,
    {
        match weighted_index(fitness) {
            Ok(wheel) => Ok(Selection { wheel }),
            Err(WeightedError::NoItem) => Err(SelectionError::NoGenomes),
            Err(_) => Err(SelectionError::AllUnfit),
        }
    }

    /// The index of one genome, drawn with a chance proportional to its
    /// fitness; a genome of fitness zero is never drawn.
    pub fn draw(&self, rng: &mut SmallRng) -> (r: usize)
        ensures
            r < self.weights().len(),
            self.weights()[r as int] > 0,
    {
        sample_index(&self.wheel, rng)
    }
}

/// One simulated game: a board of the standard size and the number of
/// pieces placed so far.
pub struct Simulation {
    pub game: StandardGame,
    pub moves: u32,
}

impl Simulation {
    /// The game has ended: the board is over, or the score or the number of
    /// pieces has reached its limit.
    pub open spec fn done(&self) -> bool {
        self.game.over || self.game.score >= SCORE_LIMIT || self.moves >= MOVE_LIMIT
    }

    /// A fresh game whose pieces come from the given seed.
    pub fn new(seed: u64) -> (r: Self)
        ensures
            r.game.wf(),
            r.game.rows() == Seq::new(HEIGHT as nat, |y: int| crate::game::empty_row(WIDTH as nat)),
            r.game.score == 0,
            !r.game.over,
            r.moves == 0,
    {
        Simulation { game: StandardGame::new_with_seed(seed), moves: 0 }
    }

    /// Whether the game has ended; see `done`.
    pub fn finished(&self) -> (r: bool)
        ensures
            r == self.done(),
    {
        self.game.over || self.game.score >= SCORE_LIMIT || self.moves >= MOVE_LIMIT
    }

    /// Plays one piece: places it with `shifts` moves right and `rotations`
    /// turns from the fully-left position, drops it, and locks it with a tick.
    pub fn step(&mut self, shifts: usize, rotations: usize)
        requires
            old(self).game.wf(),
            !old(self).done(),
        ensures
            final(self).game.wf(),
            final(self).moves == old(self).moves + 1,
            ({
                let locked = painted(
                    old(self).game.rows(),
                    placement(
                        old(self).game.grid,
                        old(self).game.cells(),
                        shifts as nat,
                        rotations as nat,
                    ),
                    old(self).game.tetromino.color,
                );
                &&& final(self).game.rows() == cleared(locked, WIDTH as nat)
                &&& final(self).game.score == old(self).game.score + full_rows(locked)
            }),
            StandardGame::is_spawn(final(self).game.tetromino),
            final(self).game.over == overlaps(final(self).game.rows(), final(self).game.cells()),
    {
        self.game.place(shifts, rotations);
        self.game.tick();
        self.moves = self.moves + 1;
    }
}

} // verus!
