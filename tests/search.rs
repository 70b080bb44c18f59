use rand::rngs::SmallRng;
use rand::SeedableRng;
use tetris_ai::ai::genes::{Bumpiness, Holes, LinesCleared, MaxHeight, TotalHeight};
use tetris_ai::ai::{
    add_trial, champion_index, Gene, Selection, SelectionError, Simulation, MOVE_LIMIT,
    SCORE_LIMIT,
};
use tetris_ai::game::{StandardGame, HEIGHT, WIDTH};
use tetris_ai::tetromino::{Color, Direction, Tetromino};

fn board_with(piece: Tetromino) -> StandardGame {
    let mut g = StandardGame::new_with_seed(3);
    g.grid = [[Color::Empty; WIDTH]; HEIGHT];
    g.tetromino = piece;
    g
}

#[test]
fn enumerator_gives_four_candidates_per_column() {
    let g = StandardGame::new_with_seed(3);
    let states = g.all_possible_states();
    assert_eq!(states.len(), 4 * WIDTH);
    for (i, (state, shifts, rotations)) in states.iter().enumerate() {
        assert_eq!(*shifts, i / 4);
        assert_eq!(*rotations, i % 4);
        let mut lower = state.clone();
        lower.shift(Direction::Down);
        assert_eq!(lower.tetromino.cells, state.tetromino.cells);
        assert_eq!(state.score, g.score);
    }
}

#[test]
fn enumerator_matches_placing_by_hand() {
    let g = StandardGame::new_with_seed(9);
    let states = g.all_possible_states();
    for (state, shifts, rotations) in states.iter() {
        let mut h = g.clone();
        for _ in 0..WIDTH {
            h.shift(Direction::Left);
        }
        for _ in 0..*shifts {
            h.shift(Direction::Right);
        }
        for _ in 0..*rotations {
            h.rotate();
        }
        h.hard_drop();
        assert_eq!(h.tetromino.cells, state.tetromino.cells);
    }
}

fn sample_board() -> StandardGame {
    // Column 0 has height 2; column 1 has height 3 with a hole at row 18.
    let mut g = board_with(Tetromino::new(6, Color::Red));
    for _ in 0..4 {
        g.shift(Direction::Right);
    }
    g.grid[18][0] = Color::Blue;
    g.grid[19][0] = Color::Blue;
    g.grid[17][1] = Color::Blue;
    g.grid[19][1] = Color::Blue;
    g
}

#[test]
fn genes_measure_a_board_with_a_falling_piece() {
    let g = sample_board();
    assert_eq!(Holes.evaluate(&g), 1);
    assert_eq!(MaxHeight.evaluate(&g), 3);
    assert_eq!(TotalHeight.evaluate(&g), 5);
    assert_eq!(Bumpiness.evaluate(&g), 4);
    assert_eq!(LinesCleared.evaluate(&g), 0);
}

#[test]
fn genes_measure_after_the_piece_locks() {
    let mut g = board_with(Tetromino::new(6, Color::Red));
    for x in 0..WIDTH {
        if x != 4 && x != 5 {
            g.grid[19][x] = Color::Blue;
        }
    }
    g.grid[17][0] = Color::Blue;
    for _ in 0..4 {
        g.shift(Direction::Right);
    }
    g.hard_drop();
    let before = g.clone();
    assert_eq!(LinesCleared.evaluate(&g), 1);
    // After the clear: column 0 holds one cell at row 19 (from row 18 it
    // was empty, row 17 moves to 18): heights 2 in column 0 with a hole,
    // 1 in columns 4 and 5.
    assert_eq!(Holes.evaluate(&g), 1);
    assert_eq!(MaxHeight.evaluate(&g), 2);
    assert_eq!(TotalHeight.evaluate(&g), 4);
    assert_eq!(Bumpiness.evaluate(&g), 2 + 1 + 1);
    // The features do not change the board they measure.
    assert_eq!(g.grid, before.grid);
    assert_eq!(g.tetromino.cells, before.tetromino.cells);
    assert_eq!(g.score, before.score);
}

#[test]
fn champion_is_the_last_highest_entry() {
    assert_eq!(champion_index(&vec![3, 9, 2, 9, 1]), 3);
    assert_eq!(champion_index(&vec![5]), 0);
    assert_eq!(champion_index(&vec![0, 0, 7]), 2);
    assert_eq!(champion_index(&vec![8, 0, 7]), 0);
}

#[test]
fn trials_add_up() {
    let mut totals = vec![0, 5, 10];
    add_trial(&mut totals, &vec![1, 2, 3]);
    add_trial(&mut totals, &vec![10, 0, 1]);
    assert_eq!(totals, vec![11, 7, 14]);
}

#[test]
fn selection_fails_on_degenerate_fitness() {
    assert_eq!(Selection::new(&vec![]).err(), Some(SelectionError::NoGenomes));
    assert_eq!(Selection::new(&vec![0, 0, 0]).err(), Some(SelectionError::AllUnfit));
    assert!(Selection::new(&vec![0, 1]).is_ok());
}

#[test]
fn selection_never_draws_an_unfit_genome() {
    let mut rng = SmallRng::seed_from_u64(17);
    let s = Selection::new(&vec![0, 5, 0, 0]).ok().unwrap();
    for _ in 0..100 {
        assert_eq!(s.draw(&mut rng), 1);
    }
    let s = Selection::new(&vec![1, 0, 3]).ok().unwrap();
    let mut seen = [0u32; 3];
    for _ in 0..400 {
        seen[s.draw(&mut rng)] += 1;
    }
    assert_eq!(seen[1], 0);
    assert!(seen[0] > 0 && seen[2] > seen[0]);
}

fn lowest_holes_policy(game: &StandardGame) -> (usize, usize) {
    let mut best = (0, 0);
    let mut best_value = f64::MIN;
    for (state, shifts, rotations) in game.all_possible_states() {
        let value = -(Holes.evaluate(&state) as f64) * 0.7
            - (TotalHeight.evaluate(&state) as f64) * 0.5
            + (LinesCleared.evaluate(&state) as f64) * 0.8
            - (Bumpiness.evaluate(&state) as f64) * 0.2;
        if value > best_value {
            best_value = value;
            best = (shifts, rotations);
        }
    }
    best
}

fn play(seed: u64) -> (Vec<(usize, usize)>, u32, StandardGame) {
    let mut sim = Simulation::new(seed);
    let mut placements = vec![];
    while !sim.finished() {
        let (s, r) = lowest_holes_policy(&sim.game);
        placements.push((s, r));
        sim.step(s, r);
    }
    assert!(sim.moves <= MOVE_LIMIT);
    assert!(sim.game.over || sim.game.score >= SCORE_LIMIT || sim.moves == MOVE_LIMIT);
    (placements, sim.game.score, sim.game)
}

#[test]
fn same_seed_same_game() {
    let (a, score_a, game_a) = play(42);
    let (b, score_b, game_b) = play(42);
    assert_eq!(a, b);
    assert_eq!(score_a, score_b);
    assert_eq!(game_a.grid, game_b.grid);
    assert_eq!(game_a.tetromino.cells, game_b.tetromino.cells);
}

#[test]
fn simulation_stops_when_the_board_fills() {
    let mut sim = Simulation::new(5);
    let mut steps = 0;
    while !sim.finished() {
        sim.step(0, 0);
        steps += 1;
    }
    assert!(sim.game.over);
    assert_eq!(sim.moves, steps);
    assert!(steps < 200);
}
