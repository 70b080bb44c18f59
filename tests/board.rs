use tetris_ai::controls::{send, Action};
use tetris_ai::game::{StandardGame, HEIGHT, WIDTH};
use tetris_ai::tetromino::{Color, Direction, Tetromino};

fn board_with(piece: Tetromino) -> StandardGame {
    let mut g = StandardGame::new_with_seed(11);
    g.grid = [[Color::Empty; WIDTH]; HEIGHT];
    g.tetromino = piece;
    g
}

#[test]
fn fresh_board_is_empty_and_running() {
    let g = StandardGame::new_with_seed(1);
    assert_eq!(g.score, 0);
    assert!(!g.over);
    assert!(g.grid.iter().all(|row| row.iter().all(|c| c.is_none())));
    assert!(g.well_formed());
}

#[test]
fn blocked_shift_changes_nothing() {
    let mut g = board_with(Tetromino::new(6, Color::Red));
    let before = g.tetromino.cells;
    g.shift(Direction::Left);
    assert_eq!(g.tetromino.cells, before);
    g.shift(Direction::Right);
    assert_eq!(g.tetromino.cells, [(0, 1), (1, 1), (0, 2), (1, 2)]);
    g.grid[0][3] = Color::Blue;
    g.shift(Direction::Right);
    assert_eq!(g.tetromino.cells, [(0, 1), (1, 1), (0, 2), (1, 2)]);
}

#[test]
fn refused_turn_leaves_the_piece() {
    let mut g = board_with(Tetromino::new(0, Color::Red));
    assert!(!g.rotate());
    assert_eq!(g.tetromino.cells, [(0, 0), (1, 0), (2, 0), (3, 0)]);
    // A turn onto an occupied cell is refused too.
    let mut g = board_with(Tetromino::new(2, Color::Red));
    g.shift(Direction::Right);
    g.grid[1][0] = Color::Green;
    assert!(!g.rotate());
    assert_eq!(g.tetromino.cells, [(0, 1), (1, 1), (2, 1), (1, 2)]);
}

#[test]
fn turn_on_the_board_follows_the_pivot_formula() {
    let mut g = board_with(Tetromino::new(2, Color::Red));
    g.shift(Direction::Right);
    assert!(g.rotate());
    assert_eq!(g.tetromino.cells, [(1, 2), (1, 1), (1, 0), (2, 1)]);
}

#[test]
fn four_accepted_turns_restore_the_piece() {
    for shape in 0..7 {
        let mut g = board_with(Tetromino::new(shape, Color::Red));
        for _ in 0..4 {
            g.shift(Direction::Right);
            g.shift(Direction::Down);
        }
        let start = g.tetromino.cells;
        for _ in 0..4 {
            assert!(g.rotate());
        }
        assert_eq!(g.tetromino.cells, start);
    }
}

#[test]
fn hard_drop_rests_on_the_floor_or_a_stack() {
    let mut g = board_with(Tetromino::new(6, Color::Red));
    g.hard_drop();
    assert_eq!(g.tetromino.cells, [(18, 0), (19, 0), (18, 1), (19, 1)]);
    let mut g = board_with(Tetromino::new(6, Color::Red));
    g.grid[10][1] = Color::Green;
    g.hard_drop();
    assert_eq!(g.tetromino.cells, [(8, 0), (9, 0), (8, 1), (9, 1)]);
}

#[test]
fn tick_moves_a_falling_piece_down() {
    let mut g = board_with(Tetromino::new(6, Color::Red));
    g.tick();
    assert_eq!(g.tetromino.cells, [(1, 0), (2, 0), (1, 1), (2, 1)]);
    assert!(g.grid.iter().all(|row| row.iter().all(|c| c.is_none())));
    assert_eq!(g.score, 0);
}

#[test]
fn tick_clears_full_rows_and_scores_them() {
    let mut g = board_with(Tetromino::new(6, Color::Red));
    for x in 0..WIDTH {
        if x != 4 && x != 5 {
            g.grid[19][x] = Color::Blue;
            g.grid[18][x] = Color::Blue;
        }
    }
    g.grid[17][0] = Color::Green;
    g.grid[16][9] = Color::Yellow;
    for _ in 0..4 {
        g.shift(Direction::Right);
    }
    g.hard_drop();
    assert_eq!(g.tetromino.cells, [(18, 4), (19, 4), (18, 5), (19, 5)]);
    g.tick();
    assert_eq!(g.score, 2);
    assert_eq!(g.grid[19][0], Color::Green);
    assert_eq!(g.grid[18][9], Color::Yellow);
    assert_eq!(g.grid[19].iter().filter(|c| c.is_some()).count(), 1);
    assert_eq!(g.grid[18].iter().filter(|c| c.is_some()).count(), 1);
    for y in 0..18 {
        assert!(g.grid[y].iter().all(|c| c.is_none()));
    }
    assert!(!g.over);
}

#[test]
fn one_full_row_below_a_partial_row_moves_it_down() {
    let mut g = board_with(Tetromino::new(0, Color::Red));
    for x in 1..WIDTH {
        g.grid[19][x] = Color::Blue;
    }
    g.grid[18][3] = Color::Magenta;
    g.hard_drop();
    g.tick();
    assert_eq!(g.score, 1);
    // The I piece's three upper cells stay in column 0, one row lower.
    assert_eq!(g.grid[19][0], Color::Red);
    assert_eq!(g.grid[18][0], Color::Red);
    assert_eq!(g.grid[17][0], Color::Red);
    assert_eq!(g.grid[19][3], Color::Magenta);
    assert!(g.grid[16].iter().all(|c| c.is_none()));
}

#[test]
fn spawning_onto_occupied_cells_ends_the_game() {
    let mut g = board_with(Tetromino::new(6, Color::Red));
    // Rows 0 to 2 are filled in columns 0 to 8 once the piece locks, so
    // every spawn lands on an occupied cell; no row is full.
    for x in 0..WIDTH - 1 {
        g.grid[2][x] = Color::Blue;
        if x >= 2 {
            g.grid[0][x] = Color::Blue;
            g.grid[1][x] = Color::Blue;
        }
    }
    g.tick();
    assert_eq!(g.score, 0);
    assert!(g.over);
}

#[test]
fn paused_commands_change_nothing() {
    let mut g = board_with(Tetromino::new(6, Color::Red));
    send(&mut g, true, Action::Tick);
    assert_eq!(g.tetromino.cells, [(0, 0), (1, 0), (0, 1), (1, 1)]);
    send(&mut g, false, Action::Tick);
    assert_eq!(g.tetromino.cells, [(1, 0), (2, 0), (1, 1), (2, 1)]);
    send(&mut g, false, Action::Shift(Direction::Right));
    assert_eq!(g.tetromino.cells, [(1, 1), (2, 1), (1, 2), (2, 2)]);
    send(&mut g, false, Action::HardDrop);
    assert_eq!(g.tetromino.cells, [(18, 1), (19, 1), (18, 2), (19, 2)]);
}

#[test]
fn drawing_a_piece_and_erasing_it() {
    let mut g = board_with(Tetromino::new(6, Color::Cyan));
    g.draw_piece(true);
    assert_eq!(g.grid[0][0], Color::Cyan);
    assert_eq!(g.grid[1][1], Color::Cyan);
    g.draw_piece(false);
    assert!(g.grid.iter().all(|row| row.iter().all(|c| c.is_none())));
}
