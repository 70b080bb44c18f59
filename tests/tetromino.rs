use rand::rngs::SmallRng;
use rand::SeedableRng;
use tetris_ai::tetromino::{Color, Direction, Tetromino};

#[test]
fn tetromino_shift() {
    let mut t = Tetromino::new(0, Color::Empty);
    t.shift(Direction::Down);
    assert_eq!(t.cells, [(1, 0), (2, 0), (3, 0), (4, 0)]);
    t.shift(Direction::Right);
    assert_eq!(t.cells, [(1, 1), (2, 1), (3, 1), (4, 1)]);
}

#[test]
fn tetromino_turn() {
    let mut t = Tetromino::new(2, Color::Empty); // T
    t.shift(Direction::Right);
    t.rotate().unwrap();
    assert_eq!(t.cells, [(1, 2), (1, 1), (1, 0), (2, 1)]);
}

#[test]
fn turn_into_negative_column_is_refused() {
    let mut t = Tetromino::new(0, Color::Red);
    assert!(t.rotate().is_none());
    assert_eq!(t.cells, [(0, 0), (1, 0), (2, 0), (3, 0)]);
}

#[test]
fn color_emptiness() {
    assert!(Color::Empty.is_none());
    assert!(!Color::Empty.is_some());
    assert!(Color::Cyan.is_some());
    assert!(!Color::Cyan.is_none());
}

#[test]
fn random_piece_lies_within_width_and_has_a_color() {
    let mut rng = SmallRng::seed_from_u64(5);
    for _ in 0..200 {
        let t = Tetromino::new_with_rng(10, &mut rng);
        assert!(t.color.is_some());
        let max_x = t.cells.iter().map(|c| c.1).max().unwrap();
        let min_x = t.cells.iter().map(|c| c.1).min().unwrap();
        assert!(max_x < 10);
        assert!(t.cells.iter().all(|c| c.0 < 4));
        assert!(max_x - min_x <= 1);
    }
    let t = Tetromino::new_random(3);
    assert!(t.cells.iter().all(|c| c.1 < 3));
}

#[test]
fn spawn_places_the_drawn_shape_at_the_drawn_offset() {
    let t = Tetromino::spawn(2, Color::Yellow, 4);
    assert_eq!(t.cells, [(0, 4), (1, 4), (2, 4), (1, 5)]);
    assert_eq!(t.color, Color::Yellow);
    let t = Tetromino::spawn(5, Color::Blue, 0);
    assert_eq!(t.cells, [(0, 1), (1, 0), (2, 0), (1, 1)]);
    assert_eq!(t.color, Color::Blue);
}
