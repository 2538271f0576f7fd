use snake_core::position::{_detect_direction, direction_to, is_adjacent, Direction, Position};

const ALL: [Direction; 4] = [Direction::Up, Direction::Down, Direction::Left, Direction::Right];

#[test]
fn opposite_swaps_each_axis() {
    assert_eq!(Direction::Up.opposite(), Direction::Down);
    assert_eq!(Direction::Down.opposite(), Direction::Up);
    assert_eq!(Direction::Left.opposite(), Direction::Right);
    assert_eq!(Direction::Right.opposite(), Direction::Left);
}

#[test]
fn opposite_is_an_involution_without_fixed_point() {
    for d in ALL {
        assert_eq!(d.opposite().opposite(), d);
        assert_ne!(d.opposite(), d);
    }
}

#[test]
fn default_direction_is_right() {
    assert_eq!(Direction::default(), Direction::Right);
}

#[test]
fn new_position_keeps_its_coordinates() {
    let p = Position::new(-3, 7);
    assert_eq!(p.x, -3);
    assert_eq!(p.y, 7);
    assert_eq!(p, Position { x: -3, y: 7 });
}

#[test]
fn step_moves_one_cell_without_wraparound() {
    let p = Position::new(0, 0);
    assert_eq!(p.step(Direction::Up), Position::new(0, 1));
    assert_eq!(p.step(Direction::Down), Position::new(0, -1));
    assert_eq!(p.step(Direction::Left), Position::new(-1, 0));
    assert_eq!(p.step(Direction::Right), Position::new(1, 0));
}

#[test]
fn step_and_step_back_return_to_the_start() {
    let p = Position::new(12, 4);
    for d in ALL {
        assert_eq!(p.step(d).step(d.opposite()), p);
    }
}

#[test]
fn detect_direction_of_each_neighbour() {
    let from = Position::new(4, 10);
    assert_eq!(_detect_direction(&from, &Position::new(4, 11)), Direction::Up);
    assert_eq!(_detect_direction(&from, &Position::new(4, 9)), Direction::Down);
    assert_eq!(_detect_direction(&from, &Position::new(5, 10)), Direction::Right);
    assert_eq!(_detect_direction(&from, &Position::new(3, 10)), Direction::Left);
}

#[test]
fn detect_direction_is_the_step_between_neighbours() {
    let from = Position::new(7, 7);
    for d in ALL {
        assert_eq!(_detect_direction(&from, &from.step(d)), d);
        assert_eq!(_detect_direction(&from.step(d), &from), d.opposite());
    }
}

#[test]
fn detect_direction_looks_at_the_vertical_axis_first() {
    let from = Position::new(0, 0);
    assert_eq!(_detect_direction(&from, &Position::new(5, 1)), Direction::Up);
    assert_eq!(_detect_direction(&from, &Position::new(-5, -1)), Direction::Down);
}

#[test]
fn direction_to_the_same_cell_is_none() {
    let p = Position::new(2, 3);
    assert_eq!(direction_to(&p, &p), None);
    assert_eq!(direction_to(&p, &Position::new(2, 4)), Some(Direction::Up));
}

#[test]
fn adjacency_is_a_distance_of_one_along_one_axis() {
    let p = Position::new(3, 3);
    for d in ALL {
        assert!(is_adjacent(&p, &p.step(d)));
    }
    assert!(!is_adjacent(&p, &p));
    assert!(!is_adjacent(&p, &Position::new(4, 4)));
    assert!(!is_adjacent(&p, &Position::new(5, 3)));
    assert!(!is_adjacent(&Position::new(i32::MIN, 0), &Position::new(i32::MAX, 0)));
}
