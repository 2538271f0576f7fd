use snake_core::food::{
    accept_food, check_food_cell, eats_food, first_free_cell, food_position, is_occupied, respawn_food, spawn_food,
    Food,
};
use snake_core::position::Position;

fn food_cells(list: &[(i32, i32)]) -> Vec<Position> {
    list.iter().map(|&(x, y)| Position::new(x, y)).collect()
}

/// Every cell of the food region of a board of `size` cells, row by row.
fn whole_region(size: i32) -> Vec<Position> {
    let mut all = Vec::new();
    for y in 5..size - 5 {
        for x in 5..size - 5 {
            all.push(Position::new(x, y));
        }
    }
    all
}

#[test]
fn first_food_lies_right_of_the_middle() {
    assert_eq!(spawn_food(20), Food { position: Position::new(15, 10) });
    assert_eq!(spawn_food(31).position, Position::new(20, 15));
}

#[test]
fn drawn_food_lies_in_the_region() {
    for _ in 0..500 {
        let p = food_position(20);
        assert!(5 <= p.x && p.x < 15, "x = {}", p.x);
        assert!(5 <= p.y && p.y < 15, "y = {}", p.y);
    }
}

#[test]
fn drawn_food_on_the_smallest_region_is_its_only_cell() {
    for _ in 0..20 {
        assert_eq!(food_position(11), Position::new(5, 5));
    }
}

#[test]
fn draws_differ_from_each_other_and_from_the_bounds() {
    let mut xs = std::collections::BTreeSet::new();
    let mut ys = std::collections::BTreeSet::new();
    for _ in 0..500 {
        let p = food_position(1000);
        assert!(5 <= p.x && p.x < 995);
        assert!(5 <= p.y && p.y < 995);
        xs.insert(p.x);
        ys.insert(p.y);
    }
    assert!(xs.len() > 1);
    assert!(ys.len() > 1);
}

#[test]
fn occupied_cells_are_found() {
    let snake = food_cells(&[(5, 10), (4, 10), (3, 10)]);
    assert!(is_occupied(&snake, Position::new(5, 10)));
    assert!(is_occupied(&snake, Position::new(3, 10)));
    assert!(!is_occupied(&snake, Position::new(6, 10)));
    assert!(!is_occupied(&food_cells(&[]), Position::new(0, 0)));
}

#[test]
fn a_free_candidate_is_taken_and_an_occupied_one_refused() {
    let snake = food_cells(&[(5, 10), (4, 10), (3, 10)]);
    assert_eq!(
        accept_food(Position::new(7, 7), &snake),
        Some(Food { position: Position::new(7, 7) })
    );
    assert_eq!(accept_food(Position::new(4, 10), &snake), None);
}

#[test]
fn first_free_cell_is_the_corner_of_the_region() {
    let snake = food_cells(&[(5, 10), (4, 10), (3, 10)]);
    assert_eq!(first_free_cell(20, &snake), Some(Position::new(5, 5)));
}

#[test]
fn first_free_cell_skips_occupied_cells_row_by_row() {
    let mut snake = Vec::new();
    for x in 5..15 {
        snake.push(Position::new(x, 5));
    }
    snake.push(Position::new(5, 6));
    snake.push(Position::new(6, 6));
    assert_eq!(first_free_cell(20, &snake), Some(Position::new(7, 6)));
}

#[test]
fn no_free_cell_in_a_covered_region() {
    assert_eq!(first_free_cell(20, &whole_region(20)), None);
    assert_eq!(respawn_food(20, &whole_region(20)), None);
}

#[test]
fn no_food_region_on_a_narrow_board() {
    assert_eq!(first_free_cell(10, &food_cells(&[])), None);
    assert_eq!(respawn_food(10, &food_cells(&[])), None);
    assert_eq!(respawn_food(-4, &food_cells(&[])), None);
}

#[test]
fn respawned_food_lies_in_the_region_and_off_the_snake() {
    let snake = food_cells(&[(7, 7), (7, 8), (7, 9), (8, 9), (9, 9)]);
    for _ in 0..300 {
        let food = respawn_food(20, &snake).expect("the region has free cells");
        let p = food.position;
        assert!(5 <= p.x && p.x < 15 && 5 <= p.y && p.y < 15);
        assert!(!snake.contains(&p));
    }
}

#[test]
fn respawned_food_finds_the_last_free_cell() {
    let mut snake = whole_region(20);
    let free = Position::new(11, 13);
    snake.retain(|p| *p != free);
    for _ in 0..20 {
        assert_eq!(respawn_food(20, &snake), Some(Food { position: free }));
    }
}

#[test]
fn food_is_eaten_on_its_own_cell_only() {
    let food = Some(Food { position: Position::new(15, 10) });
    assert!(eats_food(&Position::new(15, 10), &food));
    assert!(!eats_food(&Position::new(14, 10), &food));
    assert!(!eats_food(&Position::new(15, 11), &food));
    assert!(!eats_food(&Position::new(15, 10), &None));
}

#[test]
fn food_may_lie_in_its_region_or_where_the_first_piece_lies() {
    assert!(check_food_cell(Position::new(5, 5), 20));
    assert!(check_food_cell(Position::new(14, 14), 20));
    assert!(check_food_cell(Position::new(15, 10), 20));
    assert!(!check_food_cell(Position::new(15, 9), 20));
    assert!(!check_food_cell(Position::new(4, 10), 20));
    assert!(!check_food_cell(Position::new(10, 15), 20));
}
