use snake_core::heading::{SnakeHeadDirection, MAX_QUEUED};
use snake_core::position::Direction;

const ALL: [Direction; 4] = [Direction::Up, Direction::Down, Direction::Left, Direction::Right];

#[test]
fn default_heading_travels_right_with_one_right_queued() {
    let h = SnakeHeadDirection::default();
    assert_eq!(h.current(), Direction::Right);
    assert_eq!(h.queued(), vec![Direction::Right]);
}

#[test]
fn facing_has_nothing_queued() {
    let h = SnakeHeadDirection::facing(Direction::Down);
    assert_eq!(h.current(), Direction::Down);
    assert!(h.queued().is_empty());
}

#[test]
fn up_then_down_leaves_only_up() {
    let mut h = SnakeHeadDirection::facing(Direction::Right);
    h.queue_direction(Direction::Up);
    h.queue_direction(Direction::Down);
    assert_eq!(h.queued(), vec![Direction::Up]);
    assert_eq!(h.current(), Direction::Right);
}

#[test]
fn up_then_down_after_the_first_tick_of_a_new_snake() {
    let mut h = SnakeHeadDirection::default();
    h.consume_one();
    assert_eq!(h.current(), Direction::Right);
    h.queue_direction(Direction::Up);
    h.queue_direction(Direction::Down);
    assert_eq!(h.queued(), vec![Direction::Up]);
}

#[test]
fn reversal_of_current_is_refused_on_an_empty_queue() {
    for d in ALL {
        let mut h = SnakeHeadDirection::facing(d);
        h.queue_direction(d.opposite());
        assert!(h.queued().is_empty());
        assert_eq!(h.current(), d);
    }
}

#[test]
fn only_the_last_queued_direction_is_compared() {
    let mut h = SnakeHeadDirection::facing(Direction::Right);
    h.queue_direction(Direction::Up);
    h.queue_direction(Direction::Left);
    assert_eq!(h.queued(), vec![Direction::Up, Direction::Left]);
}

#[test]
fn same_direction_may_be_queued_again() {
    let mut h = SnakeHeadDirection::facing(Direction::Right);
    h.queue_direction(Direction::Right);
    h.queue_direction(Direction::Right);
    assert_eq!(h.queued(), vec![Direction::Right, Direction::Right]);
}

#[test]
fn queue_holds_at_most_three() {
    let mut h = SnakeHeadDirection::facing(Direction::Right);
    h.queue_direction(Direction::Up);
    h.queue_direction(Direction::Left);
    h.queue_direction(Direction::Down);
    assert_eq!(h.queued().len(), MAX_QUEUED);
    h.queue_direction(Direction::Right);
    assert_eq!(h.queued(), vec![Direction::Up, Direction::Left, Direction::Down]);
}

#[test]
fn consume_one_takes_the_first_queued_direction() {
    let mut h = SnakeHeadDirection::facing(Direction::Right);
    h.queue_direction(Direction::Up);
    h.queue_direction(Direction::Left);
    h.consume_one();
    assert_eq!(h.current(), Direction::Up);
    assert_eq!(h.queued(), vec![Direction::Left]);
    h.consume_one();
    assert_eq!(h.current(), Direction::Left);
    assert!(h.queued().is_empty());
}

#[test]
fn consume_one_on_an_empty_queue_keeps_the_direction() {
    let mut h = SnakeHeadDirection::facing(Direction::Down);
    h.consume_one();
    assert_eq!(h.current(), Direction::Down);
    assert!(h.queued().is_empty());
}

/// Offers every run of up to five directions, with a take after each of the
/// first `takes_after` offers, and checks each take.
fn run_never_reverses(start: Direction, offers: &[Direction]) {
    for takes_after in 0..=offers.len() {
        let mut h = SnakeHeadDirection::facing(start);
        for (i, d) in offers.iter().enumerate() {
            h.queue_direction(*d);
            assert!(h.queued().len() <= MAX_QUEUED);
            if i < takes_after {
                let before = h.current();
                h.consume_one();
                assert_ne!(h.current(), before.opposite());
            }
        }
        while !h.queued().is_empty() {
            let before = h.current();
            h.consume_one();
            assert_ne!(h.current(), before.opposite());
        }
    }
}

#[test]
fn no_run_of_inputs_reverses_the_head() {
    for start in ALL {
        for a in ALL {
            for b in ALL {
                for c in ALL {
                    for d in ALL {
                        for e in ALL {
                            run_never_reverses(start, &[a, b, c, d, e]);
                        }
                    }
                }
            }
        }
    }
}
