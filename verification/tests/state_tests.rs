use snake_core::score::Score;
use snake_core::state::{
    collision_transition, is_running, play_pressed, state_input_events, GameState, MenuState,
    StateKeys,
};
use snake_core::touch::TouchMap;

const NO_KEYS: StateKeys = StateKeys { pause: false, restart: false, steer: false };
const PAUSE: StateKeys = StateKeys { pause: true, restart: false, steer: false };
const RESTART: StateKeys = StateKeys { pause: false, restart: true, steer: false };
const STEER: StateKeys = StateKeys { pause: false, restart: false, steer: true };
const ALL_KEYS: StateKeys = StateKeys { pause: true, restart: true, steer: true };

const STATES: [GameState; 4] =
    [GameState::BeforeGame, GameState::Playing, GameState::Paused, GameState::GameOver];

#[test]
fn a_game_waits_before_it_starts_with_the_menu_on() {
    assert_eq!(GameState::default(), GameState::BeforeGame);
    assert_eq!(MenuState::default(), MenuState::On);
}

#[test]
fn only_a_game_that_is_played_runs() {
    assert!(is_running(GameState::Playing));
    assert!(!is_running(GameState::BeforeGame));
    assert!(!is_running(GameState::Paused));
    assert!(!is_running(GameState::GameOver));
}

#[test]
fn no_keys_change_nothing() {
    for game in STATES {
        for menu in [MenuState::On, MenuState::Off] {
            assert_eq!(state_input_events(game, menu, NO_KEYS), (game, menu));
        }
    }
}

#[test]
fn pause_key_swaps_playing_and_paused() {
    assert_eq!(
        state_input_events(GameState::Playing, MenuState::Off, PAUSE),
        (GameState::Paused, MenuState::On)
    );
    assert_eq!(
        state_input_events(GameState::Paused, MenuState::On, PAUSE),
        (GameState::Playing, MenuState::Off)
    );
    assert_eq!(
        state_input_events(GameState::BeforeGame, MenuState::On, PAUSE),
        (GameState::BeforeGame, MenuState::On)
    );
    assert_eq!(
        state_input_events(GameState::GameOver, MenuState::On, PAUSE),
        (GameState::GameOver, MenuState::On)
    );
}

#[test]
fn restart_key_leads_out_of_game_over_only() {
    assert_eq!(
        state_input_events(GameState::GameOver, MenuState::On, RESTART),
        (GameState::BeforeGame, MenuState::On)
    );
    for game in [GameState::BeforeGame, GameState::Playing, GameState::Paused] {
        assert_eq!(state_input_events(game, MenuState::Off, RESTART).0, game);
    }
}

#[test]
fn game_over_stays_without_restart() {
    for keys in [NO_KEYS, PAUSE, STEER] {
        for menu in [MenuState::On, MenuState::Off] {
            assert_eq!(state_input_events(GameState::GameOver, menu, keys).0, GameState::GameOver);
        }
    }
}

#[test]
fn steering_starts_a_waiting_game_while_the_menu_is_off() {
    assert_eq!(
        state_input_events(GameState::BeforeGame, MenuState::Off, STEER),
        (GameState::Playing, MenuState::Off)
    );
    assert_eq!(
        state_input_events(GameState::BeforeGame, MenuState::On, STEER),
        (GameState::BeforeGame, MenuState::On)
    );
    assert_eq!(
        state_input_events(GameState::Paused, MenuState::Off, STEER),
        (GameState::Paused, MenuState::Off)
    );
}

#[test]
fn keys_pressed_together_are_read_against_the_same_state() {
    assert_eq!(
        state_input_events(GameState::GameOver, MenuState::Off, ALL_KEYS),
        (GameState::BeforeGame, MenuState::Off)
    );
    assert_eq!(
        state_input_events(GameState::Playing, MenuState::Off, ALL_KEYS),
        (GameState::Paused, MenuState::On)
    );
    assert_eq!(
        state_input_events(GameState::Paused, MenuState::Off, ALL_KEYS),
        (GameState::Playing, MenuState::Off)
    );
    assert_eq!(
        state_input_events(GameState::BeforeGame, MenuState::Off, ALL_KEYS),
        (GameState::Playing, MenuState::Off)
    );
}

#[test]
fn keys_never_end_a_game() {
    for game in [GameState::BeforeGame, GameState::Playing, GameState::Paused] {
        for menu in [MenuState::On, MenuState::Off] {
            for keys in [NO_KEYS, PAUSE, RESTART, STEER, ALL_KEYS] {
                assert_ne!(state_input_events(game, menu, keys).0, GameState::GameOver);
            }
        }
    }
}

#[test]
fn a_collision_ends_the_game_and_brings_the_menu_up() {
    for game in STATES {
        assert_eq!(
            collision_transition(game, MenuState::Off, true),
            (GameState::GameOver, MenuState::On)
        );
        assert_eq!(collision_transition(game, MenuState::Off, false), (game, MenuState::Off));
    }
}

#[test]
fn play_button_resumes_a_paused_game() {
    assert_eq!(play_pressed(GameState::Paused), (GameState::Playing, MenuState::Off));
    assert_eq!(play_pressed(GameState::BeforeGame), (GameState::BeforeGame, MenuState::Off));
    assert_eq!(play_pressed(GameState::GameOver), (GameState::GameOver, MenuState::Off));
    assert_eq!(play_pressed(GameState::Playing), (GameState::Playing, MenuState::Off));
}

#[test]
fn score_starts_at_zero() {
    assert_eq!(Score::default(), Score { value: 0, previous: 0, highest: 0 });
}

#[test]
fn score_counts_food() {
    let mut score = Score::default();
    score.food_eaten();
    score.food_eaten();
    assert_eq!(score, Score { value: 2, previous: 0, highest: 0 });
}

#[test]
fn score_stops_at_the_largest_value() {
    let mut score = Score { value: i32::MAX - 1, previous: 3, highest: 4 };
    score.food_eaten();
    assert_eq!(score.value, i32::MAX);
    score.food_eaten();
    assert_eq!(score, Score { value: i32::MAX, previous: 3, highest: 4 });
}

#[test]
fn game_over_raises_the_best_score() {
    let mut score = Score { value: 7, previous: 2, highest: 5 };
    score.game_over();
    assert_eq!(score, Score { value: 0, previous: 7, highest: 7 });
}

#[test]
fn game_over_keeps_a_better_best_score() {
    let mut score = Score { value: 3, previous: 9, highest: 9 };
    score.game_over();
    assert_eq!(score, Score { value: 0, previous: 3, highest: 9 });
    score.game_over();
    assert_eq!(score, Score { value: 0, previous: 0, highest: 9 });
}

#[test]
fn first_touch_is_latched_and_does_not_steer() {
    let mut touch = TouchMap::default();
    assert_eq!(touch, TouchMap(None));
    assert!(!touch.observe(7));
    assert_eq!(touch, TouchMap(Some(7)));
}

#[test]
fn only_the_latched_touch_steers() {
    let mut touch = TouchMap(Some(7));
    assert!(touch.observe(7));
    assert!(!touch.observe(8));
    assert_eq!(touch, TouchMap(Some(7)));
}

#[test]
fn lifting_the_latched_touch_opens_the_latch() {
    let mut touch = TouchMap(Some(7));
    touch.released(8);
    assert_eq!(touch, TouchMap(Some(7)));
    touch.released(7);
    assert_eq!(touch, TouchMap(None));
    touch.released(7);
    assert_eq!(touch, TouchMap(None));
}

#[test]
fn an_empty_screen_opens_the_latch() {
    let mut touch = TouchMap(Some(7));
    touch.touches_on_screen(2);
    assert_eq!(touch, TouchMap(Some(7)));
    touch.touches_on_screen(0);
    assert_eq!(touch, TouchMap(None));
}
