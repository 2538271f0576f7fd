//! The life cycle of a game and of the menu in front of it.
//!
//! A game waits in `BeforeGame`, runs in `Playing`, rests in `Paused` and
//! ends in `GameOver`. Only a collision leads into `GameOver` and only a
//! restart leads out of it, back to `BeforeGame`.

use vstd::prelude::*;

verus! {

#[derive(Clone, Copy, Debug, Hash, PartialEq, Eq, Structural)]
pub enum GameState {
    Playing,
    BeforeGame,
    Paused,
    GameOver,
}

#[derive(Clone, Copy, Debug, Hash, PartialEq, Eq, Structural)]
pub enum MenuState {
    On,
    Off,
}

impl Default for GameState {
    fn default() -> (s: Self)
        ensures
            s == GameState::BeforeGame,
    {
        GameState::BeforeGame
    }
}

impl Default for MenuState {
    fn default() -> (s: Self)
        ensures
            s == MenuState::On,
    {
        MenuState::On
    }
}

/// The keys that matter to the life cycle, as they were pressed since the
/// last look.
#[derive(Clone, Copy, Debug, PartialEq, Eq, Structural)]
pub struct StateKeys {
    /// The pause key was pressed.
    pub pause: bool,
    /// The restart key was pressed.
    pub restart: bool,
    /// One of the keys that steer was pressed.
    pub steer: bool,
}

/// The game state after the keys `keys`, seen in state `game` with the menu
/// in state `menu`. The pause key swaps `Playing` and `Paused`. The restart
/// key leads from `GameOver` to `BeforeGame`. A key that steers starts a
/// waiting game, but only while the menu is off.
pub open spec fn game_after_keys(game: GameState, menu: MenuState, keys: StateKeys) -> GameState {
    match game {
        GameState::Playing => if keys.pause {
            GameState::Paused
        } else {
            GameState::Playing
        },
        GameState::Paused => if keys.pause {
            GameState::Playing
        } else {
            GameState::Paused
        },
        GameState::GameOver => if keys.restart {
            GameState::BeforeGame
        } else {
            GameState::GameOver
        },
        GameState::BeforeGame => if keys.steer && menu == MenuState::Off {
            GameState::Playing
        } else {
            GameState::BeforeGame
        },
    }
}

/// The menu state after the keys `keys`, seen in state `game` with the menu
/// in state `menu`. The menu comes up when the game is paused and goes away
/// when the game goes on.
pub open spec fn menu_after_keys(game: GameState, menu: MenuState, keys: StateKeys) -> MenuState {
    if keys.pause && game == GameState::Playing {
        MenuState::On
    } else if keys.pause && game == GameState::Paused {
        MenuState::Off
    } else {
        menu
    }
}

/// Whether ticks advance the snake in state `game`.
pub open spec fn spec_is_running(game: GameState) -> bool {
    game == GameState::Playing
}

/// Whether ticks advance the snake in state `game`.
#[verifier::when_used_as_spec(spec_is_running)]
pub fn is_running(game: GameState) -> (b: bool)
    ensures
        b == spec_is_running(game),
{
    game == GameState::Playing
}

/// The states after the keys `keys`. All keys are read against the state in
/// which they were seen, so at most one of them moves the game.
pub fn state_input_events(game: GameState, menu: MenuState, keys: StateKeys) -> (next: (
    GameState,
    MenuState,
))
    ensures
        next.0 == game_after_keys(game, menu, keys),
        next.1 == menu_after_keys(game, menu, keys),
{
    let mut next_game = game;
    let mut next_menu = menu;
    if keys.pause {
        match game {
            GameState::Playing => {
                next_game = GameState::Paused;
                next_menu = MenuState::On;
            },
            GameState::Paused => {
                next_game = GameState::Playing;
                next_menu = MenuState::Off;
            },
            _ => {},
        }
    }
    if keys.restart {
        match game {
            GameState::GameOver => {
                next_game = GameState::BeforeGame;
            },
            _ => {},
        }
    }
    if menu == MenuState::Off && keys.steer {
        match game {
            GameState::BeforeGame => {
                next_game = GameState::Playing;
            },
            _ => {},
        }
    }
    (next_game, next_menu)
}

/// The game state after the collision check found `hit`. A hit ends the
/// game; ending a game that is over already changes nothing.
pub open spec fn game_after_collision(game: GameState, hit: bool) -> GameState {
    if hit {
        GameState::GameOver
    } else {
        game
    }
}

/// The states after the collision check found `hit`. A hit ends the game and
/// brings the menu up.
pub fn collision_transition(game: GameState, menu: MenuState, hit: bool) -> (next: (
    GameState,
    MenuState,
))
    ensures
        next.0 == game_after_collision(game, hit),
        next.1 == if hit {
            MenuState::On
        } else {
            menu
        },
{
    if hit {
        (GameState::GameOver, MenuState::On)
    } else {
        (game, menu)
    }
}

/// The states after the menu's play button was pressed in state `game`: a
/// paused game goes on, and the menu goes away.
pub fn play_pressed(game: GameState) -> (next: (GameState, MenuState))
    ensures
        next.0 == if game == GameState::Paused {
            GameState::Playing
        } else {
            game
        },
        next.1 == MenuState::Off,
{
    match game {
        GameState::Paused => (GameState::Playing, MenuState::Off),
        _ => (game, MenuState::Off),
    }
}

/// Keys never lead into `GameOver`, and lead out of it only by the restart
/// key, to `BeforeGame`. A game that waits in `BeforeGame` starts only by a
/// key that steers.
pub proof fn lemma_game_over_is_left_by_restart_only(
    game: GameState,
    menu: MenuState,
    keys: StateKeys,
)
    ensures
        game != GameState::GameOver ==> game_after_keys(game, menu, keys) != GameState::GameOver,
        game == GameState::GameOver && !keys.restart ==> game_after_keys(game, menu, keys)
            == GameState::GameOver,
        game == GameState::GameOver && keys.restart ==> game_after_keys(game, menu, keys)
            == GameState::BeforeGame,
        game != GameState::GameOver ==> game_after_keys(game, menu, keys) != GameState::BeforeGame
            || game == GameState::BeforeGame,
{
}

} // verus!
