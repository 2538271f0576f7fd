//! The whole game as one value, and the tick that advances it.
//!
//! A tick runs four steps in a fixed order: the head takes the next queued
//! direction and the body advances; collisions are looked for; food is
//! eaten and placed anew; and the tiles can then be read off the new body.
//! While the game is not being played a tick does nothing.

use vstd::prelude::*;
use crate::board::{in_inset, on_board, Board, MIN_BOARD_SIZE};
use crate::body::{
    advance, advanced, can_grow, check_chain, check_unfolded, extension_cell, grow, grown,
    is_chain, is_unfolded, lemma_advanced_keeps_shape, lemma_extension_cell,
    lemma_grown_keeps_shape, snake_starting_position, starting_cells,
};
use crate::collision::{collision_detection, has_collided, hits_self, hits_wall};
use crate::food::{
    check_food_cell, eats_food, first_food_cell, food_region_is_full, is_food_cell, respawn_food,
    spawn_food, Food,
};
use crate::heading::{
    lemma_consume_keeps_wf, lemma_queue_keeps_wf, HeadingModel, SnakeHeadDirection,
};
use crate::position::{Direction, Position};
use crate::sprite::{snake_sprites, spec_segment_sprite, SpritePart};
use crate::state::{
    game_after_keys, is_running, menu_after_keys, play_pressed, state_input_events, GameState,
    MenuState, StateKeys,
};

verus! {

/// What a `SimulationState` stands for.
#[verifier::ext_equal]
pub struct SimulationModel {
    /// Edge length of the board, in cells.
    pub size: int,
    /// The cells of the snake, head first.
    pub segments: Seq<Position>,
    /// The head's direction of travel and the directions queued behind it.
    pub heading: HeadingModel,
    /// The cell of the food, if any lies on the board.
    pub food: Option<Position>,
    /// Where the game is in its life cycle.
    pub game: GameState,
}

/// What a tick did.
#[derive(Clone, Copy, Debug, PartialEq, Eq, Structural)]
pub struct TickOutcome {
    /// The snake advanced: the game was being played.
    pub advanced: bool,
    /// The head hit a wall or the snake itself, and the game is over.
    pub collided: bool,
    /// The head reached the food, and the snake has grown by one segment.
    pub ate: bool,
}

/// Whether every cell of `s` lies on a board of `size` cells or just one
/// cell beyond its edge.
pub open spec fn near_board(s: Seq<Position>, size: int) -> bool {
    forall|i: int| 0 <= i < s.len() ==> -1 <= (#[trigger] s[i]).x <= size && -1 <= s[i].y <= size
}

/// Whether every cell of `s` but the last lies on a board of `size` cells.
pub open spec fn on_board_but_last(s: Seq<Position>, size: int) -> bool {
    forall|i: int| 0 <= i < s.len() - 1 ==> on_board(#[trigger] s[i], size)
}

impl SimulationModel {
    /// The invariant of the game.
    ///
    /// The board has at least `MIN_BOARD_SIZE` cells a side. The snake has a
    /// head and a tail, its segments form a chain of neighbouring cells that
    /// never folds back onto itself, and the head has come from the segment
    /// behind it in its direction of travel. The queue of directions is well
    /// formed. No segment is further than one cell off the board, and until
    /// the game is over only the last one, a tail that has just grown, may be
    /// off it at all. Food lies in the food region, or where the first piece
    /// of a game lies, and on no segment.
    pub open spec fn wf(self) -> bool {
        &&& MIN_BOARD_SIZE <= self.size <= i32::MAX
        &&& self.segments.len() >= 2
        &&& is_chain(self.segments)
        &&& is_unfolded(self.segments)
        &&& self.segments[1].can_step(self.heading.current)
        &&& self.segments[0] == self.segments[1].spec_step(self.heading.current)
        &&& self.heading.wf()
        &&& near_board(self.segments, self.size)
        &&& self.game != GameState::GameOver ==> on_board_but_last(self.segments, self.size)
        &&& self.food matches Some(p) ==> is_food_cell(p, self.size) && !self.segments.contains(p)
    }

    /// Whether a tick advances the snake.
    pub open spec fn running(self) -> bool {
        self.game == GameState::Playing
    }

    /// The direction in which the head steps at the next tick: the first
    /// queued direction, or the present one if none is queued.
    pub open spec fn next_direction(self) -> Direction {
        self.heading.consume().current
    }

    /// The body after the movement of the next tick, before any growth.
    pub open spec fn moved_body(self) -> Seq<Position> {
        advanced(self.segments, self.next_direction())
    }

    /// Whether the movement of the next tick ends in a collision.
    pub open spec fn collides(self) -> bool {
        has_collided(self.moved_body(), self.size)
    }

    /// Whether the movement of the next tick brings the head onto the food.
    pub open spec fn eats(self) -> bool {
        self.food == Some(self.moved_body()[0])
    }

    /// The body after the next tick: moved, and grown if the head reached
    /// the food.
    pub open spec fn body_after_tick(self) -> Seq<Position> {
        if self.eats() {
            grown(self.moved_body())
        } else {
            self.moved_body()
        }
    }

    /// Whether `food` may be what lies on the board after the next tick.
    /// Food that is not eaten stays. Food that is eaten is replaced by a
    /// piece in the food region on which no segment lies, the new one
    /// included; it is replaced by nothing only where the snake covers the
    /// whole region.
    pub open spec fn food_may_become(self, food: Option<Position>) -> bool {
        if self.running() && self.eats() {
            match food {
                Some(p) => in_inset(p, self.size) && !self.body_after_tick().contains(p),
                None => food_region_is_full(self.size, self.body_after_tick()),
            }
        } else {
            food == self.food
        }
    }

    /// The game after the next tick, given the food `food` that lies on the
    /// board after it. A game that is not being played is left as it is.
    pub open spec fn after_tick(self, food: Option<Position>) -> SimulationModel {
        if self.running() {
            SimulationModel {
                size: self.size,
                segments: self.body_after_tick(),
                heading: self.heading.consume(),
                food: food,
                game: if self.collides() {
                    GameState::GameOver
                } else {
                    GameState::Playing
                },
            }
        } else {
            SimulationModel { food: food, ..self }
        }
    }

    /// What the next tick reports.
    pub open spec fn outcome(self) -> TickOutcome {
        TickOutcome {
            advanced: self.running(),
            collided: self.running() && self.collides(),
            ate: self.running() && self.eats(),
        }
    }

    /// The game after direction `d` was offered. While the game is being
    /// played the direction goes to the queue, which takes or refuses it.
    /// In every other state of the game it is dropped.
    pub open spec fn after_steer(self, d: Direction) -> SimulationModel {
        if self.running() {
            SimulationModel { heading: self.heading.queue(d), ..self }
        } else {
            self
        }
    }

    /// The game after the keys `keys`, seen with the menu in state `menu`.
    /// A restart sets up a new game on the same board. Every other change
    /// of state leaves the snake and the food as they are.
    pub open spec fn after_keys(self, menu: MenuState, keys: StateKeys) -> SimulationModel {
        if self.game == GameState::GameOver && keys.restart {
            Self::fresh(self.size)
        } else {
            SimulationModel { game: game_after_keys(self.game, menu, keys), ..self }
        }
    }

    /// The game after the menu's play button was pressed: a paused game
    /// goes on.
    pub open spec fn after_play(self) -> SimulationModel {
        if self.game == GameState::Paused {
            SimulationModel { game: GameState::Playing, ..self }
        } else {
            self
        }
    }

    /// A game that waits to be started on a board of `size` cells.
    pub open spec fn fresh(size: int) -> SimulationModel {
        SimulationModel {
            size: size,
            segments: starting_cells(size),
            heading: HeadingModel { current: Direction::Right, pending: seq![Direction::Right] },
            food: Some(first_food_cell(size)),
            game: GameState::BeforeGame,
        }
    }
}

/// A new game is well formed on every board that is large enough.
pub proof fn lemma_fresh_is_wf(size: int)
    requires
        MIN_BOARD_SIZE <= size <= i32::MAX,
    ensures
        SimulationModel::fresh(size).wf(),
{
    let s = SimulationModel::fresh(size).segments;
    let f = first_food_cell(size);
    assert forall|i: int| 0 <= i < s.len() implies s[i] != f by {}
}

/// While the game is being played, the head can step in any direction
/// without leaving the range of the coordinates, the moved body can grow,
/// and a head that reaches the food has not collided.
pub proof fn lemma_tick_is_defined(before: SimulationModel)
    requires
        before.wf(),
        before.running(),
    ensures
        forall|d: Direction| before.segments[0].can_step(d),
        before.moved_body().len() == before.segments.len(),
        is_chain(before.moved_body()),
        can_grow(before.moved_body()),
        before.eats() ==> !before.collides(),
{
    let m = before.moved_body();
    lemma_advanced_keeps_shape(before.segments, before.next_direction());
    if before.eats() && hits_self(m) {
        // The segment under the head was a segment before the move, and the
        // food lay on none of them.
        let i = choose|i: int| 1 <= i < m.len() && #[trigger] m[i] == m[0];
        assert(before.segments.contains(m[i]));
    }
}

/// A tick keeps the invariant of the game, whatever food comes to lie on the
/// board, as long as it is food that may.
pub proof fn lemma_tick_keeps_wf(before: SimulationModel, food: Option<Position>)
    requires
        before.wf(),
        before.food_may_become(food),
    ensures
        before.after_tick(food).wf(),
{
    if before.running() {
        let s = before.segments;
        let d = before.next_direction();
        let m = before.moved_body();
        lemma_tick_is_defined(before);
        lemma_consume_keeps_wf(before.heading);
        lemma_advanced_keeps_shape(s, d);
        // The head does not step back onto the segment behind it.
        assert(s[0].spec_step(d) != s[1]) by {
            crate::position::lemma_step_is_neighbour(s[1], before.heading.current);
        }
        assert(near_board(m, before.size));
        if !before.collides() {
            assert forall|i: int| 0 <= i < m.len() implies on_board(#[trigger] m[i], before.size) by {}
        }
        if before.eats() {
            lemma_grown_keeps_shape(m);
            lemma_extension_cell(m);
            assert(near_board(grown(m), before.size));
            assert(on_board_but_last(grown(m), before.size));
        } else if let Some(p) = before.food {
            // Food that is not eaten lies on no segment after the move: the
            // head has not reached it, and the others were segments before.
            if m.contains(p) {
                let i = choose|i: int| 0 <= i < m.len() && m[i] == p;
                assert(s.contains(m[i]));
            }
        }
    }
}

/// The whole game: the board, the snake and its heading, the food, and where
/// the game is in its life cycle.
#[derive(Clone, Debug, PartialEq, Eq)]
pub struct SimulationState {
    board: Board,
    segments: Vec<Position>,
    heading: SnakeHeadDirection,
    food: Option<Food>,
    game: GameState,
}

/// The cell of a piece of food, if there is one.
pub open spec fn food_cell(food: Option<Food>) -> Option<Position> {
    match food {
        Some(f) => Some(f.position),
        None => None,
    }
}

impl View for SimulationState {
    type V = SimulationModel;

    closed spec fn view(&self) -> SimulationModel {
        SimulationModel {
            size: self.board.size as int,
            segments: self.segments@,
            heading: self.heading@,
            food: food_cell(self.food),
            game: self.game,
        }
    }
}

impl SimulationState {
    /// A game that waits to be started on a board of `board_size` cells: a
    /// snake of three segments that travels to the right, and one piece of
    /// food. `None` for a board of fewer than `MIN_BOARD_SIZE` cells.
    pub fn new(board_size: i32) -> (state: Option<Self>)
        ensures
            match state {
                Some(s) => s@ == SimulationModel::fresh(board_size as int) && s@.wf(),
                None => board_size < MIN_BOARD_SIZE,
            },
            state is Some <==> board_size >= MIN_BOARD_SIZE,
    {
        if board_size < MIN_BOARD_SIZE {
            return None;
        }
        let state = SimulationState {
            board: Board::new(board_size),
            segments: snake_starting_position(board_size),
            heading: SnakeHeadDirection::default(),
            food: Some(spawn_food(board_size)),
            game: GameState::BeforeGame,
        };
        proof {
            lemma_fresh_is_wf(board_size as int);
        }
        Some(state)
    }

    /// The board that the game is played on.
    pub fn board(&self) -> (b: Board)
        ensures
            b.size == self@.size,
    {
        self.board
    }

    /// The cells of the snake, head first.
    pub fn segments(&self) -> (cells: &Vec<Position>)
        ensures
            cells@ == self@.segments,
    {
        &self.segments
    }

    /// The cell of the head.
    pub fn head(&self) -> (p: Position)
        requires
            self@.wf(),
        ensures
            p == self@.segments[0],
    {
        self.segments[0]
    }

    /// The direction in which the head travels.
    pub fn direction(&self) -> (d: Direction)
        ensures
            d == self@.heading.current,
    {
        self.heading.current()
    }

    /// The directions that wait to be taken, the next one first.
    pub fn queued_directions(&self) -> (v: Vec<Direction>)
        ensures
            v@ == self@.heading.pending,
    {
        self.heading.queued()
    }

    /// The cell of the food, if any lies on the board.
    pub fn food(&self) -> (p: Option<Position>)
        ensures
            p == self@.food,
    {
        match self.food {
            Some(f) => Some(f.position),
            None => None,
        }
    }

    /// Where the game is in its life cycle.
    pub fn game_state(&self) -> (g: GameState)
        ensures
            g == self@.game,
    {
        self.game
    }

    /// Advances the game by one tick.
    ///
    /// While the game is being played, the head takes the next queued
    /// direction and steps one cell, and the body follows. If the head has
    /// left the board or landed on the snake, the game is over. If the head
    /// has reached the food, the snake grows by one segment behind its tail
    /// and new food is placed where no segment lies. In every other state of
    /// the game nothing happens.
    pub fn tick(&mut self) -> (outcome: TickOutcome)
        requires
            old(self)@.wf(),
        ensures
            final(self)@.wf(),
            final(self)@ == old(self)@.after_tick(final(self)@.food),
            old(self)@.food_may_become(final(self)@.food),
            outcome == old(self)@.outcome(),
    {
        if !is_running(self.game) {
            return TickOutcome { advanced: false, collided: false, ate: false };
        }
        proof {
            lemma_tick_is_defined(old(self)@);
        }
        self.heading.consume_one();
        let d = self.heading.current();
        advance(&mut self.segments, d);
        let hit = collision_detection(&self.segments, self.board.size);
        if hit {
            self.game = GameState::GameOver;
        }
        let ate = eats_food(&self.segments[0], &self.food);
        if ate {
            grow(&mut self.segments);
            self.food = respawn_food(self.board.size, &self.segments);
        }
        proof {
            lemma_tick_keeps_wf(old(self)@, self@.food);
        }
        TickOutcome { advanced: true, collided: hit, ate }
    }

    /// Offers direction `d` to the head. Input steers only while the game is
    /// being played; then the queue takes the direction or refuses it.
    pub fn steer(&mut self, d: Direction)
        requires
            old(self)@.wf(),
        ensures
            final(self)@ == old(self)@.after_steer(d),
            final(self)@.wf(),
    {
        if is_running(self.game) {
            proof {
                lemma_queue_keeps_wf(self@.heading, d);
            }
            self.heading.queue_direction(d);
        }
    }

    /// Applies the keys `keys`, seen with the menu in state `menu`, and
    /// returns the state of the menu after them. A restart out of a game
    /// that is over sets up a new snake, a new heading and new food.
    pub fn apply_keys(&mut self, menu: MenuState, keys: StateKeys) -> (next_menu: MenuState)
        requires
            old(self)@.wf(),
        ensures
            final(self)@ == old(self)@.after_keys(menu, keys),
            final(self)@.wf(),
            next_menu == menu_after_keys(old(self)@.game, menu, keys),
    {
        let (next_game, next_menu) = state_input_events(self.game, menu, keys);
        if self.game == GameState::GameOver && next_game == GameState::BeforeGame {
            self.segments = snake_starting_position(self.board.size);
            self.heading = SnakeHeadDirection::default();
            self.food = Some(spawn_food(self.board.size));
            proof {
                lemma_fresh_is_wf(self.board.size as int);
            }
        }
        self.game = next_game;
        next_menu
    }

    /// The menu's play button was pressed: a paused game goes on. Returns
    /// the state of the menu after it, which is off.
    pub fn press_play(&mut self) -> (next_menu: MenuState)
        requires
            old(self)@.wf(),
        ensures
            final(self)@ == old(self)@.after_play(),
            final(self)@.wf(),
            next_menu == MenuState::Off,
    {
        let (next_game, next_menu) = play_pressed(self.game);
        self.game = next_game;
        next_menu
    }

    /// The tiles of the snake, head first: a head tile by the direction of
    /// travel, a tail tile by the direction in which the tail follows, and
    /// for each segment between them the body tile that joins its two
    /// neighbours.
    pub fn sprites(&self) -> (tiles: Vec<SpritePart>)
        requires
            self@.wf(),
        ensures
            tiles@.len() == self@.segments.len(),
            forall|i: int|
                0 <= i < tiles@.len() ==> spec_segment_sprite(
                    self@.segments,
                    self@.heading.current,
                    i,
                ) == Some(#[trigger] tiles@[i]),
    {
        snake_sprites(&self.segments, self.heading.current())
    }

    /// A game made of the given parts, with nothing queued behind the head:
    /// the snake in `segments`, head first, travelling in direction
    /// `current`. `None` where the parts break the invariant of the game.
    pub fn from_parts(
        board_size: i32,
        segments: Vec<Position>,
        current: Direction,
        food: Option<Position>,
        game: GameState,
    ) -> (state: Option<Self>)
        ensures
            match state {
                Some(s) => s@ == parts_model(board_size as int, segments@, current, food, game)
                    && s@.wf(),
                None => !parts_model(board_size as int, segments@, current, food, game).wf(),
            },
    {
        if board_size < MIN_BOARD_SIZE || segments.len() < 2 {
            return None;
        }
        if !check_chain(&segments) || !check_unfolded(&segments) {
            return None;
        }
        if !check_near_board(&segments, board_size) {
            return None;
        }
        if game != GameState::GameOver && !check_on_board_but_last(&segments, board_size) {
            return None;
        }
        let neck = segments[1];
        let head = segments[0];
        proof {
            crate::position::lemma_direction_between_neighbours(neck, head);
        }
        if crate::position::_detect_direction(&neck, &head) != current {
            return None;
        }
        let food = match food {
            Some(p) => {
                if !check_food_cell(p, board_size) || crate::food::is_occupied(&segments, p) {
                    return None;
                }
                Some(Food { position: p })
            },
            None => None,
        };
        Some(
            SimulationState {
                board: Board::new(board_size),
                segments,
                heading: SnakeHeadDirection::facing(current),
                food,
                game,
            },
        )
    }
}

/// The game that `from_parts` is asked for.
pub open spec fn parts_model(
    size: int,
    segments: Seq<Position>,
    current: Direction,
    food: Option<Position>,
    game: GameState,
) -> SimulationModel {
    SimulationModel {
        size: size,
        segments: segments,
        heading: HeadingModel { current: current, pending: Seq::empty() },
        food: food,
        game: game,
    }
}

/// Whether each of `segments` lies on a board of `board_size` cells or just
/// one cell beyond its edge.
pub fn check_near_board(segments: &Vec<Position>, board_size: i32) -> (ok: bool)
    ensures
        ok == near_board(segments@, board_size as int),
{
    let mut i: usize = 0;
    while i < segments.len()
        invariant
            i <= segments.len(),
            forall|k: int|
                0 <= k < i ==> -1 <= (#[trigger] segments@[k]).x <= board_size && -1
                    <= segments@[k].y <= board_size,
        decreases segments.len() - i,
    {
        let p = segments[i];
        if p.x < -1 || p.x > board_size || p.y < -1 || p.y > board_size {
            return false;
        }
        i = i + 1;
    }
    true
}

/// Whether each of `segments` but the last lies on a board of `board_size`
/// cells.
pub fn check_on_board_but_last(segments: &Vec<Position>, board_size: i32) -> (ok: bool)
    ensures
        ok == on_board_but_last(segments@, board_size as int),
{
    let board = Board::new(board_size);
    let last: usize = if segments.len() == 0 {
        0
    } else {
        segments.len() - 1
    };
    let mut i: usize = 0;
    while i < last
        invariant
            board.size == board_size,
            i <= last,
            last == if segments@.len() == 0 {
                0
            } else {
                segments@.len() - 1
            },
            forall|k: int| 0 <= k < i ==> on_board(#[trigger] segments@[k], board_size as int),
        decreases last - i,
    {
        if !board.contains(segments[i]) {
            return false;
        }
        i = i + 1;
    }
    true
}

/// Steering, keys and the play button keep the invariant of the game.
pub proof fn lemma_input_keeps_wf(
    before: SimulationModel,
    d: Direction,
    menu: MenuState,
    keys: StateKeys,
)
    requires
        before.wf(),
    ensures
        before.after_steer(d).wf(),
        before.after_keys(menu, keys).wf(),
        before.after_play().wf(),
{
    lemma_queue_keeps_wf(before.heading, d);
    lemma_fresh_is_wf(before.size);
}

/// Length is kept: a tick in which no food is eaten leaves the snake with as
/// many segments as it had.
pub proof fn lemma_length_kept_without_food(before: SimulationModel, food: Option<Position>)
    requires
        before.wf(),
        !before.outcome().ate,
    ensures
        before.after_tick(food).segments.len() == before.segments.len(),
{
    if before.running() {
        lemma_tick_is_defined(before);
    }
}

/// Growth: a tick in which food is eaten adds exactly one segment, at the
/// end, and leaves the moved segments where they are. The new segment is the
/// cell beyond the tail; it is neither the tail nor the segment before it,
/// and the new food does not lie on it.
pub proof fn lemma_growth_adds_one_segment(before: SimulationModel, food: Option<Position>)
    requires
        before.wf(),
        before.outcome().ate,
        before.food_may_become(food),
    ensures
        ({
            let after = before.after_tick(food);
            let n = before.segments.len() as int;
            &&& after.segments.len() == n + 1
            &&& forall|i: int| 0 <= i < n ==> after.segments[i] == before.moved_body()[i]
            &&& after.segments[n] == extension_cell(before.moved_body())
            &&& after.segments[n] != after.segments[n - 1]
            &&& after.segments[n] != after.segments[n - 2]
            &&& after.food != Some(after.segments[n])
        }),
{
    let after = before.after_tick(food);
    let m = before.moved_body();
    lemma_tick_is_defined(before);
    lemma_grown_keeps_shape(m);
    lemma_extension_cell(m);
    // The new food lies on no segment, so not on the new one.
    assert(after.segments.contains(after.segments[before.segments.len() as int]));
}

/// Growth onto a free cell: where no segment of the moved snake lies on the
/// cell beyond its tail, the new segment lies on no other segment.
pub proof fn lemma_new_segment_is_apart(before: SimulationModel, food: Option<Position>)
    requires
        before.wf(),
        before.outcome().ate,
        !before.moved_body().contains(extension_cell(before.moved_body())),
    ensures
        forall|i: int|
            0 <= i < before.segments.len() ==> #[trigger] before.after_tick(food).segments[i]
                != before.after_tick(food).segments[before.segments.len() as int],
{
    let after = before.after_tick(food);
    let m = before.moved_body();
    let n = before.segments.len() as int;
    lemma_tick_is_defined(before);
    lemma_grown_keeps_shape(m);
    assert forall|i: int| 0 <= i < n implies #[trigger] after.segments[i] != after.segments[n] by {
        assert(m.contains(m[i]));
    }
}

/// Wall collision: a head that steps off the board ends the game in the same
/// tick.
pub proof fn lemma_wall_collision_ends_game(before: SimulationModel, food: Option<Position>)
    requires
        before.wf(),
        before.running(),
        hits_wall(before.moved_body()[0], before.size),
    ensures
        before.after_tick(food).game == GameState::GameOver,
        before.outcome().collided,
{
    lemma_tick_is_defined(before);
}

/// Self collision: a head that steps onto another segment ends the game in
/// the same tick.
pub proof fn lemma_self_collision_ends_game(before: SimulationModel, food: Option<Position>)
    requires
        before.wf(),
        before.running(),
        hits_self(before.moved_body()),
    ensures
        before.after_tick(food).game == GameState::GameOver,
        before.outcome().collided,
{
    lemma_tick_is_defined(before);
}

/// A tick ends the game only by a collision, and a tick leaves a game alone
/// that is not being played.
pub proof fn lemma_game_ends_by_collision_only(before: SimulationModel, food: Option<Position>)
    requires
        before.wf(),
        before.food_may_become(food),
    ensures
        before.game != GameState::GameOver && before.after_tick(food).game == GameState::GameOver
            ==> before.outcome().collided,
        !before.running() ==> before.after_tick(food) == before,
{
}

/// A game that is over stays over, and as it is, under ticks, steering, the
/// play button and every key but the restart key. The restart key sets up a
/// new game on the same board.
pub proof fn lemma_finished_game_waits_for_restart(
    before: SimulationModel,
    food: Option<Position>,
    d: Direction,
    menu: MenuState,
    keys: StateKeys,
)
    requires
        before.game == GameState::GameOver,
        before.food_may_become(food),
    ensures
        before.after_tick(food) == before,
        before.after_steer(d) == before,
        before.after_play() == before,
        !keys.restart ==> before.after_keys(menu, keys) == before,
        keys.restart ==> before.after_keys(menu, keys) == SimulationModel::fresh(before.size),
{
}

/// The head never turns back: at a tick it does not reverse its direction
/// of travel, so it does not step onto the segment behind it.
pub proof fn lemma_head_never_turns_back(before: SimulationModel, food: Option<Position>)
    requires
        before.wf(),
        before.running(),
    ensures
        before.after_tick(food).heading.current != before.heading.current.opposite(),
        before.after_tick(food).segments[0] != before.segments[1],
        before.after_tick(food).segments[1] == before.segments[0],
{
    lemma_tick_is_defined(before);
    lemma_consume_keeps_wf(before.heading);
    lemma_advanced_keeps_shape(before.segments, before.next_direction());
    crate::position::lemma_step_is_neighbour(before.segments[1], before.heading.current);
    if before.eats() {
        lemma_grown_keeps_shape(before.moved_body());
    }
}

/// One thing that can happen to a game.
pub enum SimulationInput {
    /// A tick, after which `food` lies on the board.
    Tick { food: Option<Position> },
    /// A direction is offered to the head.
    Steer(Direction),
    /// Keys are pressed while the menu is in state `menu`.
    Keys { menu: MenuState, keys: StateKeys },
    /// The menu's play button is pressed.
    Play,
}

/// Whether `input` can happen to the game `m`. Everything can, but a tick
/// can only leave food on the board that may lie there.
pub open spec fn input_is_possible(m: SimulationModel, input: SimulationInput) -> bool {
    match input {
        SimulationInput::Tick { food } => m.food_may_become(food),
        _ => true,
    }
}

/// The game `m` after `input`.
pub open spec fn game_after(m: SimulationModel, input: SimulationInput) -> SimulationModel {
    match input {
        SimulationInput::Tick { food } => m.after_tick(food),
        SimulationInput::Steer(d) => m.after_steer(d),
        SimulationInput::Keys { menu, keys } => m.after_keys(menu, keys),
        SimulationInput::Play => m.after_play(),
    }
}

/// The game `m` after a run of inputs, the first input first.
pub open spec fn game_after_all(m: SimulationModel, inputs: Seq<SimulationInput>) -> SimulationModel
    decreases inputs.len(),
{
    if inputs.len() == 0 {
        m
    } else {
        game_after(game_after_all(m, inputs.drop_last()), inputs.last())
    }
}

/// Whether the run `inputs` can happen to the game `m`: each input can
/// happen to the game that the inputs before it have led to.
pub open spec fn run_is_possible(m: SimulationModel, inputs: Seq<SimulationInput>) -> bool
    decreases inputs.len(),
{
    inputs.len() == 0 || (run_is_possible(m, inputs.drop_last()) && input_is_possible(
        game_after_all(m, inputs.drop_last()),
        inputs.last(),
    ))
}

/// The invariant holds in every game that can be reached: whatever happens
/// to a well-formed game, it stays well formed, and the board stays the
/// same.
pub proof fn lemma_run_keeps_wf(m: SimulationModel, inputs: Seq<SimulationInput>)
    requires
        m.wf(),
        run_is_possible(m, inputs),
    ensures
        game_after_all(m, inputs).wf(),
        game_after_all(m, inputs).size == m.size,
    decreases inputs.len(),
{
    if inputs.len() > 0 {
        lemma_run_keeps_wf(m, inputs.drop_last());
        let before = game_after_all(m, inputs.drop_last());
        match inputs.last() {
            SimulationInput::Tick { food } => lemma_tick_keeps_wf(before, food),
            SimulationInput::Steer(d) => lemma_input_keeps_wf(
                before,
                d,
                MenuState::On,
                StateKeys { pause: false, restart: false, steer: false },
            ),
            SimulationInput::Keys { menu, keys } => lemma_input_keeps_wf(
                before,
                Direction::Right,
                menu,
                keys,
            ),
            SimulationInput::Play => lemma_input_keeps_wf(
                before,
                Direction::Right,
                MenuState::On,
                StateKeys { pause: false, restart: false, steer: false },
            ),
        }
    }
}

/// Every game that can be reached from a new game is well formed. So in
/// every such game the segments form a chain of neighbouring cells, the
/// queue holds no reversal, and food lies on no segment.
pub proof fn lemma_reachable_games_are_wf(size: int, inputs: Seq<SimulationInput>)
    requires
        MIN_BOARD_SIZE <= size <= i32::MAX,
        run_is_possible(SimulationModel::fresh(size), inputs),
    ensures
        game_after_all(SimulationModel::fresh(size), inputs).wf(),
{
    lemma_fresh_is_wf(size);
    lemma_run_keeps_wf(SimulationModel::fresh(size), inputs);
}

} // verus!
