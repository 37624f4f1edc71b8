//! The mathematical model of a game, and each step of a frame as a function
//! from model to model.

use vstd::prelude::*;
use crate::direction::{PressedKeys, SnakeMoveDirection};
use crate::grid::{Arena, Position};
use crate::timer::{Timer, FOOD_SPAWN_INTERVAL, SNAKE_MOVE_INTERVAL};

verus! {

/// Where a new snake's head starts.
pub open spec fn start_head() -> Position {
    Position { x: 3, y: 3 }
}

/// Where a new snake's only trailing segment starts: directly behind the
/// head, which faces up.
pub open spec fn start_tail() -> Position {
    Position { x: 3, y: 2 }
}

/// The chain of a new snake, head first.
pub open spec fn start_segments() -> Seq<Position> {
    seq![start_head(), start_tail()]
}

/// The test that food passes when it is not under the head at `head`.
pub open spec fn away_from(head: Position) -> spec_fn(Position) -> bool {
    |p: Position| p != head
}

/// The mathematical model of a [`crate::game::Game`].
pub struct GameView {
    /// Extent of the playing field.
    pub arena: Arena,
    /// Cells of the snake's segments, head first.
    pub segments: Seq<Position>,
    /// The way the head travelled in the most recent move.
    pub heading: SnakeMoveDirection,
    /// The direction buffered for the next move.
    pub next_direction: SnakeMoveDirection,
    /// Where the tail was just before the most recent move, if there was one.
    pub last_tail_position: Option<Position>,
    /// Cells of the food items, oldest first. A cell may occur twice.
    pub food: Seq<Position>,
    /// The timer for moves.
    pub move_timer: Timer,
    /// The timer for food.
    pub food_timer: Timer,
    /// Number of growth notices not yet acted on.
    pub growth_events: nat,
    /// Number of game-over notices not yet acted on.
    pub game_over_events: nat,
}

impl GameView {
    /// What every game state satisfies: the arena is valid and the snake has
    /// a head and at least one more segment.
    pub open spec fn wf(self) -> bool {
        &&& self.arena.valid()
        &&& self.segments.len() >= 2
    }

    pub open spec fn head(self) -> Position {
        self.segments[0]
    }

    pub open spec fn tail(self) -> Position {
        self.segments.last()
    }

    /// The head can take one step in any direction without leaving the
    /// machine integers. This holds of a new game, after every reset, and
    /// after every move that ended inside the arena.
    pub open spec fn head_has_room(self) -> bool {
        self.head().has_room()
    }

    /// Every segment lies in the arena.
    pub open spec fn snake_is_inside(self) -> bool {
        forall|i: int| 0 <= i < self.segments.len() ==> self.arena.contains(#[trigger] self.segments[i])
    }

    /// The state in which a well-played game rests between two frames: both
    /// queues are empty, no two segments share a cell, and every segment lies
    /// in the arena.
    pub open spec fn settled(self) -> bool {
        &&& self.wf()
        &&& self.growth_events == 0
        &&& self.game_over_events == 0
        &&& self.segments.no_duplicates()
        &&& self.snake_is_inside()
    }

    /// A new game on `arena`.
    pub open spec fn start(arena: Arena) -> GameView {
        GameView {
            arena,
            segments: start_segments(),
            heading: SnakeMoveDirection::Up,
            next_direction: SnakeMoveDirection::Up,
            last_tail_position: None,
            food: Seq::empty(),
            move_timer: Timer::at_rest(SNAKE_MOVE_INTERVAL),
            food_timer: Timer::at_rest(FOOD_SPAWN_INTERVAL),
            growth_events: 0,
            game_over_events: 0,
        }
    }

    /// The snake replaced by a new one. Nothing else changes.
    pub open spec fn after_snake_setup(self) -> GameView {
        GameView { segments: start_segments(), heading: SnakeMoveDirection::Up, ..self }
    }

    /// One more trailing segment at `position`.
    pub open spec fn after_spawn_segment(self, position: Position) -> GameView {
        GameView { segments: self.segments.push(position), ..self }
    }

    /// The move timer advanced by `delta` nanoseconds.
    pub open spec fn after_snake_timer(self, delta: u64) -> GameView {
        GameView { move_timer: self.move_timer.tick_spec(delta), ..self }
    }

    /// One more food item at `cell`.
    pub open spec fn after_spawn_food(self, cell: Position) -> GameView {
        GameView { food: self.food.push(cell), ..self }
    }

    /// Whether the food timer fires when advanced by `delta` nanoseconds.
    pub open spec fn food_is_due(self, delta: u64) -> bool {
        self.food_timer.tick_spec(delta).finished
    }

    /// What the food spawner may do in a frame of `delta` nanoseconds: place
    /// food somewhere in the arena if the food timer fires, and nothing
    /// otherwise.
    pub open spec fn may_spawn(self, delta: u64, cell: Option<Position>) -> bool {
        match cell {
            Some(c) => self.food_is_due(delta) && self.arena.contains(c),
            None => !self.food_is_due(delta),
        }
    }

    /// The food timer advanced by `delta` nanoseconds, and food placed at
    /// `cell` if there is one.
    pub open spec fn after_food_spawner(self, delta: u64, cell: Option<Position>) -> GameView {
        let ticked = GameView { food_timer: self.food_timer.tick_spec(delta), ..self };
        match cell {
            Some(c) => ticked.after_spawn_food(c),
            None => ticked,
        }
    }

    /// One frame's input sampled into the buffered direction.
    pub open spec fn after_input(self, keys: PressedKeys) -> GameView {
        GameView {
            next_direction: keys.resolve_spec(self.heading, self.next_direction),
            ..self
        }
    }

    /// The heading of the next move: the buffered direction, unless it would
    /// reverse the snake.
    pub open spec fn next_heading(self) -> SnakeMoveDirection {
        self.heading.turned_spec(self.next_direction)
    }

    /// The cell that the head enters in the next move.
    pub open spec fn next_head(self) -> Position {
        self.next_heading().step_spec(self.head())
    }

    /// The next move takes the head out of the arena.
    pub open spec fn hits_wall(self) -> bool {
        !self.arena.contains(self.next_head())
    }

    /// The next move takes the head onto a cell that a segment holds before
    /// the move.
    pub open spec fn hits_self(self) -> bool {
        self.segments.contains(self.next_head())
    }

    /// The next move ends the game.
    pub open spec fn collides(self) -> bool {
        self.hits_wall() || self.hits_self()
    }

    /// One move: the head advances along the next heading, every other
    /// segment takes the cell of the one before it, the tail's old cell is
    /// remembered, and a collision is noted once.
    pub open spec fn after_tick(self) -> GameView {
        GameView {
            heading: self.next_heading(),
            segments: seq![self.next_head()] + self.segments.drop_last(),
            last_tail_position: Some(self.tail()),
            game_over_events: if self.collides() {
                self.game_over_events + 1
            } else {
                self.game_over_events
            },
            ..self
        }
    }

    /// The movement step moves the snake, and the move does not end the game.
    pub open spec fn moves_safely(self, keys: PressedKeys) -> bool {
        self.move_timer.finished && !self.after_input(keys).collides()
    }

    /// The movement step of a frame: input is sampled in every frame, and
    /// the snake moves in those frames in which the move timer has fired.
    pub open spec fn after_snake_movement(self, keys: PressedKeys) -> GameView {
        let sampled = self.after_input(keys);
        if sampled.move_timer.finished {
            sampled.after_tick()
        } else {
            sampled
        }
    }

    /// The food that is left once the head has eaten what lies under it.
    pub open spec fn uneaten(self) -> Seq<Position> {
        self.food.filter(away_from(self.head()))
    }

    /// The eating step of a frame. In a frame in which the move timer has
    /// fired, every food item under the head goes and leaves one growth
    /// notice behind.
    pub open spec fn after_snake_eating(self) -> GameView {
        if self.move_timer.finished {
            GameView {
                food: self.uneaten(),
                growth_events: (self.growth_events + self.food.len() - self.uneaten().len()) as nat,
                ..self
            }
        } else {
            self
        }
    }

    /// Growth is owed but no move has recorded a tail cell.
    pub open spec fn growth_fails(self) -> bool {
        self.growth_events > 0 && self.last_tail_position is None
    }

    /// The growth step of a frame, where it does not fail: one new trailing
    /// segment on the remembered tail cell for each growth notice.
    pub open spec fn after_snake_growth(self) -> GameView {
        if self.growth_events == 0 || self.last_tail_position is None {
            self
        } else {
            GameView {
                segments: self.segments + Seq::new(
                    self.growth_events,
                    |i: int| self.last_tail_position->0,
                ),
                growth_events: 0,
                ..self
            }
        }
    }

    /// The reset step of a frame. Any number of game-over notices leads to
    /// one reset: all food goes and the snake is replaced by a new one.
    pub open spec fn after_game_over(self) -> GameView {
        if self.game_over_events > 0 {
            GameView {
                segments: start_segments(),
                heading: SnakeMoveDirection::Up,
                food: Seq::empty(),
                game_over_events: 0,
                ..self
            }
        } else {
            self
        }
    }

    /// The state just before the growth step of a frame of `delta`
    /// nanoseconds with input `keys`, the food step apart: the move timer has
    /// advanced, the snake has moved and eaten.
    pub open spec fn before_growth(self, delta: u64, keys: PressedKeys) -> GameView {
        self.after_snake_timer(delta).after_snake_movement(keys).after_snake_eating()
    }

    /// A frame's growth step fails.
    pub open spec fn update_fails(self, delta: u64, keys: PressedKeys) -> bool {
        self.before_growth(delta, keys).growth_fails()
    }

    /// One frame of `delta` nanoseconds with input `keys`, the food step
    /// apart. The steps come in a fixed order: the move timer, movement,
    /// eating, growth, reset. A frame whose growth step fails ends there.
    pub open spec fn after_update(self, delta: u64, keys: PressedKeys) -> GameView {
        if self.update_fails(delta, keys) {
            self.before_growth(delta, keys)
        } else {
            self.before_growth(delta, keys).after_snake_growth().after_game_over()
        }
    }

    /// One whole frame in which the food step placed `cell`.
    pub open spec fn after_frame(
        self,
        delta: u64,
        keys: PressedKeys,
        cell: Option<Position>,
    ) -> GameView {
        self.after_food_spawner(delta, cell).after_update(delta, keys)
    }

    /// A whole frame, in which the food step placed `cell`, fails.
    pub open spec fn frame_fails(
        self,
        delta: u64,
        keys: PressedKeys,
        cell: Option<Position>,
    ) -> bool {
        self.after_food_spawner(delta, cell).update_fails(delta, keys)
    }
}

} // verus!
