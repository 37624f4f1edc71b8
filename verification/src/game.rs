//! The game state and the steps that make up one frame.
//!
//! [`Game`] holds everything the simulation knows. Its view is a
//! [`GameView`], and each step of a frame is a method of [`Game`] whose
//! contract says which function of the model it computes.

use vstd::prelude::*;
use crate::direction::{PressedKeys, SnakeMoveDirection};
use crate::grid::{Arena, Position};
use crate::laws::move_keeps_segments_apart;
use crate::model::{away_from, start_segments, GameView};
use crate::random::random_below;
use crate::timer::{FoodSpawnTimer, SnakeMoveTimer, Timer};

verus! {

/// Notice that the snake has eaten and is owed one more segment.
#[derive(Clone, Copy, Debug, PartialEq, Eq, Structural)]
pub struct GrowthEvent;

/// Notice that the snake has hit a wall or itself.
#[derive(Clone, Copy, Debug, PartialEq, Eq, Structural)]
pub struct GameOverEvent;

/// A step found the state in a shape that the order of steps within a frame
/// rules out.
#[derive(Clone, Copy, Debug, PartialEq, Eq, Structural)]
pub enum InvariantViolation {
    /// The snake is owed a segment, but no move has recorded where its tail
    /// was.
    MissingTailPosition,
}

/// The whole state of one game.
pub struct Game {
    arena: Arena,
    segments: Vec<Position>,
    heading: SnakeMoveDirection,
    next_direction: SnakeMoveDirection,
    last_tail_position: Option<Position>,
    food: Vec<Position>,
    move_timer: SnakeMoveTimer,
    food_timer: FoodSpawnTimer,
    growth_events: Vec<GrowthEvent>,
    game_over_events: Vec<GameOverEvent>,
}

impl View for Game {
    type V = GameView;

    closed spec fn view(&self) -> GameView {
        GameView {
            arena: self.arena,
            segments: self.segments@,
            heading: self.heading,
            next_direction: self.next_direction,
            last_tail_position: self.last_tail_position,
            food: self.food@,
            move_timer: self.move_timer.0,
            food_timer: self.food_timer.0,
            growth_events: self.growth_events@.len(),
            game_over_events: self.game_over_events@.len(),
        }
    }
}

impl Game {
    /// The invariant of the state, which every constructor establishes and
    /// every step keeps.
    pub open spec fn wf(&self) -> bool {
        self@.wf()
    }

    /// A new game on `arena`: a snake of two segments that faces up, no food,
    /// both timers at rest.
    pub fn new(arena: Arena) -> (r: Option<Game>)
        ensures
            r is Some <==> arena.valid(),
            r matches Some(g) ==> g@ == GameView::start(arena) && g.wf() && g@.head_has_room(),
    {
        if !arena.is_valid() {
            return None;
        }
        let g = Game {
            arena,
            segments: start_chain(),
            heading: SnakeMoveDirection::Up,
            next_direction: SnakeMoveDirection::Up,
            last_tail_position: None,
            food: Vec::new(),
            move_timer: SnakeMoveTimer::default(),
            food_timer: FoodSpawnTimer::default(),
            growth_events: Vec::new(),
            game_over_events: Vec::new(),
        };
        assert(g@.food =~= Seq::empty());
        Some(g)
    }

    /// A game on `arena` that starts from the given snake instead of the
    /// usual one. `segments` lists the snake's cells, head first. The snake
    /// must have at least two segments, and its head room to move. The
    /// buffered direction starts as `heading`.
    pub fn with_snake(arena: Arena, segments: Vec<Position>, heading: SnakeMoveDirection) -> (r:
        Option<Game>)
        ensures
            r is Some <==> arena.valid() && segments@.len() >= 2 && segments@[0].has_room(),
            r matches Some(g) ==> g@ == (GameView {
                segments: segments@,
                heading,
                next_direction: heading,
                ..GameView::start(arena)
            }) && g.wf() && g@.head_has_room(),
    {
        if segments.len() < 2 || !segments[0].check_room() {
            return None;
        }
        match Game::new(arena) {
            Some(mut g) => {
                g.segments = segments;
                g.heading = heading;
                g.next_direction = heading;
                Some(g)
            },
            None => None,
        }
    }

    /// Replaces both timers by timers at rest with the given intervals, in
    /// nanoseconds.
    pub fn set_intervals(&mut self, move_interval: u64, food_interval: u64)
        requires
            old(self).wf(),
        ensures
            final(self)@ == (GameView {
                move_timer: Timer::at_rest(move_interval),
                food_timer: Timer::at_rest(food_interval),
                ..old(self)@
            }),
            final(self).wf(),
    {
        self.move_timer = SnakeMoveTimer(Timer::new(move_interval));
        self.food_timer = FoodSpawnTimer(Timer::new(food_interval));
    }

    /// Extent of the playing field.
    pub fn arena(&self) -> (r: Arena)
        ensures
            r == self@.arena,
    {
        self.arena
    }

    /// Cells of the snake's segments, head first.
    pub fn segments(&self) -> (r: &Vec<Position>)
        ensures
            r@ == self@.segments,
    {
        &self.segments
    }

    /// The head's cell.
    pub fn head(&self) -> (r: Position)
        requires
            self.wf(),
        ensures
            r == self@.head(),
    {
        self.segments[0]
    }

    /// The way the head travelled in the most recent move.
    pub fn heading(&self) -> (r: SnakeMoveDirection)
        ensures
            r == self@.heading,
    {
        self.heading
    }

    /// The direction buffered for the next move.
    pub fn next_direction(&self) -> (r: SnakeMoveDirection)
        ensures
            r == self@.next_direction,
    {
        self.next_direction
    }

    /// Where the tail was just before the most recent move, if there was one.
    pub fn last_tail_position(&self) -> (r: Option<Position>)
        ensures
            r == self@.last_tail_position,
    {
        self.last_tail_position
    }

    /// Cells of the food items, oldest first.
    pub fn food(&self) -> (r: &Vec<Position>)
        ensures
            r@ == self@.food,
    {
        &self.food
    }

    /// The timer for moves.
    pub fn move_timer(&self) -> (r: Timer)
        ensures
            r == self@.move_timer,
    {
        self.move_timer.0
    }

    /// The timer for food.
    pub fn food_timer(&self) -> (r: Timer)
        ensures
            r == self@.food_timer,
    {
        self.food_timer.0
    }

    /// Number of growth notices not yet acted on.
    pub fn growth_events(&self) -> (r: usize)
        ensures
            r == self@.growth_events,
    {
        self.growth_events.len()
    }

    /// Number of game-over notices not yet acted on.
    pub fn game_over_events(&self) -> (r: usize)
        ensures
            r == self@.game_over_events,
    {
        self.game_over_events.len()
    }

    /// Tells whether the head has room to move, which [`Game::snake_movement`],
    /// [`Game::update`] and [`Game::frame`] ask for.
    pub fn can_move(&self) -> (r: bool)
        requires
            self.wf(),
        ensures
            r == self@.head_has_room(),
    {
        self.segments[0].check_room()
    }

    /// The movement step of a frame.
    ///
    /// The held keys are sampled into the buffered direction in every frame.
    /// If the move timer has fired, the snake then moves: the buffered
    /// direction becomes the heading unless it would reverse the snake, the
    /// head advances one cell, every other segment takes the cell of the one
    /// before it, and the cell that the tail leaves is remembered. The move
    /// ends the game when the head leaves the arena or enters a cell that any
    /// segment held before the move; one game-over notice is queued then,
    /// whichever of the two happened.
    pub fn snake_movement(&mut self, keys: PressedKeys)
        requires
            old(self).wf(),
            old(self)@.head_has_room(),
        ensures
            final(self)@ == old(self)@.after_snake_movement(keys),
            final(self).wf(),
            final(self)@.segments.len() == old(self)@.segments.len(),
            final(self)@.heading != old(self)@.heading.opposite_spec(),
            keys.candidate_spec(old(self)@.next_direction) == old(self)@.heading.opposite_spec()
                ==> final(self)@.next_direction == old(self)@.next_direction,
            final(self)@.game_over_events == old(self)@.game_over_events
                ==> final(self)@.head_has_room(),
            old(self)@.moves_safely(keys) ==> (final(self)@.segments.no_duplicates() <==> old(
                self,
            )@.segments.drop_last().no_duplicates()),
    {
        self.next_direction = keys.resolve(self.heading, self.next_direction);
        if !self.move_timer.0.finished() {
            return ;
        }
        let ghost before = self@;
        let heading = self.heading.turned(self.next_direction);
        let head = heading.step(self.segments[0]);
        let hit = collision(&self.arena, head, &self.segments);

        let n = self.segments.len();
        let tail = self.segments[n - 1];
        let mut moved: Vec<Position> = Vec::new();
        moved.push(head);
        let mut i: usize = 0;
        while i < n - 1
            invariant
                n == self.segments@.len(),
                n >= 2,
                i <= n - 1,
                moved@ == seq![head] + self.segments@.take(i as int),
            decreases n - 1 - i,
        {
            moved.push(self.segments[i]);
            i += 1;
            assert(self.segments@.take(i as int) == self.segments@.take(i - 1).push(
                self.segments@[i - 1],
            ));
        }
        assert(self.segments@.take(n - 1) == self.segments@.drop_last());

        self.heading = heading;
        self.segments = moved;
        self.last_tail_position = Some(tail);
        if hit {
            self.game_over_events.push(GameOverEvent);
        }
        assert(self@ == before.after_tick());
        proof {
            if !hit {
                move_keeps_segments_apart(before);
                assert(before.segments == old(self)@.segments);
            }
        }
    }

    /// Advances the move timer by `delta` nanoseconds.
    pub fn snake_timer(&mut self, delta: u64)
        requires
            old(self).wf(),
        ensures
            final(self)@ == old(self)@.after_snake_timer(delta),
            final(self).wf(),
    {
        self.move_timer.0.tick(delta);
    }

    /// Places one food item at `cell`, whatever is there already.
    pub fn spawn_food(&mut self, cell: Position)
        requires
            old(self).wf(),
        ensures
            final(self)@ == old(self)@.after_spawn_food(cell),
            final(self).wf(),
    {
        self.food.push(cell);
    }

    /// The food step of a frame.
    ///
    /// Advances the food timer by `delta` nanoseconds. If the timer fires, one
    /// food item appears on a cell of the arena drawn at random, and that
    /// cell is returned. The cell may already hold food or a segment.
    pub fn food_spawner(&mut self, delta: u64) -> (r: Option<Position>)
        requires
            old(self).wf(),
        ensures
            old(self)@.may_spawn(delta, r),
            final(self)@ == old(self)@.after_food_spawner(delta, r),
            final(self).wf(),
    {
        self.food_timer.0.tick(delta);
        if self.food_timer.0.finished() {
            let x = random_below(self.arena.width);
            let y = random_below(self.arena.height);
            let cell = Position { x: x as i32, y: y as i32 };
            self.spawn_food(cell);
            Some(cell)
        } else {
            None
        }
    }

    /// The eating step of a frame.
    ///
    /// Does nothing unless the move timer has fired. Otherwise every food item
    /// on the head's cell is removed, and one growth notice is queued for
    /// each. The food that stays keeps its order.
    pub fn snake_eating(&mut self)
        requires
            old(self).wf(),
        ensures
            final(self)@ == old(self)@.after_snake_eating(),
            final(self).wf(),
    {
        if !self.move_timer.0.finished() {
            return ;
        }
        let ghost before = self@;
        let head = self.segments[0];
        let mut kept: Vec<Position> = Vec::new();
        let mut i: usize = 0;
        assert(self.food@.take(0).filter(away_from(head)) =~= Seq::empty()) by {
            reveal(Seq::filter);
        }
        while i < self.food.len()
            invariant
                i <= self.food@.len(),
                self.food@ == before.food,
                head == before.head(),
                kept@ == self.food@.take(i as int).filter(away_from(head)),
                self.growth_events@.len() == before.growth_events + i - kept@.len(),
                self@ == (GameView { growth_events: self.growth_events@.len(), ..before }),
            decreases self.food@.len() - i,
        {
            let cell = self.food[i];
            proof {
                let upto = self.food@.take(i + 1);
                assert(upto.drop_last() == self.food@.take(i as int));
                assert(upto.last() == cell);
                reveal(Seq::filter);
            }
            if cell == head {
                self.growth_events.push(GrowthEvent);
            } else {
                kept.push(cell);
            }
            i += 1;
        }
        assert(self.food@.take(i as int) == self.food@);
        self.food = kept;
    }

    /// Appends one trailing segment at `position`.
    pub fn spawn_segment(&mut self, position: Position)
        requires
            old(self).wf(),
        ensures
            final(self)@ == old(self)@.after_spawn_segment(position),
            final(self).wf(),
    {
        self.segments.push(position);
    }

    /// The growth step of a frame.
    ///
    /// Acts on every growth notice in the queue, in order: each appends one
    /// trailing segment on the cell that the tail left in the most recent
    /// move. If there is a notice but no move has recorded such a cell, the
    /// step fails and changes nothing.
    pub fn snake_growth(&mut self) -> (r: Result<(), InvariantViolation>)
        requires
            old(self).wf(),
        ensures
            r is Err <==> old(self)@.growth_fails(),
            r is Err ==> r == Err::<(), InvariantViolation>(
                InvariantViolation::MissingTailPosition,
            ) && final(self)@ == old(self)@,
            r is Ok ==> final(self)@ == old(self)@.after_snake_growth(),
            r is Ok ==> final(self)@.segments.len() == old(self)@.segments.len() + old(
                self,
            )@.growth_events,
            r is Ok && old(self)@.growth_events > 0 ==> Some(final(self)@.tail()) == old(
                self,
            )@.last_tail_position,
            final(self).wf(),
            final(self)@.head() == old(self)@.head(),
    {
        let owed = self.growth_events.len();
        if owed == 0 {
            return Ok(());
        }
        let cell = match self.last_tail_position {
            Some(cell) => cell,
            None => {
                return Err(InvariantViolation::MissingTailPosition);
            },
        };
        let ghost before = self@;
        let mut done: usize = 0;
        while done < owed
            invariant
                done <= owed,
                owed == before.growth_events,
                before.last_tail_position == Some(cell),
                before.wf(),
                self@ == (GameView {
                    segments: before.segments + Seq::new(done as nat, |i: int| cell),
                    ..before
                }),
            decreases owed - done,
        {
            self.spawn_segment(cell);
            done += 1;
            assert(self@.segments =~= before.segments + Seq::new(done as nat, |i: int| cell));
        }
        self.growth_events.clear();
        assert(self@.segments =~= before.after_snake_growth().segments);
        Ok(())
    }

    /// Replaces the snake by a new one: two segments, the head at its
    /// starting cell, the other directly behind it, heading up.
    pub fn snake_setup(&mut self)
        requires
            old(self)@.arena.valid(),
        ensures
            final(self)@ == old(self)@.after_snake_setup(),
            final(self).wf(),
            final(self)@.head_has_room(),
    {
        self.segments = start_chain();
        self.heading = SnakeMoveDirection::Up;
    }

    /// The reset step of a frame.
    ///
    /// If any game-over notice is queued, the queue is emptied, all food is
    /// removed and the snake is replaced by a new one; the answer is then
    /// `true`. Several notices lead to one reset. Without a notice nothing
    /// changes.
    pub fn game_over(&mut self) -> (r: bool)
        requires
            old(self).wf(),
        ensures
            r == (old(self)@.game_over_events > 0),
            final(self)@ == old(self)@.after_game_over(),
            final(self).wf(),
            final(self)@.game_over_events == 0,
            r ==> final(self)@.head_has_room(),
            r ==> final(self)@.segments == start_segments() && final(self)@.food.len() == 0
                && final(self)@.heading == SnakeMoveDirection::Up,
    {
        if self.game_over_events.len() == 0 {
            return false;
        }
        self.game_over_events.clear();
        self.food.clear();
        self.snake_setup();
        true
    }

    /// One frame of `delta` nanoseconds with input `keys`, the food step
    /// apart.
    ///
    /// Runs, in this order, the move timer, the movement step, the eating
    /// step, the growth step and the reset step. If the growth step fails the
    /// frame ends there, and the reset step does not run.
    pub fn update(&mut self, delta: u64, keys: PressedKeys) -> (r: Result<(), InvariantViolation>)
        requires
            old(self).wf(),
            old(self)@.head_has_room(),
        ensures
            r is Err <==> old(self)@.update_fails(delta, keys),
            r is Err ==> r == Err::<(), InvariantViolation>(
                InvariantViolation::MissingTailPosition,
            ),
            final(self)@ == old(self)@.after_update(delta, keys),
            final(self).wf(),
            final(self)@.head_has_room(),
            r is Ok ==> final(self)@.game_over_events == 0 && final(self)@.growth_events == 0,
    {
        self.snake_timer(delta);
        self.snake_movement(keys);
        self.snake_eating();
        match self.snake_growth() {
            Ok(()) => {
                self.game_over();
                Ok(())
            },
            Err(e) => Err(e),
        }
    }

    /// One whole frame of `delta` nanoseconds with input `keys`: the food
    /// step, then [`Game::update`]. What the frame does is fixed but for the
    /// cell on which food appears, if any appears.
    pub fn frame(&mut self, delta: u64, keys: PressedKeys) -> (r: Result<(), InvariantViolation>)
        requires
            old(self).wf(),
            old(self)@.head_has_room(),
        ensures
            exists|cell: Option<Position>|
                {
                    &&& #[trigger] old(self)@.may_spawn(delta, cell)
                    &&& final(self)@ == old(self)@.after_frame(delta, keys, cell)
                    &&& r is Err <==> old(self)@.frame_fails(delta, keys, cell)
                },
            r is Err ==> r == Err::<(), InvariantViolation>(
                InvariantViolation::MissingTailPosition,
            ),
            final(self).wf(),
            final(self)@.head_has_room(),
    {
        let cell = self.food_spawner(delta);
        let r = self.update(delta, keys);
        assert(old(self)@.may_spawn(delta, cell));
        r
    }
}

/// The chain of a new snake, head first.
fn start_chain() -> (r: Vec<Position>)
    ensures
        r@ == start_segments(),
{
    let mut chain: Vec<Position> = Vec::new();
    chain.push(Position { x: 3, y: 3 });
    chain.push(Position { x: 3, y: 2 });
    assert(chain@ =~= start_segments());
    chain
}

/// Tells whether a move ends the game: `head` is where the head is after the
/// move, and `snapshot` holds the cells of all segments before it. The game
/// ends when the head is outside the arena or on a cell of the snapshot.
pub fn collision(arena: &Arena, head: Position, snapshot: &Vec<Position>) -> (r: bool)
    ensures
        r == (!arena.contains(head) || snapshot@.contains(head)),
{
    !arena.is_inside(head) || occupies(snapshot, head)
}

/// Tells whether `cell` is one of `cells`.
pub fn occupies(cells: &Vec<Position>, cell: Position) -> (r: bool)
    ensures
        r == cells@.contains(cell),
{
    let mut i: usize = 0;
    while i < cells.len()
        invariant
            i <= cells@.len(),
            forall|j: int| 0 <= j < i ==> cells@[j] != cell,
        decreases cells@.len() - i,
    {
        if cells[i] == cell {
            return true;
        }
        i += 1;
    }
    false
}

} // verus!
