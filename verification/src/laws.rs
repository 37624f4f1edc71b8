//! What holds of the game whatever is played, proved over [`GameView`].

use vstd::prelude::*;
use crate::direction::{PressedKeys, SnakeMoveDirection};
use crate::model::{start_head, start_segments, start_tail, GameView};
use crate::grid::{Arena, Position};

verus! {

/// A move never changes the number of segments.
pub proof fn move_keeps_length(s: GameView, keys: PressedKeys)
    requires
        s.wf(),
    ensures
        s.after_snake_movement(keys).segments.len() == s.segments.len(),
        s.after_snake_movement(keys).wf(),
{
}

/// After a move that did not end the game, no two segments share a cell,
/// provided that before the move no two segments other than the tail did; and
/// only then.
pub proof fn move_keeps_segments_apart(s: GameView)
    requires
        s.wf(),
        !s.collides(),
    ensures
        s.after_tick().segments.no_duplicates() <==> s.segments.drop_last().no_duplicates(),
{
    let head = s.next_head();
    let body = s.segments.drop_last();
    let moved = s.after_tick().segments;
    assert(moved.len() == body.len() + 1);
    assert(moved[0] == head);
    assert forall|i: int| 0 <= i < body.len() implies #[trigger] moved[i + 1] == body[i] by {}
    assert forall|i: int| 0 <= i < body.len() implies #[trigger] body[i] != head by {
        assert(body[i] == s.segments[i]);
        assert(s.segments.contains(s.segments[i]));
    }
    if body.no_duplicates() {
        assert forall|i: int, j: int|
            0 <= i < moved.len() && 0 <= j < moved.len() && i != j implies moved[i]
            != moved[j] by {
            if i > 0 {
                assert(moved[(i - 1) + 1] == body[i - 1]);
            }
            if j > 0 {
                assert(moved[(j - 1) + 1] == body[j - 1]);
            }
        }
    }
    if moved.no_duplicates() {
        assert forall|i: int, j: int|
            0 <= i < body.len() && 0 <= j < body.len() && i != j implies body[i] != body[j] by {
            assert(moved[i + 1] == body[i]);
            assert(moved[j + 1] == body[j]);
        }
    }
}

/// After a move that did not end the game, every segment lies in the arena,
/// provided that before the move every segment other than the tail did.
pub proof fn move_keeps_segments_inside(s: GameView)
    requires
        s.wf(),
        !s.collides(),
        forall|i: int| 0 <= i < s.segments.len() - 1 ==> s.arena.contains(#[trigger] s.segments[i]),
    ensures
        forall|i: int|
            0 <= i < s.after_tick().segments.len() ==> s.arena.contains(
                #[trigger] s.after_tick().segments[i],
            ),
{
    let moved = s.after_tick().segments;
    assert forall|i: int| 0 <= i < moved.len() implies s.arena.contains(#[trigger] moved[i]) by {
        if i > 0 {
            assert(moved[i] == s.segments[i - 1]);
        }
    }
}

/// A move never reverses the snake, whatever was buffered and whatever is
/// pressed.
pub proof fn move_never_reverses(s: GameView, keys: PressedKeys)
    ensures
        s.after_snake_movement(keys).heading != s.heading.opposite_spec(),
{
}

/// Input that asks for the reverse of the heading leaves the buffered
/// direction as it was.
pub proof fn reversal_is_ignored(s: GameView, keys: PressedKeys)
    requires
        keys.candidate_spec(s.next_direction) == s.heading.opposite_spec(),
    ensures
        s.after_input(keys).next_direction == s.next_direction,
        s.after_input(keys) == s,
{
}

/// Growth in step with movement: when a move is followed by eating that
/// leaves exactly one growth notice, the growth step succeeds and appends one
/// segment, on the cell where the tail was before the move.
pub proof fn growth_fills_the_vacated_cell(s: GameView, keys: PressedKeys)
    requires
        s.wf(),
        s.move_timer.finished,
        s.after_snake_movement(keys).after_snake_eating().growth_events == 1,
    ensures
        ({
            let moved = s.after_snake_movement(keys);
            let fed = moved.after_snake_eating();
            let grown = fed.after_snake_growth();
            &&& !fed.growth_fails()
            &&& grown.segments.len() == s.segments.len() + 1
            &&& grown.tail() == s.tail()
            &&& grown.segments == moved.segments.push(s.tail())
            &&& grown.growth_events == 0
        }),
{
    let moved = s.after_snake_movement(keys);
    let fed = moved.after_snake_eating();
    let grown = fed.after_snake_growth();
    assert(fed.last_tail_position == Some(s.tail()));
    assert(grown.segments =~= moved.segments.push(s.tail()));
}

/// One growth notice makes the snake longer by exactly one segment, which
/// lies on the remembered tail cell.
pub proof fn growth_adds_one_segment(s: GameView)
    requires
        s.growth_events == 1,
        s.last_tail_position is Some,
    ensures
        s.after_snake_growth().segments == s.segments.push(s.last_tail_position->0),
        s.after_snake_growth().segments.len() == s.segments.len() + 1,
        s.after_snake_growth().tail() == s.last_tail_position->0,
{
    assert(s.after_snake_growth().segments =~= s.segments.push(s.last_tail_position->0));
}

/// The reset step leaves a snake of two segments that faces up, and no food,
/// whenever a game-over notice was queued.
pub proof fn reset_restores_the_start(s: GameView)
    requires
        s.game_over_events > 0,
    ensures
        s.after_game_over().segments == start_segments(),
        s.after_game_over().segments.len() == 2,
        s.after_game_over().food.len() == 0,
        s.after_game_over().heading == SnakeMoveDirection::Up,
        s.after_game_over().game_over_events == 0,
{
}

/// A frame in which the snake dies ends with the snake reset: the reset
/// follows the collision within the same frame.
pub proof fn death_resets_within_the_frame(s: GameView, delta: u64, keys: PressedKeys)
    requires
        s.wf(),
        s.game_over_events == 0,
        s.after_snake_timer(delta).move_timer.finished,
        s.after_snake_timer(delta).after_input(keys).collides(),
    ensures
        !s.update_fails(delta, keys),
        s.after_update(delta, keys).segments == start_segments(),
        s.after_update(delta, keys).food.len() == 0,
        s.after_update(delta, keys).heading == SnakeMoveDirection::Up,
        s.after_update(delta, keys).game_over_events == 0,
{
}

/// No two segments share a cell, as long as the snake never eats more than
/// one food item in one move: a frame without its food step that starts with
/// empty queues and with the segments apart ends so, and does not fail.
pub proof fn updates_keep_segments_apart(s: GameView, delta: u64, keys: PressedKeys)
    requires
        s.wf(),
        s.growth_events == 0,
        s.game_over_events == 0,
        s.segments.no_duplicates(),
        s.before_growth(delta, keys).growth_events <= 1,
    ensures
        !s.update_fails(delta, keys),
        s.after_update(delta, keys).wf(),
        s.after_update(delta, keys).growth_events == 0,
        s.after_update(delta, keys).game_over_events == 0,
        s.after_update(delta, keys).segments.no_duplicates(),
{
    let sampled = s.after_snake_timer(delta).after_input(keys);
    if sampled.move_timer.finished {
        let moved = sampled.after_tick();
        let fed = moved.after_snake_eating();
        let grown = fed.after_snake_growth();
        assert(fed.last_tail_position == Some(s.tail()));
        if !sampled.collides() {
            assert(sampled.segments.drop_last().no_duplicates()) by {
                assert forall|i: int, j: int|
                    0 <= i < sampled.segments.drop_last().len() && 0 <= j
                        < sampled.segments.drop_last().len() && i != j implies sampled.segments.drop_last()[i]
                    != sampled.segments.drop_last()[j] by {
                    assert(sampled.segments.drop_last()[i] == s.segments[i]);
                    assert(sampled.segments.drop_last()[j] == s.segments[j]);
                }
            }
            move_keeps_segments_apart(sampled);
            if fed.growth_events == 1 {
                assert(grown.segments =~= moved.segments.push(s.tail()));
                assert forall|i: int| 0 <= i < moved.segments.len() implies moved.segments[i]
                    != s.tail() by {
                    if i == 0 {
                        assert(s.segments.contains(s.tail()));
                    } else {
                        assert(moved.segments[i] == s.segments[i - 1]);
                    }
                }
                assert forall|i: int, j: int|
                    0 <= i < grown.segments.len() && 0 <= j < grown.segments.len() && i
                        != j implies grown.segments[i] != grown.segments[j] by {
                    if i < moved.segments.len() && j < moved.segments.len() {
                        assert(grown.segments[i] == moved.segments[i]);
                        assert(grown.segments[j] == moved.segments[j]);
                    }
                }
            }
        }
    }
}

/// A new game is settled, on an arena that holds the snake's starting cells.
pub proof fn start_is_settled(arena: Arena)
    requires
        arena.valid(),
        arena.contains(start_head()),
        arena.contains(start_tail()),
    ensures
        GameView::start(arena).settled(),
        GameView::start(arena).head_has_room(),
{
}

/// A settled game stays settled, frame after frame, on an arena that holds
/// the snake's starting cells and as long as the snake never eats more than
/// one food item in one move. Such a frame does not fail, and leaves the head
/// room to move. So in every state that such a game reaches, no two segments
/// share a cell and every segment lies in the arena.
pub proof fn frames_keep_the_game_settled(
    s: GameView,
    delta: u64,
    keys: PressedKeys,
    cell: Option<Position>,
)
    requires
        s.settled(),
        s.arena.contains(start_head()),
        s.arena.contains(start_tail()),
        s.after_food_spawner(delta, cell).before_growth(delta, keys).growth_events <= 1,
    ensures
        !s.frame_fails(delta, keys, cell),
        s.after_frame(delta, keys, cell).settled(),
        s.after_frame(delta, keys, cell).head_has_room(),
{
    let spawned = s.after_food_spawner(delta, cell);
    updates_keep_segments_apart(spawned, delta, keys);
    let sampled = spawned.after_snake_timer(delta).after_input(keys);
    let after = s.after_frame(delta, keys, cell);
    if sampled.move_timer.finished && !sampled.collides() {
        let moved = sampled.after_tick();
        let fed = moved.after_snake_eating();
        let grown = fed.after_snake_growth();
        move_keeps_segments_inside(sampled);
        assert(after.segments == grown.segments);
        assert forall|i: int| 0 <= i < grown.segments.len() implies s.arena.contains(
            #[trigger] grown.segments[i],
        ) by {
            if i < moved.segments.len() {
                assert(grown.segments[i] == moved.segments[i]);
            } else {
                assert(grown.segments[i] == s.tail());
            }
        }
    }
}

} // verus!
