use snake::direction::{PressedKeys, SnakeMoveDirection};
use snake::game::{Game, GameOverEvent, GrowthEvent, InvariantViolation};
use snake::grid::{Arena, Position, ARENA_HEIGHT, ARENA_WIDTH};
use snake::timer::{FOOD_SPAWN_INTERVAL, SNAKE_MOVE_INTERVAL};

fn at(x: i32, y: i32) -> Position {
    Position { x, y }
}

#[test]
fn new_game_starts_at_rest() {
    let game = Game::new(Arena::standard()).unwrap();
    assert_eq!(game.arena(), Arena { width: 10, height: 10 });
    assert_eq!(game.segments(), &vec![at(3, 3), at(3, 2)]);
    assert_eq!(game.head(), at(3, 3));
    assert_eq!(game.heading(), SnakeMoveDirection::Up);
    assert_eq!(game.next_direction(), SnakeMoveDirection::Up);
    assert_eq!(game.last_tail_position(), None);
    assert!(game.food().is_empty());
    assert_eq!(game.move_timer().interval, SNAKE_MOVE_INTERVAL);
    assert_eq!(game.move_timer().elapsed, 0);
    assert!(!game.move_timer().finished);
    assert_eq!(game.food_timer().interval, FOOD_SPAWN_INTERVAL);
    assert_eq!(game.food_timer().elapsed, 0);
    assert!(!game.food_timer().finished);
    assert_eq!(game.growth_events(), 0);
    assert_eq!(game.game_over_events(), 0);
    assert!(game.can_move());
}

#[test]
fn new_game_needs_a_valid_arena() {
    assert!(Game::new(Arena { width: 0, height: 10 }).is_none());
    assert!(Game::new(Arena { width: 10, height: 0 }).is_none());
    assert!(Game::new(Arena { width: 0x8000_0000, height: 10 }).is_none());
    assert!(Game::new(Arena { width: 10, height: u32::MAX }).is_none());
    assert!(Game::new(Arena { width: 1, height: 1 }).is_some());
    assert!(Game::new(Arena { width: 0x7fff_ffff, height: 0x7fff_ffff }).is_some());
}

#[test]
fn a_given_snake_needs_two_segments_and_room_for_its_head() {
    let arena = Arena::standard();
    let up = SnakeMoveDirection::Up;
    assert!(Game::with_snake(arena, vec![], up).is_none());
    assert!(Game::with_snake(arena, vec![at(1, 1)], up).is_none());
    assert!(Game::with_snake(arena, vec![at(i32::MAX, 1), at(1, 1)], up).is_none());
    assert!(Game::with_snake(arena, vec![at(1, i32::MIN), at(1, 1)], up).is_none());
    assert!(Game::with_snake(Arena { width: 0, height: 1 }, vec![at(1, 2), at(1, 1)], up)
        .is_none());

    let game = Game::with_snake(arena, vec![at(1, 2), at(1, 1)], SnakeMoveDirection::Left)
        .unwrap();
    assert_eq!(game.segments(), &vec![at(1, 2), at(1, 1)]);
    assert_eq!(game.heading(), SnakeMoveDirection::Left);
    assert_eq!(game.next_direction(), SnakeMoveDirection::Left);
    assert_eq!(game.last_tail_position(), None);
    assert!(game.food().is_empty());
}

#[test]
fn the_standard_arena_is_ten_by_ten() {
    assert_eq!(ARENA_WIDTH, 10);
    assert_eq!(ARENA_HEIGHT, 10);
    assert_eq!(Arena::standard(), Arena { width: 10, height: 10 });
    assert_eq!(Arena::new(10, 10), Some(Arena::standard()));
    assert_eq!(Arena::new(0, 10), None);
    assert_eq!(Arena::new(10, 0), None);
    assert_eq!(Arena::new(0x8000_0000, 1), None);
}

#[test]
fn the_arena_holds_its_cells_and_no_others() {
    let arena = Arena::standard();
    assert!(arena.is_inside(at(0, 0)));
    assert!(arena.is_inside(at(9, 9)));
    assert!(!arena.is_inside(at(10, 9)));
    assert!(!arena.is_inside(at(9, 10)));
    assert!(!arena.is_inside(at(-1, 0)));
    assert!(!arena.is_inside(at(0, -1)));
    let wide = Arena::new(3, 7).unwrap();
    assert!(wide.is_inside(at(2, 6)));
    assert!(!wide.is_inside(at(3, 6)));
    assert!(!wide.is_inside(at(2, 7)));
}

#[test]
fn food_appears_inside_the_arena_when_its_timer_fires() {
    let arena = Arena::new(3, 2).unwrap();
    let mut game = Game::new(arena).unwrap();

    assert_eq!(game.food_spawner(FOOD_SPAWN_INTERVAL - 1), None);
    assert!(game.food().is_empty());

    for round in 1..=200 {
        let cell = game.food_spawner(FOOD_SPAWN_INTERVAL).unwrap();
        assert!(arena.is_inside(cell));
        assert!(0 <= cell.x && cell.x < 3);
        assert!(0 <= cell.y && cell.y < 2);
        assert_eq!(game.food().len(), round);
        assert_eq!(game.food().last(), Some(&cell));
    }
    assert_eq!(game.segments(), &vec![at(3, 3), at(3, 2)]);
}

#[test]
fn food_in_an_arena_of_one_cell_has_one_place_to_go() {
    let mut game = Game::new(Arena::new(1, 1).unwrap()).unwrap();
    for _ in 0..20 {
        assert_eq!(game.food_spawner(FOOD_SPAWN_INTERVAL), Some(at(0, 0)));
    }
    assert_eq!(game.food().len(), 20);
}

#[test]
fn food_may_be_placed_on_food_and_on_the_snake() {
    let mut game = Game::new(Arena::standard()).unwrap();
    game.spawn_food(at(3, 3));
    game.spawn_food(at(3, 3));
    game.spawn_food(at(-4, 40));
    assert_eq!(game.food(), &vec![at(3, 3), at(3, 3), at(-4, 40)]);
}

#[test]
fn the_two_timers_run_apart() {
    let mut game = Game::new(Arena::standard()).unwrap();
    game.snake_timer(SNAKE_MOVE_INTERVAL);
    assert!(game.move_timer().finished);
    assert!(!game.food_timer().finished);
    assert_eq!(game.food_timer().elapsed, 0);

    assert!(game.food_spawner(FOOD_SPAWN_INTERVAL + 5).is_some());
    assert!(game.food_timer().finished);
    assert_eq!(game.food_timer().elapsed, 5);
    assert_eq!(game.move_timer().elapsed, 0);
}

#[test]
fn timers_can_be_given_other_intervals() {
    let mut game = Game::new(Arena::standard()).unwrap();
    game.snake_timer(7);
    game.set_intervals(10, 20);
    assert_eq!(game.move_timer().interval, 10);
    assert_eq!(game.move_timer().elapsed, 0);
    assert_eq!(game.food_timer().interval, 20);

    game.snake_timer(10);
    game.snake_movement(PressedKeys::none());
    assert_eq!(game.head(), at(3, 4));
}

#[test]
fn a_segment_can_be_appended_anywhere() {
    let mut game = Game::new(Arena::standard()).unwrap();
    game.spawn_segment(at(3, 1));
    assert_eq!(game.segments(), &vec![at(3, 3), at(3, 2), at(3, 1)]);
}

#[test]
fn setup_replaces_the_snake_only() {
    let mut game =
        Game::with_snake(Arena::standard(), vec![at(7, 7), at(7, 8), at(7, 9)],
            SnakeMoveDirection::Down).unwrap();
    game.spawn_food(at(1, 1));
    game.snake_setup();
    assert_eq!(game.segments(), &vec![at(3, 3), at(3, 2)]);
    assert_eq!(game.heading(), SnakeMoveDirection::Up);
    assert_eq!(game.next_direction(), SnakeMoveDirection::Down);
    assert_eq!(game.food(), &vec![at(1, 1)]);
}

#[test]
fn update_runs_the_steps_in_order() {
    let mut game = Game::new(Arena::standard()).unwrap();
    game.spawn_food(at(3, 4));

    assert_eq!(game.update(SNAKE_MOVE_INTERVAL - 1, PressedKeys::none()), Ok(()));
    assert_eq!(game.segments(), &vec![at(3, 3), at(3, 2)]);
    assert_eq!(game.food(), &vec![at(3, 4)]);

    assert_eq!(game.update(1, PressedKeys::none()), Ok(()));
    assert_eq!(game.segments(), &vec![at(3, 4), at(3, 3), at(3, 2)]);
    assert!(game.food().is_empty());
    assert_eq!(game.growth_events(), 0);
    assert_eq!(game.game_over_events(), 0);
    assert_eq!(game.move_timer().elapsed, 0);
}

#[test]
fn update_resets_in_the_frame_of_the_collision() {
    let mut game =
        Game::with_snake(Arena::standard(), vec![at(9, 5), at(8, 5), at(7, 5)],
            SnakeMoveDirection::Right).unwrap();
    game.spawn_food(at(1, 1));

    assert_eq!(game.update(SNAKE_MOVE_INTERVAL, PressedKeys::none()), Ok(()));

    assert_eq!(game.segments(), &vec![at(3, 3), at(3, 2)]);
    assert!(game.food().is_empty());
    assert_eq!(game.heading(), SnakeMoveDirection::Up);
    assert_eq!(game.game_over_events(), 0);
}

#[test]
fn update_stops_at_a_growth_that_fails() {
    let mut game = Game::new(Arena::standard()).unwrap();
    game.spawn_food(at(3, 3));
    game.snake_timer(SNAKE_MOVE_INTERVAL);
    game.snake_eating();
    assert_eq!(game.growth_events(), 1);

    assert_eq!(
        game.update(1, PressedKeys::only(SnakeMoveDirection::Left)),
        Err(InvariantViolation::MissingTailPosition)
    );

    assert_eq!(game.growth_events(), 1);
    assert_eq!(game.next_direction(), SnakeMoveDirection::Left);
    assert_eq!(game.segments(), &vec![at(3, 3), at(3, 2)]);
    assert_eq!(game.move_timer().elapsed, 1);
}

#[test]
fn frames_play_a_game() {
    let mut game = Game::new(Arena::standard()).unwrap();
    let mut frames_with_food = 0;
    for _ in 0..40 {
        assert!(game.can_move());
        let food_before = game.food().len();
        assert_eq!(game.frame(SNAKE_MOVE_INTERVAL / 3, PressedKeys::none()), Ok(()));
        if game.food().len() > food_before {
            frames_with_food += 1;
        }
        assert!(game.segments().len() >= 2);
        assert_eq!(game.growth_events(), 0);
        assert_eq!(game.game_over_events(), 0);
        for cell in game.food() {
            assert!(game.arena().is_inside(*cell));
        }
    }
    assert!(frames_with_food > 0);
}

#[test]
fn a_frame_moves_the_snake_once_the_timer_fires() {
    let mut game = Game::new(Arena::standard()).unwrap();
    assert_eq!(game.frame(SNAKE_MOVE_INTERVAL - 1, PressedKeys::only(SnakeMoveDirection::Right)),
        Ok(()));
    assert_eq!(game.head(), at(3, 3));
    assert_eq!(game.frame(1, PressedKeys::none()), Ok(()));
    assert_eq!(game.heading(), SnakeMoveDirection::Right);
    assert_eq!(game.segments()[1], at(3, 3));
    assert_eq!(game.head(), at(4, 3));
}

#[test]
fn events_are_plain_values() {
    assert_eq!(GrowthEvent, GrowthEvent);
    assert_eq!(GameOverEvent, GameOverEvent);
    assert_eq!(
        InvariantViolation::MissingTailPosition,
        InvariantViolation::MissingTailPosition
    );
}

#[test]
fn a_frame_stops_at_a_growth_that_fails() {
    let mut game = Game::new(Arena::standard()).unwrap();
    game.spawn_food(at(3, 3));
    game.snake_timer(SNAKE_MOVE_INTERVAL);
    game.snake_eating();

    assert_eq!(
        game.frame(1, PressedKeys::none()),
        Err(InvariantViolation::MissingTailPosition)
    );

    assert_eq!(game.growth_events(), 1);
    assert_eq!(game.segments(), &vec![at(3, 3), at(3, 2)]);
    assert_eq!(game.food_timer().elapsed, 1);
    assert_eq!(game.move_timer().elapsed, 1);
}

#[test]
fn a_frame_resets_a_snake_that_dies() {
    let mut game =
        Game::with_snake(Arena::standard(), vec![at(0, 5), at(1, 5)], SnakeMoveDirection::Left)
            .unwrap();
    game.spawn_food(at(8, 8));
    assert_eq!(game.frame(SNAKE_MOVE_INTERVAL, PressedKeys::none()), Ok(()));
    assert_eq!(game.segments(), &vec![at(3, 3), at(3, 2)]);
    assert!(game.food().is_empty());
    assert_eq!(game.heading(), SnakeMoveDirection::Up);
    assert_eq!(game.last_tail_position(), Some(at(1, 5)));
}
