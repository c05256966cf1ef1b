use snake::arena::{wrap_coordinate, Direction, Position, ARENA_HEIGHT, ARENA_WIDTH};
use snake::food::{first_free_cell, food_spawner, place_food, Food, FoodPlacementError};
use snake::game::{snake_eating, GameState, TickOutcome};
use snake::snake::{snake_growth, snake_movement, spawn_snake, Movement, SnakeBody};

fn pos(x: i32, y: i32) -> Position {
    Position { x, y }
}

fn in_arena(p: Position) -> bool {
    0 <= p.x && p.x < ARENA_WIDTH as i32 && 0 <= p.y && p.y < ARENA_HEIGHT as i32
}

fn all_cells() -> Vec<Position> {
    let mut cells = Vec::new();
    for x in 0..ARENA_WIDTH as i32 {
        for y in 0..ARENA_HEIGHT as i32 {
            cells.push(pos(x, y));
        }
    }
    cells
}

#[test]
fn opposite_twice_is_identity() {
    for d in [Direction::Left, Direction::Right, Direction::Up, Direction::Down] {
        assert_eq!(d.opposite().opposite(), d);
        assert_ne!(d.opposite(), d);
    }
    assert_eq!(Direction::Left.opposite(), Direction::Right);
    assert_eq!(Direction::Up.opposite(), Direction::Down);
}

#[test]
fn wrap_is_idempotent() {
    for v in [-5i64, -1, 0, 1, 49, 79, 80, 81, 200, i32::MAX as i64 + 1] {
        for dim in [1u32, 2, 50, 80] {
            let once = wrap_coordinate(v, dim);
            assert_eq!(wrap_coordinate(once as i64, dim), once);
            assert!(0 <= once && once < dim as i32);
        }
    }
    assert_eq!(wrap_coordinate(-1, 50), 49);
    assert_eq!(wrap_coordinate(50, 50), 0);
    assert_eq!(wrap_coordinate(17, 50), 17);
}

#[test]
fn warp_if_needed_wraps_each_axis() {
    let mut p = pos(-1, 80);
    Position::warp_if_needed(&mut p);
    assert_eq!(p, pos(79, 0));
    Position::warp_if_needed(&mut p);
    assert_eq!(p, pos(79, 0));
    let mut q = pos(12, 34);
    Position::warp_if_needed(&mut q);
    assert_eq!(q, pos(12, 34));
}

#[test]
fn following_steps_one_cell() {
    let p = pos(10, 10);
    assert_eq!(p.following(Direction::Left), pos(9, 10));
    assert_eq!(p.following(Direction::Right), pos(11, 10));
    assert_eq!(p.following(Direction::Up), pos(10, 11));
    assert_eq!(p.following(Direction::Down), pos(10, 9));
    assert_eq!(pos(0, 0).following(Direction::Left), pos(79, 0));
    assert_eq!(pos(0, 0).following(Direction::Down), pos(0, 79));
    assert_eq!(pos(i32::MAX, 5).following(Direction::Right), pos(0, 5));
}

#[test]
fn default_position_is_origin() {
    assert_eq!(Position::default(), pos(0, 0));
}

#[test]
fn direction_from_index_covers_all() {
    assert_eq!(Direction::from_index(0), Direction::Left);
    assert_eq!(Direction::from_index(1), Direction::Right);
    assert_eq!(Direction::from_index(2), Direction::Up);
    assert_eq!(Direction::from_index(3), Direction::Down);
    assert_eq!(Direction::from_index(7), Direction::Down);
    assert_eq!(Direction::from_index(u32::MAX), Direction::Down);
}

#[test]
fn random_values_are_valid() {
    for _ in 0..200 {
        assert!(in_arena(Position::random()));
        let d = Direction::random();
        assert!(matches!(d, Direction::Left | Direction::Right | Direction::Up | Direction::Down));
    }
}

#[test]
fn from_draws_takes_residues() {
    assert_eq!(Position::from_draws(83, 161), pos(3, 1));
    assert_eq!(Position::from_draws(79, 0), pos(79, 0));
}

#[test]
fn spawn_gives_two_cells_head_ahead() {
    let start = pos(3, 2);
    let snake = spawn_snake(start, Direction::Up);
    assert_eq!(snake.len(), 2);
    assert_eq!(snake.cells()[0], start.following(Direction::Up));
    assert_eq!(snake.cells()[0], pos(3, 3));
    assert_eq!(snake.cells()[1], start);
    assert_eq!(snake.heading(), Direction::Up);
    assert_eq!(snake.head(), pos(3, 3));
}

#[test]
fn reversal_is_ignored() {
    for h in [Direction::Left, Direction::Right, Direction::Up, Direction::Down] {
        let mut snake = spawn_snake(pos(10, 10), h);
        snake.set_heading(h.opposite());
        assert_eq!(snake.heading(), h);
    }
    let mut snake = spawn_snake(pos(10, 10), Direction::Up);
    snake.set_heading(Direction::Left);
    assert_eq!(snake.heading(), Direction::Left);
}

#[test]
fn move_keeps_length_and_growth_adds_old_tail() {
    let mut snake = SnakeBody::from_cells(
        Direction::Right,
        vec![pos(5, 5), pos(4, 5), pos(3, 5)],
    )
    .unwrap();
    let outcome = snake_movement(&mut snake);
    assert_eq!(outcome, Movement::Moved { head: pos(6, 5), vacated: pos(3, 5) });
    assert_eq!(snake.len(), 3);
    assert_eq!(snake.cells(), &vec![pos(6, 5), pos(5, 5), pos(4, 5)]);
    let mut pending = Some(pos(3, 5));
    snake_growth(&mut snake, &mut pending);
    assert_eq!(pending, None);
    assert_eq!(snake.len(), 4);
    assert_eq!(snake.cells()[3], pos(3, 5));
    snake_growth(&mut snake, &mut pending);
    assert_eq!(snake.len(), 4);
}

#[test]
fn growth_onto_occupied_cell_is_dropped() {
    let mut snake = spawn_snake(pos(3, 2), Direction::Up);
    let mut pending = Some(pos(3, 3));
    snake_growth(&mut snake, &mut pending);
    assert_eq!(snake.len(), 2);
    assert_eq!(pending, None);
}

#[test]
fn occupies_tests_every_cell() {
    let snake = SnakeBody::from_cells(Direction::Up, vec![pos(1, 3), pos(1, 2), pos(1, 1)]).unwrap();
    assert!(snake.occupies(pos(1, 3)));
    assert!(snake.occupies(pos(1, 1)));
    assert!(!snake.occupies(pos(2, 2)));
}

#[test]
fn from_cells_rejects_bad_bodies() {
    assert!(SnakeBody::from_cells(Direction::Up, vec![]).is_none());
    assert!(SnakeBody::from_cells(Direction::Up, vec![pos(1, 1), pos(1, 1)]).is_none());
    assert!(SnakeBody::from_cells(Direction::Up, vec![pos(1, 1), pos(80, 1)]).is_none());
    assert!(SnakeBody::from_cells(Direction::Up, vec![pos(-1, 1)]).is_none());
    assert!(SnakeBody::from_cells(Direction::Up, vec![pos(0, 0)]).is_some());
}

#[test]
fn food_never_on_occupied_cell() {
    let mut occupied = Vec::new();
    for i in 0..40 {
        let food = food_spawner(&occupied).unwrap();
        assert!(in_arena(food.position));
        assert!(!occupied.contains(&food.position));
        occupied.push(food.position);
        occupied.push(pos(i, i));
    }
}

#[test]
fn food_fills_last_free_cell() {
    let mut cells = all_cells();
    let last = cells.remove(1234);
    assert_eq!(first_free_cell(&cells), Some(last));
    assert_eq!(food_spawner(&cells), Ok(Food { position: last }));
}

#[test]
fn food_placement_exhausted_on_full_arena() {
    let cells = all_cells();
    assert_eq!(first_free_cell(&cells), None);
    assert_eq!(food_spawner(&cells), Err(FoodPlacementError::Exhausted));
}

#[test]
fn place_food_checks_candidate() {
    let occupied = vec![pos(2, 2)];
    assert_eq!(place_food(pos(2, 3), &occupied), Some(Food { position: pos(2, 3) }));
    assert_eq!(place_food(pos(2, 2), &occupied), None);
    assert_eq!(place_food(pos(80, 3), &occupied), None);
}

#[test]
fn first_tick_moves_head_and_tail_up() {
    let snake = spawn_snake(pos(3, 2), Direction::Up);
    assert_eq!(snake.cells(), &vec![pos(3, 3), pos(3, 2)]);
    let mut game = GameState::new(snake, None).unwrap();
    assert_eq!(game.tick(None), TickOutcome::Moved);
    assert_eq!(game.snake().cells(), &vec![pos(3, 4), pos(3, 3)]);
}

#[test]
fn eating_food_ahead_leaves_growth_pending() {
    let snake = spawn_snake(pos(3, 3), Direction::Right);
    let mut game = GameState::new(snake, Some(Food { position: pos(5, 3) })).unwrap();
    assert_eq!(game.tick(None), TickOutcome::Ate);
    assert_eq!(game.food(), None);
    assert_eq!(game.pending_growth(), Some(pos(3, 3)));
    assert_eq!(game.snake().len(), 2);
    assert_eq!(game.snake().cells(), &vec![pos(5, 3), pos(4, 3)]);
    assert_eq!(game.tick(None), TickOutcome::Moved);
    assert_eq!(game.snake().len(), 3);
    assert_eq!(game.snake().cells(), &vec![pos(6, 3), pos(5, 3), pos(4, 3)]);
    assert_eq!(game.pending_growth(), None);
}

#[test]
fn snake_eating_compares_head_and_food() {
    assert!(snake_eating(pos(1, 2), &Some(Food { position: pos(1, 2) })));
    assert!(!snake_eating(pos(1, 2), &Some(Food { position: pos(2, 1) })));
    assert!(!snake_eating(pos(1, 2), &None));
}

#[test]
fn head_wraps_from_right_edge_to_zero() {
    let snake = spawn_snake(pos(78, 10), Direction::Right);
    assert_eq!(snake.head(), pos(79, 10));
    let mut game = GameState::new(snake, None).unwrap();
    game.tick(None);
    assert_eq!(game.snake().head(), pos(0, 10));
    assert_eq!(game.snake().cells()[1], pos(79, 10));
}

#[test]
fn self_collision_restarts_game() {
    let snake = SnakeBody::from_cells(
        Direction::Down,
        vec![pos(5, 5), pos(6, 5), pos(6, 4), pos(5, 4), pos(4, 4)],
    )
    .unwrap();
    let mut moved = snake.clone();
    assert_eq!(snake_movement(&mut moved), Movement::Collided);
    assert_eq!(moved.cells(), snake.cells());
    let mut game = GameState::new(snake, Some(Food { position: pos(20, 20) })).unwrap();
    assert_eq!(game.tick(Some(Direction::Down)), TickOutcome::Collided);
    assert_eq!(game.snake().len(), 2);
    let cells = game.snake().cells().clone();
    assert_eq!(cells[0], cells[1].following(game.snake().heading()));
    let food = game.food().unwrap();
    assert!(!game.snake().occupies(food.position));
    assert_eq!(game.pending_growth(), None);
}

#[test]
fn entering_vacated_tail_cell_counts_as_collision() {
    let snake = SnakeBody::from_cells(
        Direction::Down,
        vec![pos(5, 5), pos(6, 5), pos(6, 4), pos(5, 4)],
    )
    .unwrap();
    let mut game = GameState::new(snake, None).unwrap();
    assert_eq!(game.tick(None), TickOutcome::Collided);
}

#[test]
fn new_game_rejects_food_under_snake() {
    let snake = spawn_snake(pos(3, 3), Direction::Right);
    assert!(GameState::new(snake.clone(), Some(Food { position: pos(3, 3) })).is_none());
    assert!(GameState::new(snake.clone(), Some(Food { position: pos(-3, 3) })).is_none());
    assert!(GameState::new(snake, Some(Food { position: pos(9, 3) })).is_some());
}

#[test]
fn spawn_food_only_when_absent() {
    let snake = spawn_snake(pos(3, 3), Direction::Right);
    let mut game = GameState::new(snake, None).unwrap();
    assert_eq!(game.spawn_food(), Ok(()));
    let food = game.food().unwrap();
    assert!(!game.snake().occupies(food.position));
    assert_eq!(game.spawn_food(), Ok(()));
    assert_eq!(game.food(), Some(food));
}

#[test]
fn start_and_game_over_give_fresh_game() {
    let mut game = GameState::start();
    assert_eq!(game.snake().len(), 2);
    assert!(game.food().is_some());
    game.tick(None);
    game.game_over();
    assert_eq!(game.snake().len(), 2);
    let food = game.food().unwrap();
    assert!(!game.snake().occupies(food.position));
}
