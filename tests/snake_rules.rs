use snake::food::{should_spawn_food, spawn_food, Food, SpawnError};
use snake::grid::{position_in, Direction, Grid, Position};
use snake::round::{Role, RoundController, SessionState};
use snake::snake::{
    snake_eating, snake_growth, snake_movement, snake_movement_input, spawn_snake, GrowthEvent,
    Snake,
};
use snake::timer::{should_move_snake, update_snake_timer, SnakeTimer, Timer, NANOS_PER_SECOND};

fn pos(x: i32, y: i32) -> Position {
    Position { x, y }
}

const ALL: [Direction; 4] = [Direction::Left, Direction::Up, Direction::Right, Direction::Down];

#[test]
fn opposite_pairs() {
    assert_eq!(Direction::Left.opposite(), Direction::Right);
    assert_eq!(Direction::Right.opposite(), Direction::Left);
    assert_eq!(Direction::Up.opposite(), Direction::Down);
    assert_eq!(Direction::Down.opposite(), Direction::Up);
}

#[test]
fn reversal_is_ignored_for_every_direction() {
    for d in ALL {
        let mut s = Snake::from_parts(vec![pos(5, 5), pos(5, 4)], d);
        s.set_direction(d.opposite());
        assert_eq!(s.direction(), d);
        s.set_direction(d.opposite());
        assert_eq!(s.direction(), d);
        assert_eq!(s.segments(), &vec![pos(5, 5), pos(5, 4)]);
    }
}

#[test]
fn turn_to_side_is_taken() {
    let mut s = spawn_snake();
    s.set_direction(Direction::Left);
    assert_eq!(s.direction(), Direction::Left);
    snake_movement_input(&mut s, None);
    assert_eq!(s.direction(), Direction::Left);
    snake_movement_input(&mut s, Some(Direction::Right));
    assert_eq!(s.direction(), Direction::Left);
    snake_movement_input(&mut s, Some(Direction::Down));
    assert_eq!(s.direction(), Direction::Down);
}

#[test]
fn spawn_layout() {
    let s = spawn_snake();
    assert_eq!(s.segments(), &vec![pos(3, 3), pos(3, 2)]);
    assert_eq!(s.direction(), Direction::Up);
    assert_eq!(s.len(), 2);
    assert_eq!(s.head_position(), pos(3, 3));
}

#[test]
fn straight_moves_follow_head_path() {
    let mut s = Snake::from_parts(vec![pos(5, 5), pos(5, 4), pos(5, 3)], Direction::Right);
    for _ in 0..4 {
        s.advance();
    }
    assert_eq!(s.head_position(), pos(9, 5));
    assert_eq!(s.segments(), &vec![pos(9, 5), pos(8, 5), pos(7, 5)]);
    let mut t = Snake::from_parts(vec![pos(0, 0), pos(1, 0)], Direction::Down);
    t.advance();
    assert_eq!(t.segments(), &vec![pos(0, -1), pos(0, 0)]);
}

#[test]
fn advance_reports_pre_move_body_and_tail() {
    let mut s = Snake::from_parts(vec![pos(2, 2), pos(2, 1), pos(2, 0)], Direction::Up);
    let out = s.advance();
    assert_eq!(out.pre_move_segments, vec![pos(2, 2), pos(2, 1), pos(2, 0)]);
    assert_eq!(out.last_tail, pos(2, 0));
    assert_eq!(s.segments(), &vec![pos(2, 3), pos(2, 2), pos(2, 1)]);
}

#[test]
fn growth_uses_pre_move_tail() {
    let mut s = Snake::from_parts(vec![pos(2, 2), pos(2, 1), pos(2, 0)], Direction::Up);
    let out = s.advance();
    s.grow(out.last_tail);
    assert_eq!(s.segments(), &vec![pos(2, 3), pos(2, 2), pos(2, 1), pos(2, 0)]);
    assert_ne!(*s.segments().last().unwrap(), pos(2, 1));
}

#[test]
fn contains_with_and_without_head() {
    let s = Snake::from_parts(vec![pos(1, 1), pos(1, 2), pos(1, 1)], Direction::Up);
    assert!(s.contains(pos(1, 1), false));
    assert!(s.contains(pos(1, 1), true));
    let t = spawn_snake();
    assert!(t.contains(pos(3, 3), false));
    assert!(!t.contains(pos(3, 3), true));
    assert!(t.contains(pos(3, 2), true));
    assert!(!t.contains(pos(4, 4), false));
}

#[test]
fn eating_needs_exact_cell() {
    let mut food = Some(Food { position: pos(4, 4) });
    assert_eq!(snake_eating(&mut food, pos(4, 5), pos(0, 0)), None);
    assert_eq!(food, Some(Food { position: pos(4, 4) }));
    assert_eq!(snake_eating(&mut food, pos(4, 4), pos(1, 2)), Some(GrowthEvent { at: pos(1, 2) }));
    assert_eq!(food, None);
    assert_eq!(snake_eating(&mut food, pos(4, 4), pos(1, 2)), None);
}

#[test]
fn growth_event_appends_once() {
    let mut s = spawn_snake();
    snake_growth(&mut s, None);
    assert_eq!(s.len(), 2);
    snake_growth(&mut s, Some(GrowthEvent { at: pos(3, 1) }));
    assert_eq!(s.segments(), &vec![pos(3, 3), pos(3, 2), pos(3, 1)]);
}

#[test]
fn movement_flags_wall() {
    let grid = Grid { width: 10, height: 10 };
    let mut s = Snake::from_parts(vec![pos(9, 5), pos(8, 5)], Direction::Right);
    let (out, fatal) = snake_movement(&mut s, &grid);
    assert!(fatal);
    assert_eq!(s.head_position(), pos(10, 5));
    assert_eq!(out.last_tail, pos(8, 5));
    let mut t = Snake::from_parts(vec![pos(0, 0), pos(1, 0)], Direction::Down);
    assert!(snake_movement(&mut t, &grid).1);
    let mut u = spawn_snake();
    assert!(!snake_movement(&mut u, &grid).1);
}

#[test]
fn movement_flags_body_even_at_tail() {
    let grid = Grid { width: 10, height: 10 };
    let mut s = Snake::from_parts(
        vec![pos(2, 2), pos(3, 2), pos(3, 3), pos(2, 3)],
        Direction::Up,
    );
    let (_, fatal) = snake_movement(&mut s, &grid);
    assert!(fatal);
}

#[test]
fn timer_fires_and_wraps() {
    let mut t = Timer::new(100);
    t.tick(30);
    assert!(!t.finished());
    assert_eq!(t.elapsed(), 30);
    t.tick(80);
    assert!(t.finished());
    assert_eq!(t.elapsed(), 10);
    t.tick(250);
    assert!(t.finished());
    assert_eq!(t.elapsed(), 60);
    t.tick(39);
    assert!(!t.finished());
    assert_eq!(t.elapsed(), 99);
    t.tick(1);
    assert!(t.finished());
    assert_eq!(t.elapsed(), 0);
    assert_eq!(t.interval(), 100);
}

#[test]
fn timer_survives_huge_delta() {
    let mut t = Timer::new(7);
    t.tick(3);
    t.tick(u64::MAX);
    assert!(t.finished());
    assert_eq!(t.elapsed(), ((3u128 + u64::MAX as u128) % 7) as u64);
}

#[test]
fn snake_timer_gates_moves() {
    let mut t = SnakeTimer::new();
    assert_eq!(t.0.interval(), NANOS_PER_SECOND / 2);
    assert!(!should_move_snake(&t));
    update_snake_timer(&mut t, 200_000_000);
    assert!(!should_move_snake(&t));
    update_snake_timer(&mut t, 300_000_000);
    assert!(should_move_snake(&t));
    update_snake_timer(&mut t, 1);
    assert!(!should_move_snake(&t));
}

#[test]
fn spawn_gate() {
    assert!(should_spawn_food(&None, true));
    assert!(!should_spawn_food(&None, false));
    assert!(!should_spawn_food(&Some(Food { position: pos(1, 1) }), true));
}

#[test]
fn food_never_on_snake() {
    let grid = Grid { width: 10, height: 10 };
    let s = Snake::from_parts(
        vec![pos(4, 4), pos(4, 5), pos(5, 5), pos(6, 5), pos(6, 6)],
        Direction::Down,
    );
    for _ in 0..1000 {
        let f = spawn_food(&grid, &s, &None).unwrap();
        assert!(grid.contains(f.position));
        assert!(!s.contains(f.position, false));
    }
}

#[test]
fn food_finds_last_free_cell() {
    let grid = Grid { width: 3, height: 1 };
    let s = Snake::from_parts(vec![pos(0, 0), pos(2, 0)], Direction::Left);
    for _ in 0..50 {
        assert_eq!(spawn_food(&grid, &s, &None), Ok(Food { position: pos(1, 0) }));
    }
    let taken = Some(Food { position: pos(1, 0) });
    assert_eq!(spawn_food(&grid, &s, &taken), Err(SpawnError::BoardFull));
}

#[test]
fn board_full_is_reported() {
    let grid = Grid { width: 1, height: 1 };
    assert_eq!(grid.random_free_cell(&vec![pos(0, 0)]), None);
    assert_eq!(grid.random_free_cell(&vec![]), Some(pos(0, 0)));
    let s = Snake::from_parts(vec![pos(0, 0), pos(0, 0)], Direction::Up);
    assert_eq!(spawn_food(&grid, &s, &None), Err(SpawnError::BoardFull));
}

#[test]
fn free_cells_lists_rest_of_board() {
    let grid = Grid { width: 2, height: 2 };
    let free = grid.free_cells(&vec![pos(0, 0), pos(1, 1), pos(5, 5)]);
    assert_eq!(free, vec![pos(1, 0), pos(0, 1)]);
    assert!(position_in(&free, pos(0, 1)));
    assert!(!position_in(&free, pos(0, 0)));
}

#[test]
fn wall_hit_ends_round_before_eating() {
    let s = Snake::from_parts(vec![pos(9, 5), pos(8, 5), pos(7, 5)], Direction::Right);
    let mut game = RoundController::with_snake(10, 10, s, Some(Food { position: pos(2, 2) }), 10, 1000);
    let r = game.tick(10, None);
    assert!(r.moved);
    assert_eq!(r.state, SessionState::GameOver);
    assert!(!r.ate);
    assert_eq!(game.snake().segments(), &vec![pos(3, 3), pos(3, 2)]);
    assert_eq!(game.snake().direction(), Direction::Up);
    assert_eq!(game.food(), None);
}

#[test]
fn turning_into_body_ends_round() {
    let s = Snake::from_parts(
        vec![pos(3, 3), pos(3, 2), pos(3, 1), pos(3, 0)],
        Direction::Down,
    );
    let mut game = RoundController::with_snake(10, 10, s, None, 10, 1000);
    let r = game.tick(10, None);
    assert_eq!(r.state, SessionState::GameOver);
    assert_eq!(game.snake().len(), 2);
    let s2 = Snake::from_parts(
        vec![pos(3, 3), pos(4, 3), pos(4, 4), pos(3, 4), pos(2, 4)],
        Direction::Left,
    );
    let mut game2 = RoundController::with_snake(10, 10, s2, None, 10, 1000);
    let r2 = game2.tick(10, Some(Direction::Up));
    assert_eq!(r2.state, SessionState::GameOver);
}

#[test]
fn first_move_eats_and_grows_at_old_tail() {
    let mut game = RoundController::with_snake(
        10,
        10,
        spawn_snake(),
        Some(Food { position: pos(3, 4) }),
        NANOS_PER_SECOND / 2,
        10 * NANOS_PER_SECOND,
    );
    let r = game.tick(NANOS_PER_SECOND / 2, None);
    assert!(r.moved);
    assert!(r.ate);
    assert_eq!(r.state, SessionState::Running);
    assert_eq!(game.last_tail(), Some(pos(3, 2)));
    assert_eq!(game.snake().segments(), &vec![pos(3, 4), pos(3, 3), pos(3, 2)]);
    assert_eq!(game.food(), None);
}

#[test]
fn no_move_before_timer() {
    let mut game = RoundController::new(10, 10, 100, 1000);
    let r = game.tick(99, Some(Direction::Left));
    assert!(!r.moved);
    assert_eq!(game.snake().segments(), &vec![pos(3, 3), pos(3, 2)]);
    assert_eq!(game.snake().direction(), Direction::Left);
    let r2 = game.tick(1, None);
    assert!(r2.moved);
    assert_eq!(game.snake().segments(), &vec![pos(2, 3), pos(3, 3)]);
}

#[test]
fn length_never_shrinks_while_running() {
    let mut game = RoundController::new(10, 10, 10, 1_000_000);
    let mut len = game.snake().len();
    for _ in 0..6 {
        let r = game.tick(10, None);
        assert_eq!(r.state, SessionState::Running);
        assert!(game.snake().len() >= len);
        len = game.snake().len();
    }
    let r = game.tick(10, None);
    assert_eq!(r.state, SessionState::GameOver);
    assert_eq!(game.snake().len(), 2);
}

#[test]
fn food_timer_spawns_on_free_cell() {
    let mut game = RoundController::new(4, 4, 1_000, 50);
    let r = game.tick(20, None);
    assert!(!r.food_spawned);
    assert_eq!(game.food(), None);
    let r2 = game.tick(30, None);
    assert!(r2.food_spawned);
    assert!(!r2.board_full);
    let f = game.food().unwrap();
    assert!(game.grid().contains(f.position));
    assert!(!game.snake().contains(f.position, false));
    let r3 = game.tick(50, None);
    assert!(!r3.food_spawned);
    assert_eq!(game.food(), Some(f));
}

#[test]
fn pieces_list_roles() {
    let game = RoundController::with_snake(
        10,
        10,
        spawn_snake(),
        Some(Food { position: pos(7, 7) }),
        10,
        10,
    );
    assert_eq!(
        game.pieces(),
        vec![(pos(3, 3), Role::Head), (pos(3, 2), Role::Body), (pos(7, 7), Role::Food)]
    );
}
