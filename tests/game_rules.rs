use snake::fruit::{free_cells, relocate};
use snake::game::GameState;
use snake::grid::{contains_cell, grid_dims, pixel_center, wrap, Cell};
use snake::input::KeyPresses;
use snake::snake::{Direction, Snake};
use snake::timer::{Timer, MOVE_INTERVAL_MICROS};

fn cells(v: &[(i32, i32)]) -> Vec<Cell> {
    v.iter().map(|&(x, y)| Cell::new(x, y)).collect()
}

fn snake_of(v: &[(i32, i32)], direction: Direction) -> Snake {
    Snake { direction, segments: cells(v) }
}

fn state_with(v: &[(i32, i32)], direction: Direction, fruit: (i32, i32)) -> GameState {
    let mut g = GameState::new(32, 32);
    g.snake = snake_of(v, direction);
    g.fruit = Cell::new(fruit.0, fruit.1);
    g
}

fn keys(up: bool, down: bool, left: bool, right: bool) -> KeyPresses {
    KeyPresses { up, down, left, right }
}

#[test]
fn grid_of_a_512_pixel_window_is_32_by_32() {
    assert_eq!(grid_dims(512, 512), (32, 32));
    assert_eq!(grid_dims(500, 40), (31, 2));
    assert_eq!(grid_dims(15, 0), (0, 0));
}

#[test]
fn wrap_keeps_cells_on_the_grid() {
    assert_eq!(wrap(Cell::new(-1, 5), 32, 32), Cell::new(31, 5));
    assert_eq!(wrap(Cell::new(32, 5), 32, 32), Cell::new(0, 5));
    assert_eq!(wrap(Cell::new(3, -1), 32, 32), Cell::new(3, 31));
    assert_eq!(wrap(Cell::new(3, 32), 32, 32), Cell::new(3, 0));
    assert_eq!(wrap(Cell::new(7, 9), 32, 32), Cell::new(7, 9));
    assert_eq!(wrap(Cell::new(40, -3), 10, 4), Cell::new(0, 3));
    for x in -3..8 {
        for y in -3..8 {
            let c = wrap(Cell::new(x, y), 5, 3);
            assert!(0 <= c.x && c.x < 5 && 0 <= c.y && c.y < 3);
        }
    }
}

#[test]
fn pixel_centres_are_cell_times_sixteen_plus_eight() {
    assert_eq!(pixel_center(Cell::new(0, 0)), (8, 8));
    assert_eq!(pixel_center(Cell::new(3, 2)), (56, 40));
    assert_eq!(pixel_center(Cell::new(31, 31)), (504, 504));
}

#[test]
fn step_moves_one_cell_and_wraps() {
    let s = snake_of(&[(5, 5)], Direction::Right);
    assert_eq!(s.step(32, 32), Cell::new(6, 5));
    let s = snake_of(&[(31, 5)], Direction::Right);
    assert_eq!(s.step(32, 32), Cell::new(0, 5));
    let s = snake_of(&[(0, 5)], Direction::Left);
    assert_eq!(s.step(32, 32), Cell::new(31, 5));
    let s = snake_of(&[(4, 0)], Direction::Up);
    assert_eq!(s.step(32, 32), Cell::new(4, 31));
    let s = snake_of(&[(4, 31)], Direction::Down);
    assert_eq!(s.step(32, 32), Cell::new(4, 0));
}

#[test]
fn advance_drops_the_tail_unless_grown() {
    let mut s = snake_of(&[(5, 5), (4, 5)], Direction::Right);
    s.advance(Cell::new(6, 5), false);
    assert_eq!(s.segments, cells(&[(6, 5), (5, 5)]));
    s.advance(Cell::new(7, 5), true);
    assert_eq!(s.segments, cells(&[(7, 5), (6, 5), (5, 5)]));
}

#[test]
fn collides_with_checks_every_segment() {
    let s = snake_of(&[(5, 5), (4, 5), (3, 5)], Direction::Right);
    assert!(s.collides_with(Cell::new(5, 5)));
    assert!(s.collides_with(Cell::new(3, 5)));
    assert!(!s.collides_with(Cell::new(6, 5)));
    assert!(contains_cell(&s.segments, Cell::new(4, 5)));
    assert!(!contains_cell(&Vec::new(), Cell::new(4, 5)));
}

#[test]
fn reversal_into_the_neck_is_refused() {
    let mut s = snake_of(&[(5, 5), (4, 5)], Direction::Right);
    s.apply_keys(keys(false, false, true, false));
    assert_eq!(s.direction, Direction::Right);
    s.apply_keys(keys(true, false, false, false));
    assert_eq!(s.direction, Direction::Up);

    let mut s = snake_of(&[(5, 5), (4, 5)], Direction::Right);
    s.apply_keys(keys(false, true, false, false));
    assert_eq!(s.direction, Direction::Down);
    assert_eq!(s.segments, cells(&[(5, 5), (4, 5)]));
}

#[test]
fn queued_turn_is_judged_by_the_body() {
    // Turned up but not yet moved: down is still allowed, left is not.
    let mut s = snake_of(&[(5, 5), (4, 5)], Direction::Up);
    s.apply_keys(keys(false, true, false, false));
    assert_eq!(s.direction, Direction::Down);
    let mut s = snake_of(&[(5, 5), (4, 5)], Direction::Up);
    s.apply_keys(keys(false, false, true, false));
    assert_eq!(s.direction, Direction::Up);
}

#[test]
fn single_segment_turns_any_way_and_last_key_wins() {
    let mut s = snake_of(&[(5, 5)], Direction::Right);
    s.apply_keys(keys(false, false, true, false));
    assert_eq!(s.direction, Direction::Left);
    let mut s = snake_of(&[(5, 5)], Direction::Right);
    s.apply_keys(keys(true, true, true, true));
    assert_eq!(s.direction, Direction::Right);
    let mut s = snake_of(&[(5, 5)], Direction::Right);
    s.apply_keys(keys(true, true, false, false));
    assert_eq!(s.direction, Direction::Down);
    // Left is refused against the neck, so up, the earlier key, stays.
    let mut s = snake_of(&[(5, 5), (4, 5)], Direction::Right);
    s.apply_keys(keys(true, false, true, false));
    assert_eq!(s.direction, Direction::Up);
    let mut s = snake_of(&[(5, 5), (4, 5)], Direction::Right);
    s.apply_keys(KeyPresses::none());
    assert_eq!(s.direction, Direction::Right);
}

#[test]
fn neck_across_the_edge_does_not_guard() {
    // The neck vector is (-31, 0) after wrapping, which matches no key.
    let mut s = snake_of(&[(0, 5), (31, 5)], Direction::Right);
    s.apply_keys(keys(false, false, true, false));
    assert_eq!(s.direction, Direction::Left);
}

#[test]
fn relocate_avoids_excluded_cells() {
    let excluded = cells(&[(0, 0), (1, 0), (0, 1)]);
    for _ in 0..200 {
        let c = relocate(&excluded, 2, 2).unwrap();
        assert_eq!(c, Cell::new(1, 1));
    }
    let mut big = Vec::new();
    for x in 0..32 {
        for y in 0..31 {
            big.push(Cell::new(x, y));
        }
    }
    for _ in 0..50 {
        let c = relocate(&big, 32, 32).unwrap();
        assert_eq!(c.y, 31);
        assert!(0 <= c.x && c.x < 32);
    }
}

#[test]
fn relocate_stays_on_the_grid() {
    for _ in 0..500 {
        let c = relocate(&Vec::new(), 3, 2).unwrap();
        assert!(0 <= c.x && c.x < 3 && 0 <= c.y && c.y < 2);
    }
    for _ in 0..100 {
        assert_eq!(relocate(&Vec::new(), 1, 1), Some(Cell::new(0, 0)));
    }
}

#[test]
fn relocate_on_a_full_grid_gives_none() {
    let full = cells(&[(0, 0), (1, 0), (0, 1), (1, 1)]);
    assert_eq!(relocate(&full, 2, 2), None);
}

#[test]
fn free_cells_lists_the_rest_row_by_row() {
    let excluded = cells(&[(1, 0), (0, 1)]);
    assert_eq!(free_cells(&excluded, 3, 2), cells(&[(0, 0), (2, 0), (1, 1), (2, 1)]));
    assert!(free_cells(&cells(&[(0, 0)]), 1, 1).is_empty());
}

#[test]
fn new_game_starts_at_origin_heading_right() {
    let g = GameState::new(32, 32);
    assert_eq!(g.snake.segments, cells(&[(0, 0)]));
    assert_eq!(g.snake.direction, Direction::Right);
    assert_eq!(g.fruit, Cell::new(16, 16));
    assert!(g.running);
    assert_eq!(g.timer.move_interval, MOVE_INTERVAL_MICROS);
    assert_eq!(MOVE_INTERVAL_MICROS, 75_000);
    assert_eq!(Snake::new().segments, cells(&[(0, 0)]));
    assert_eq!(Snake::new().len(), 1);
    assert_eq!(Snake::new_at(Cell::new(2, 3)).head(), Cell::new(2, 3));
}

#[test]
fn one_tick_from_the_start_moves_right() {
    let mut g = GameState::new(32, 32);
    g.tick();
    assert_eq!(g.snake.segments, cells(&[(1, 0)]));
    assert_eq!(g.snake.len(), 1);
    assert!(g.running);
    assert_eq!(g.fruit, Cell::new(16, 16));
}

#[test]
fn eating_the_fruit_grows_by_one_and_moves_the_fruit() {
    let mut g = GameState::new(32, 32);
    g.fruit = Cell::new(1, 0);
    g.tick();
    assert_eq!(g.snake.segments, cells(&[(1, 0), (0, 0)]));
    assert!(g.running);
    assert!(!g.snake.segments.contains(&g.fruit));
    assert!(0 <= g.fruit.x && g.fruit.x < 32 && 0 <= g.fruit.y && g.fruit.y < 32);
}

#[test]
fn length_never_shrinks_over_many_ticks() {
    let mut g = GameState::new(32, 32);
    g.fruit = Cell::new(2, 0);
    let mut len = g.snake.len();
    for _ in 0..20 {
        let grows = g.snake.step(32, 32) == g.fruit;
        g.tick();
        assert!(g.running);
        let expected = if grows { len + 1 } else { len };
        assert_eq!(g.snake.len(), expected);
        len = g.snake.len();
    }
    assert!(len >= 2);
}

#[test]
fn running_into_the_body_ends_the_game() {
    let mut g = state_with(&[(5, 5), (4, 5), (4, 6), (5, 6), (6, 6)], Direction::Down, (20, 20));
    g.tick();
    assert!(!g.running);
    assert_eq!(g.snake.segments[0], Cell::new(5, 6));
}

#[test]
fn moving_into_the_old_tail_counts_as_collision() {
    let mut g = state_with(&[(5, 5), (4, 5), (4, 6), (5, 6)], Direction::Down, (20, 20));
    g.tick();
    assert!(!g.running);
}

#[test]
fn filling_the_grid_ends_the_game() {
    let mut g = GameState::new(2, 1);
    g.tick();
    assert_eq!(g.snake.segments, cells(&[(1, 0), (0, 0)]));
    assert!(!g.running);
}

#[test]
fn timer_fires_once_after_the_interval_has_accumulated() {
    let mut t = Timer::new(75_000);
    let mut fired = 0;
    for now in [25_000u64, 50_000, 75_000] {
        if t.advance(now) {
            fired += 1;
        }
    }
    assert_eq!(fired, 0);
    assert_eq!(t.move_timer, 75_000);
    assert!(t.advance(80_000));
    assert_eq!(t.move_timer, 0);
    assert!(!t.advance(90_000));
    assert_eq!(t.move_timer, 10_000);
}

#[test]
fn timer_drops_the_overshoot() {
    let mut t = Timer::new(75_000);
    assert!(!t.advance(50_000));
    assert!(!t.advance(100_000));
    assert_eq!(t.move_timer, 100_000);
    assert!(t.advance(110_000));
    assert_eq!(t.move_timer, 0);
}

#[test]
fn timer_from_seconds_in_floating_point() {
    let interval = (0.075f64 * 1_000_000.0).round() as u64;
    assert_eq!(interval, MOVE_INTERVAL_MICROS);
    let mut t = Timer::new(interval);
    let deltas = [0.025f64, 0.025, 0.025];
    let mut now = 0.0f64;
    let mut fired = 0;
    for d in deltas {
        now += d;
        if t.advance((now * 1_000_000.0).round() as u64) {
            fired += 1;
        }
    }
    if t.advance(((now + 0.016) * 1_000_000.0).round() as u64) {
        fired += 1;
    }
    assert_eq!(fired, 1);
}

#[test]
fn timer_ignores_a_clock_going_back() {
    let mut t = Timer::new(75_000);
    assert!(!t.advance(30_000));
    assert!(!t.advance(10_000));
    assert_eq!(t.move_timer, 30_000);
    assert_eq!(t.prev_time, 10_000);
}

#[test]
fn frames_turn_then_step_on_the_timer() {
    let mut g = GameState::new(32, 32);
    assert!(!g.frame(40_000, keys(false, true, false, false)));
    assert_eq!(g.snake.direction, Direction::Down);
    assert_eq!(g.snake.segments, cells(&[(0, 0)]));
    assert!(!g.frame(80_000, KeyPresses::none()));
    assert!(g.frame(90_000, KeyPresses::none()));
    assert_eq!(g.snake.segments, cells(&[(0, 1)]));
    assert_eq!(g.timer.move_timer, 0);
    assert!(g.running);
}
