use neon_snake::config::GameplayConfig;
use neon_snake::game_state::{GameState, Position};
use neon_snake::input_handler::AppState;
use neon_snake::interpolation::Fraction;
use neon_snake::timing::{run_frame, FrameReport};
use std::collections::VecDeque;

const IDLE: FrameReport = FrameReport { ticked: false, food_eaten: false, run_ended: false };

fn fresh_run() -> GameState {
    let mut game = GameState::new(GameplayConfig {
        initial_speed_ms: 150,
        min_speed_ms: 50,
        speed_increase_per_food: 5,
        grid_size: 10,
    });
    game.food = Position { x: 0, y: 0 };
    game
}

fn body_of(cells: &[(i32, i32)]) -> VecDeque<Position> {
    cells.iter().map(|&(x, y)| Position { x, y }).collect()
}

#[test]
fn nothing_runs_off_the_playing_screen() {
    for app in [AppState::MainMenu, AppState::Leaderboard] {
        let mut game = fresh_run();
        assert_eq!(run_frame(app, &mut game, 100_000), IDLE);
        assert_eq!(game.snake, body_of(&[(5, 5), (4, 5), (3, 5)]));
        assert_eq!(game.interpolation_progress, Fraction { num: 0, den: 1 });
    }
}

#[test]
fn a_frame_before_the_tick_only_moves_the_interpolation() {
    let mut game = fresh_run();
    assert_eq!(run_frame(AppState::Playing, &mut game, 149), IDLE);
    assert_eq!(game.snake, body_of(&[(5, 5), (4, 5), (3, 5)]));
    assert_eq!(game.interpolation_progress, Fraction { num: 149, den: 150 });
    assert_eq!(run_frame(AppState::Playing, &mut game, 0), IDLE);
    assert_eq!(game.interpolation_progress, Fraction { num: 0, den: 150 });
}

#[test]
fn a_tick_is_due_once_the_interval_has_passed() {
    let mut game = fresh_run();
    let report = run_frame(AppState::Playing, &mut game, 150);
    assert_eq!(report, FrameReport { ticked: true, food_eaten: false, run_ended: false });
    assert_eq!(game.snake, body_of(&[(6, 5), (5, 5), (4, 5)]));
    assert_eq!(game.interpolation_progress, Fraction { num: 0, den: 1 });
    let report = run_frame(AppState::Playing, &mut game, 100_000);
    assert!(report.ticked);
    assert_eq!(game.snake, body_of(&[(7, 5), (6, 5), (5, 5)]));
}

#[test]
fn a_frame_takes_one_tick_at_most() {
    let mut game = fresh_run();
    run_frame(AppState::Playing, &mut game, 150 * 4);
    assert_eq!(game.snake[0], Position { x: 6, y: 5 });
}

#[test]
fn a_tick_that_eats_says_so() {
    let mut game = fresh_run();
    game.food = Position { x: 6, y: 5 };
    let report = run_frame(AppState::Playing, &mut game, 150);
    assert_eq!(report, FrameReport { ticked: true, food_eaten: true, run_ended: false });
    assert_eq!(game.score, 10);
    assert_eq!(game.current_speed_ms, 145);
}

#[test]
fn ticks_follow_the_shorter_interval_after_food() {
    let mut game = fresh_run();
    game.food = Position { x: 6, y: 5 };
    run_frame(AppState::Playing, &mut game, 150);
    game.food = Position { x: 0, y: 0 };
    assert_eq!(run_frame(AppState::Playing, &mut game, 144), IDLE);
    assert_eq!(game.interpolation_progress, Fraction { num: 144, den: 145 });
    assert!(run_frame(AppState::Playing, &mut game, 145).ticked);
}

#[test]
fn the_end_of_a_run_is_told_once() {
    let mut game = fresh_run();
    for _ in 0..4 {
        let report = run_frame(AppState::Playing, &mut game, 150);
        assert_eq!(report, FrameReport { ticked: true, food_eaten: false, run_ended: false });
    }
    let report = run_frame(AppState::Playing, &mut game, 150);
    assert_eq!(report, FrameReport { ticked: true, food_eaten: false, run_ended: true });
    assert!(game.game_over);
    for _ in 0..3 {
        let report = run_frame(AppState::Playing, &mut game, 150);
        assert_eq!(report, FrameReport { ticked: true, food_eaten: false, run_ended: false });
    }
}

#[test]
fn a_paused_run_lets_the_tick_pass() {
    let mut game = fresh_run();
    run_frame(AppState::Playing, &mut game, 30);
    game.toggle_pause();
    let report = run_frame(AppState::Playing, &mut game, 150);
    assert_eq!(report, FrameReport { ticked: true, food_eaten: false, run_ended: false });
    assert_eq!(game.snake, body_of(&[(5, 5), (4, 5), (3, 5)]));
    assert_eq!(game.interpolation_progress, Fraction { num: 30, den: 150 });
}

#[test]
fn an_interval_of_zero_ticks_every_frame() {
    let mut game = GameState::new(GameplayConfig {
        initial_speed_ms: 0,
        min_speed_ms: 0,
        speed_increase_per_food: 0,
        grid_size: 10,
    });
    game.food = Position { x: 0, y: 0 };
    assert!(run_frame(AppState::Playing, &mut game, 0).ticked);
    assert_eq!(game.snake[0], Position { x: 6, y: 5 });
}
