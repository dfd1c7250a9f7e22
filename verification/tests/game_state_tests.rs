use brickbreaker::brick::{Brick, BrickKind};
use brickbreaker::game_state::{GameState, GameStatus, ScreenCommand};
use brickbreaker::level::MAX_LEVEL;

fn make_state(bricks: Vec<Brick>) -> GameState {
    GameState::new(bricks)
}

fn normal_brick() -> Brick {
    Brick::new(BrickKind::Normal)
}

#[test]
fn test_initial_status_is_waiting_to_launch() {
    let state = make_state(vec![]);
    assert_eq!(state.status, GameStatus::WaitingToLaunch);
}

#[test]
fn test_initial_lives_are_three() {
    let state = make_state(vec![]);
    assert_eq!(state.lives, 3);
}

#[test]
fn test_initial_score_is_zero() {
    let state = make_state(vec![]);
    assert_eq!(state.score, 0);
}

#[test]
fn test_no_bricks_returns_all_gone() {
    let state = make_state(vec![]);
    assert!(state.all_destroyable_bricks_gone());
}

#[test]
fn test_intact_brick_returns_not_all_gone() {
    let state = make_state(vec![normal_brick()]);
    assert!(!state.all_destroyable_bricks_gone());
}

#[test]
fn test_all_bricks_destroyed_returns_all_gone() {
    let destroyed = normal_brick().hit();
    let state = make_state(vec![destroyed]);
    assert!(state.all_destroyable_bricks_gone());
}

#[test]
fn test_indestructible_bricks_count_as_gone() {
    let indestructible = Brick::new(BrickKind::Indestructible);
    let state = make_state(vec![indestructible]);
    assert!(state.all_destroyable_bricks_gone());
}

#[test]
fn test_waiting_to_launch_is_active() {
    let state = make_state(vec![]);
    assert!(state.is_active());
}

#[test]
fn test_game_over_is_not_active() {
    let mut state = make_state(vec![]);
    state.status = GameStatus::GameOver;
    assert!(!state.is_active());
}

#[test]
fn test_active_bricks_excludes_destroyed() {
    let alive = normal_brick();
    let dead = normal_brick().hit();
    let state = make_state(vec![alive, dead]);
    assert_eq!(state.active_bricks().len(), 1);
}

#[test]
fn active_bricks_keep_order() {
    let a = Brick::new(BrickKind::Tough);
    let b = normal_brick().hit();
    let c = Brick::new(BrickKind::Indestructible);
    let d = Brick::new(BrickKind::Tough).hit();
    let state = make_state(vec![a, b, c, d]);
    assert_eq!(state.active_bricks(), vec![a, c, d]);
}

#[test]
fn is_active_only_while_playing_or_waiting() {
    let mut state = make_state(vec![]);
    for (status, active) in [
        (GameStatus::WaitingToLaunch, true),
        (GameStatus::Playing, true),
        (GameStatus::Paused, false),
        (GameStatus::LevelComplete, false),
        (GameStatus::GameOver, false),
        (GameStatus::Victory, false),
    ] {
        state.status = status;
        assert_eq!(state.is_active(), active);
    }
}

#[test]
fn start_level_carries_lives_and_score() {
    let state = GameState::start_level(2, 1, 420);
    assert_eq!(state.level, 2);
    assert_eq!(state.lives, 1);
    assert_eq!(state.score, 420);
    assert_eq!(state.combo, 0);
    assert_eq!(state.status, GameStatus::WaitingToLaunch);
    assert_eq!(state.bricks.len(), 50);
    assert!(!state.all_destroyable_bricks_gone());
}

#[test]
fn restart_after_game_over_starts_level_one() {
    let mut state = GameState::start_level(3, 0, 999);
    state.status = GameStatus::GameOver;
    assert_eq!(state.handle_screen_keys(false, true), ScreenCommand::Idle);
    assert_eq!(state.handle_screen_keys(true, false), ScreenCommand::Restarted);
    assert_eq!(state.level, 1);
    assert_eq!(state.lives, 3);
    assert_eq!(state.score, 0);
    assert_eq!(state.status, GameStatus::WaitingToLaunch);
    assert_eq!(state.bricks.len(), 40);
}

#[test]
fn restart_after_victory() {
    let mut state = GameState::start_level(3, 2, 10);
    state.status = GameStatus::Victory;
    assert_eq!(state.handle_screen_keys(true, true), ScreenCommand::Restarted);
    assert_eq!(state.level, 1);
}

#[test]
fn completed_level_advances_keeping_lives_and_score() {
    let mut state = GameState::start_level(1, 2, 300);
    state.status = GameStatus::LevelComplete;
    state.combo = 7;
    assert_eq!(state.handle_screen_keys(false, false), ScreenCommand::Idle);
    assert_eq!(state.handle_screen_keys(false, true), ScreenCommand::NextLevel);
    assert_eq!(state.level, 2);
    assert_eq!(state.lives, 2);
    assert_eq!(state.score, 300);
    assert_eq!(state.combo, 0);
    assert_eq!(state.status, GameStatus::WaitingToLaunch);
    assert_eq!(state.bricks.len(), 50);
}

#[test]
fn completing_last_level_wins() {
    let mut state = GameState::start_level(MAX_LEVEL, 1, 5000);
    state.status = GameStatus::LevelComplete;
    assert_eq!(state.handle_screen_keys(false, true), ScreenCommand::Won);
    assert_eq!(state.status, GameStatus::Victory);
    assert_eq!(state.level, MAX_LEVEL);
    assert_eq!(state.score, 5000);
}

#[test]
fn game_in_progress_runs_frames() {
    let mut state = GameState::start_level(1, 3, 0);
    assert_eq!(state.handle_screen_keys(true, true), ScreenCommand::RunFrame);
    state.status = GameStatus::Paused;
    assert_eq!(state.handle_screen_keys(false, false), ScreenCommand::RunFrame);
    state.status = GameStatus::Playing;
    assert_eq!(state.handle_screen_keys(false, false), ScreenCommand::RunFrame);
}
