use vetovoima::gravity::Cycle;
use vetovoima::menu::MenuEvent;
use vetovoima::session::{AppState, GameEvent, Session};

const SECOND: u64 = 1_000_000_000;
const MS: u64 = 1_000_000;

fn draws() -> Vec<i32> {
    vec![1_600; 179]
}

fn session_in_menu() -> Session {
    let mut session = Session::new();
    assert_eq!(session.surface_ready(), Some(MenuEvent::EnterMenu));
    session
}

fn session_loading() -> Session {
    let mut session = session_in_menu();
    assert!(session.init_game(MenuEvent::BeginNewGame));
    assert!(session.game_setup(&draws()));
    session
}

fn session_in_game() -> Session {
    let mut session = session_loading();
    assert_eq!(session.loading_update(3 * SECOND), Some(GameEvent::LevelStarted));
    assert_eq!(session.state(), AppState::InGame);
    session
}

#[test]
fn new_session_is_starting() {
    let session = Session::new();
    assert_eq!(session.state(), AppState::Init);
    assert_eq!(AppState::default(), AppState::Init);
    assert!(session.game_level().is_none());
    assert_eq!(session.gravity_source().force(), 1_000_000_000);
    assert_eq!(session.player_collision().previous_collision_time, 0);
    assert!(!session.setup_pending());
}

#[test]
fn surface_ready_enters_the_menu_once() {
    let mut session = Session::new();
    assert_eq!(session.surface_ready(), Some(MenuEvent::EnterMenu));
    assert_eq!(session.state(), AppState::InMenu);
    assert_eq!(session.surface_ready(), None);
    assert_eq!(session.state(), AppState::InMenu);
}

#[test]
fn steps_of_other_states_do_nothing_while_starting() {
    let mut session = Session::new();
    assert!(!session.init_game(MenuEvent::BeginNewGame));
    assert!(!session.game_setup(&draws()));
    assert_eq!(session.loading_update(10 * SECOND), None);
    assert_eq!(session.check_goal_reached(true), None);
    assert!(session.detect_player_collision(SECOND, &vec![1, 2]).is_empty());
    assert_eq!(session.update_game_over_countdown(100 * SECOND), None);
    assert_eq!(session.gameover_screen_update(10 * SECOND), None);
    assert_eq!(session.app_controls(true), None);
    session.update_gravity(SECOND, true, false);
    assert_eq!(session.gravity_source().force(), 1_000_000_000);
    assert_eq!(session.state(), AppState::Init);
    assert!(session.game_level().is_none());
}

#[test]
fn only_begin_new_game_leaves_the_menu() {
    let mut session = session_in_menu();
    assert!(!session.init_game(MenuEvent::EnterMenu));
    assert_eq!(session.state(), AppState::InMenu);
    assert_eq!(session.app_controls(true), None);
    assert!(session.init_game(MenuEvent::BeginNewGame));
    assert_eq!(session.state(), AppState::LoadingLevel);
    assert!(session.setup_pending());
    assert!(session.game_level().is_none());
}

#[test]
fn loading_from_nothing_generates_level_one_with_sixty_seconds() {
    let session = session_loading();
    let level = session.game_level().unwrap();
    assert_eq!(level.n(), 1);
    assert_eq!(level.countdown().secs_remaining(), 60);
    assert_eq!(level.elevation_vertices().len(), 181);
    assert!(!session.setup_pending());
}

#[test]
fn level_is_built_once_per_loading() {
    let mut session = session_loading();
    assert!(!session.game_setup(&draws()));
    assert_eq!(session.game_level().unwrap().n(), 1);
}

#[test]
fn loading_waits_for_the_level_and_then_three_seconds() {
    let mut session = session_in_menu();
    session.init_game(MenuEvent::BeginNewGame);
    assert_eq!(session.loading_update(10 * SECOND), None);
    assert_eq!(session.state(), AppState::LoadingLevel);
    session.game_setup(&draws());
    assert_eq!(session.loading_update(2 * SECOND), None);
    assert_eq!(session.loading_update(SECOND - 1), None);
    assert_eq!(session.state(), AppState::LoadingLevel);
    assert_eq!(session.loading_update(1), Some(GameEvent::LevelStarted));
    assert_eq!(session.state(), AppState::InGame);
    assert_eq!(session.loading_update(SECOND), None);
}

#[test]
fn goal_is_reached_at_most_once() {
    let mut session = session_in_game();
    assert_eq!(session.check_goal_reached(false), None);
    assert_eq!(session.state(), AppState::InGame);
    assert_eq!(session.check_goal_reached(true), Some(GameEvent::GoalReached));
    assert_eq!(session.state(), AppState::LoadingLevel);
    for _ in 0..10 {
        assert_eq!(session.check_goal_reached(true), None);
        assert_eq!(session.state(), AppState::LoadingLevel);
    }
}

#[test]
fn reaching_the_goal_continues_the_numbering() {
    let mut session = session_in_game();
    for expected in 2..=6u32 {
        assert_eq!(session.check_goal_reached(true), Some(GameEvent::GoalReached));
        assert!(session.setup_pending());
        assert!(session.game_setup(&draws()));
        assert_eq!(session.game_level().unwrap().n(), expected);
        assert_eq!(session.loading_update(3 * SECOND), Some(GameEvent::LevelStarted));
    }
    assert_eq!(session.game_level().unwrap().countdown().secs_remaining(), 40);
}

#[test]
fn reaching_the_goal_supersedes_the_countdown() {
    let mut session = session_in_game();
    assert_eq!(session.check_goal_reached(true), Some(GameEvent::GoalReached));
    assert_eq!(session.update_game_over_countdown(1_000 * SECOND), None);
    assert_eq!(session.state(), AppState::LoadingLevel);
}

#[test]
fn countdown_ticks_when_whole_seconds_change() {
    let mut session = session_in_game();
    assert_eq!(session.update_game_over_countdown(0), None);
    assert_eq!(session.update_game_over_countdown(500 * MS), None);
    assert_eq!(session.update_game_over_countdown(400 * MS), None);
    assert_eq!(
        session.update_game_over_countdown(100 * MS),
        Some(GameEvent::CountdownTick(59))
    );
    assert_eq!(session.update_game_over_countdown(100 * MS), None);
    assert_eq!(
        session.update_game_over_countdown(3 * SECOND),
        Some(GameEvent::CountdownTick(56))
    );
    assert_eq!(session.game_level().unwrap().countdown().elapsed(), 4 * SECOND + 100 * MS);
}

#[test]
fn game_is_over_exactly_once_when_the_countdown_ends() {
    let mut session = session_in_game();
    assert_eq!(
        session.update_game_over_countdown(59 * SECOND),
        Some(GameEvent::CountdownTick(1))
    );
    assert_eq!(session.update_game_over_countdown(SECOND), Some(GameEvent::GameOver));
    assert_eq!(session.state(), AppState::GameOver);
    for _ in 0..5 {
        assert_eq!(session.update_game_over_countdown(SECOND), None);
        assert_eq!(session.state(), AppState::GameOver);
    }
    assert_eq!(session.check_goal_reached(true), None);
    assert_eq!(session.app_controls(true), None);
}

#[test]
fn game_over_screen_returns_to_menu_after_five_seconds() {
    let mut session = session_in_game();
    session.update_game_over_countdown(60 * SECOND);
    assert_eq!(session.gameover_screen_update(4 * SECOND), None);
    assert_eq!(session.state(), AppState::GameOver);
    assert_eq!(session.gameover_screen_update(SECOND), Some(MenuEvent::EnterMenu));
    assert_eq!(session.state(), AppState::InMenu);
    assert_eq!(session.gameover_screen_update(SECOND), None);
}

#[test]
fn new_game_after_game_over_starts_from_level_one() {
    let mut session = session_in_game();
    session.check_goal_reached(true);
    session.game_setup(&draws());
    session.loading_update(3 * SECOND);
    assert_eq!(session.game_level().unwrap().n(), 2);
    session.update_game_over_countdown(60 * SECOND);
    session.gameover_screen_update(5 * SECOND);
    assert_eq!(session.state(), AppState::InMenu);
    assert_eq!(session.game_level().unwrap().n(), 2);
    assert!(session.init_game(MenuEvent::BeginNewGame));
    assert!(session.game_level().is_none());
    session.game_setup(&draws());
    assert_eq!(session.game_level().unwrap().n(), 1);
    // The game over screen runs its full time again.
    session.loading_update(3 * SECOND);
    session.update_game_over_countdown(60 * SECOND);
    assert_eq!(session.gameover_screen_update(4 * SECOND), None);
    assert_eq!(session.gameover_screen_update(SECOND), Some(MenuEvent::EnterMenu));
}

#[test]
fn return_to_menu_ends_the_game() {
    let mut session = session_in_game();
    assert_eq!(session.app_controls(false), None);
    assert_eq!(session.state(), AppState::InGame);
    assert_eq!(session.app_controls(true), Some(MenuEvent::EnterMenu));
    assert_eq!(session.state(), AppState::InMenu);
    assert_eq!(session.app_controls(true), None);
    assert_eq!(session.update_game_over_countdown(100 * SECOND), None);
}

#[test]
fn return_to_menu_is_ignored_while_loading() {
    let mut session = session_loading();
    assert_eq!(session.app_controls(true), None);
    assert_eq!(session.state(), AppState::LoadingLevel);
}

#[test]
fn contacts_ten_ms_apart_give_one_event() {
    let mut session = session_in_game();
    let first = session.detect_player_collision(1_000 * MS, &vec![300]);
    let second = session.detect_player_collision(1_010 * MS, &vec![400]);
    assert_eq!(first, vec![GameEvent::PlayerCollided(1_000 * MS, 300)]);
    assert!(second.is_empty());
}

#[test]
fn contacts_hundred_ms_apart_give_two_events() {
    let mut session = session_in_game();
    let first = session.detect_player_collision(1_000 * MS, &vec![300]);
    let second = session.detect_player_collision(1_100 * MS, &vec![400]);
    assert_eq!(first, vec![GameEvent::PlayerCollided(1_000 * MS, 300)]);
    assert_eq!(second, vec![GameEvent::PlayerCollided(100 * MS, 400)]);
    assert_eq!(session.player_collision().previous_collision_time, 1_100 * MS);
}

#[test]
fn contacts_of_one_frame_give_one_event() {
    let mut session = session_in_game();
    let events = session.detect_player_collision(2_000 * MS, &vec![11, 22, 33]);
    assert_eq!(events, vec![GameEvent::PlayerCollided(2_000 * MS, 11)]);
    assert!(session.detect_player_collision(2_100 * MS, &Vec::new()).is_empty());
    assert_eq!(session.player_collision().previous_collision_time, 2_000 * MS);
}

#[test]
fn loading_resets_gravity_and_debounce() {
    let mut session = session_in_game();
    session.update_gravity(16 * MS, true, false);
    session.update_gravity(16 * MS, true, false);
    assert_eq!(session.gravity_source().force(), 920_000_000);
    assert_eq!(session.gravity_source().cycle(), Cycle::Rising);
    session.detect_player_collision(5 * SECOND, &vec![1]);
    assert_eq!(session.player_collision().previous_collision_time, 5 * SECOND);
    session.check_goal_reached(true);
    assert_eq!(session.gravity_source().force(), 920_000_000);
    session.game_setup(&draws());
    assert_eq!(session.gravity_source().force(), 1_000_000_000);
    assert!(!session.gravity_source().auto_cycle());
    assert_eq!(session.player_collision().previous_collision_time, 0);
}

#[test]
fn gravity_moves_outside_the_game_only_when_cycling_by_itself() {
    let mut session = session_in_menu();
    session.update_gravity(SECOND, true, false);
    assert_eq!(session.gravity_source().force(), 1_000_000_000);
    session.set_gravity_auto_cycle(true);
    session.update_gravity(SECOND, false, false);
    assert_eq!(session.gravity_source().cycle(), Cycle::Falling);
    session.update_gravity(SECOND / 4, false, false);
    assert_eq!(session.gravity_source().force(), 750_000_000);
    assert_eq!(session.state(), AppState::InMenu);
}
