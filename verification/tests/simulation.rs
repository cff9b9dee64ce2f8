use vetovoima::gravity::ForceVector;
use vetovoima::input::ButtonPress;
use vetovoima::menu::MenuEvent;
use vetovoima::player::{PlayerControl, PlayerMotion};
use vetovoima::session::{AppState, GameEvent, Session};
use vetovoima::simulation::FrameInput;
use vetovoima::units::Point;

const SECOND: u64 = 1_000_000_000;
const MS: u64 = 1_000_000;

fn playing() -> Session {
    let mut session = Session::new();
    session.surface_ready();
    session.init_game(MenuEvent::BeginNewGame);
    session.game_setup(&vec![1_600; 179]);
    session.loading_update(3 * SECOND);
    assert_eq!(session.state(), AppState::InGame);
    session
}

fn quiet_frame(dt: u64, now: u64) -> FrameInput {
    FrameInput {
        dt,
        now,
        button_press: ButtonPress::default(),
        bodies: vec![Point { x: 1_000, y: 0 }, Point { x: 0, y: 0 }],
        player: Some(PlayerMotion { forward_speed: 0, backward_speed: 0, alignment: 0 }),
        goal_touched: false,
        contacts: Vec::new(),
    }
}

#[test]
fn quiet_frame_applies_forces_and_runs_the_countdown() {
    let mut session = playing();
    let output = session.frame(&quiet_frame(16 * MS, 10 * SECOND));
    assert_eq!(
        output.forces,
        vec![
            Some(ForceVector {
                x: 1_000 * 1_000_000_000 * 1_875_000,
                y: 0,
                divisor: 1_000_000 * 1_000_000_000,
            }),
            None,
        ]
    );
    assert_eq!(output.control, Some(PlayerControl { linear_velocity_delta: 0, angular_velocity: 0 }));
    assert!(output.events.is_empty());
    assert_eq!(session.game_level().unwrap().countdown().elapsed(), 16 * MS);
    assert_eq!(session.state(), AppState::InGame);
}

#[test]
fn forces_follow_the_scalar_moved_in_the_same_frame() {
    let mut session = playing();
    let mut input = quiet_frame(16 * MS, 10 * SECOND);
    input.button_press.up_pressed = true;
    let output = session.frame(&input);
    assert_eq!(session.gravity_source().force(), 960_000_000);
    assert_eq!(output.forces[0].unwrap().x, 1_000 * 960_000_000 * 1_875_000);
}

#[test]
fn pressing_right_pushes_the_player_by_accel_times_dt() {
    let mut session = playing();
    let mut input = quiet_frame(16 * MS, 10 * SECOND);
    input.button_press.right_pressed = true;
    let output = session.frame(&input);
    assert_eq!(output.control.unwrap().linear_velocity_delta, 64 * 16_000_000);
    input.player = None;
    assert_eq!(session.frame(&input).control, None);
}

#[test]
fn events_come_in_pipeline_order() {
    let mut session = playing();
    let mut input = quiet_frame(SECOND, 10 * SECOND);
    input.contacts = vec![750, 10];
    let output = session.frame(&input);
    assert_eq!(
        output.events,
        vec![GameEvent::PlayerCollided(10 * SECOND, 750), GameEvent::CountdownTick(59)]
    );
}

#[test]
fn goal_in_the_last_frame_beats_game_over() {
    let mut session = playing();
    let mut input = quiet_frame(1_000 * SECOND, 10 * SECOND);
    input.goal_touched = true;
    input.contacts = vec![5];
    let output = session.frame(&input);
    assert_eq!(output.events, vec![GameEvent::GoalReached]);
    assert_eq!(session.state(), AppState::LoadingLevel);
    assert_eq!(session.game_level().unwrap().countdown().elapsed(), 0);
}

#[test]
fn countdown_end_is_game_over() {
    let mut session = playing();
    let output = session.frame(&quiet_frame(60 * SECOND, 10 * SECOND));
    assert_eq!(output.events, vec![GameEvent::GameOver]);
    assert_eq!(session.state(), AppState::GameOver);
    let output = session.frame(&quiet_frame(60 * SECOND, 11 * SECOND));
    assert!(output.events.is_empty());
    assert!(output.forces.is_empty());
    assert_eq!(output.control, None);
}

#[test]
fn frame_outside_the_game_does_nothing() {
    let mut session = Session::new();
    session.surface_ready();
    let mut input = quiet_frame(SECOND, SECOND);
    input.goal_touched = true;
    input.contacts = vec![1];
    input.button_press.up_pressed = true;
    let output = session.frame(&input);
    assert!(output.forces.is_empty());
    assert_eq!(output.control, None);
    assert!(output.events.is_empty());
    assert_eq!(session.state(), AppState::InMenu);
    assert_eq!(session.gravity_source().force(), 1_000_000_000);
}
