//! One frame of the game that is played, as a fixed pipeline: the gravity
//! scalar moves, the forces on the bodies and the control of the player are
//! worked out, then the goal and the contacts are checked, and last the
//! countdown runs.

use crate::gravity::{apply_forces, spec_force_at, ForceVector};
use crate::input::ButtonPress;
use crate::player::{spec_player_control, update_player_velocity, PlayerControl, PlayerMotion};
use crate::session::{AppState, GameEvent, Session, SessionView};
use crate::units::Point;
use vstd::prelude::*;

verus! {

/// What the collaborators report for one frame.
#[derive(Debug)]
pub struct FrameInput {
    /// Length of the frame in nanoseconds.
    pub dt: u64,
    /// Time of the frame in nanoseconds on the clock of the caller.
    pub now: u64,
    pub button_press: ButtonPress,
    /// Positions of the bodies that gravity acts on.
    pub bodies: Vec<Point>,
    /// The motion of the player, while there is one.
    pub player: Option<PlayerMotion>,
    /// Whether the player intersects the goal.
    pub goal_touched: bool,
    /// Force magnitudes of the raw contact events of the frame.
    pub contacts: Vec<u64>,
}

/// What one frame asks of the collaborators.
#[derive(Debug)]
pub struct FrameOutput {
    /// The force to set on each body, in the order of the bodies; `None`
    /// leaves a body alone.
    pub forces: Vec<Option<ForceVector>>,
    /// The change to the velocity of the player.
    pub control: Option<PlayerControl>,
    /// The events of the frame, in the order in which they arose.
    pub events: Vec<GameEvent>,
}

/// An event, if there is one, as a sequence.
pub open spec fn spec_event_seq(event: Option<GameEvent>) -> Seq<GameEvent> {
    match event {
        Some(event) => seq![event],
        None => Seq::empty(),
    }
}

/// The forces on the given bodies under the scalar `force`.
pub open spec fn spec_forces(force: int, bodies: Seq<Point>) -> Seq<Option<ForceVector>> {
    Seq::new(bodies.len(), |i: int| spec_force_at(force, bodies[i]))
}

impl SessionView {
    /// The session after the gravity step of a frame: "up" lowers the
    /// scalar and "down" raises it.
    pub open spec fn frame_gravity(
        self,
        dt: u64,
        button_press: ButtonPress,
    ) -> SessionView {
        self.gravity_updated(dt as nat, button_press.up_pressed, button_press.down_pressed)
    }

    /// The session after the goal check of a frame.
    pub open spec fn frame_goal(
        self,
        dt: u64,
        button_press: ButtonPress,
        goal_touched: bool,
    ) -> SessionView {
        self.frame_gravity(dt, button_press).goal_checked(goal_touched)
    }

    /// The session after the contacts of a frame.
    pub open spec fn frame_contacts(
        self,
        dt: u64,
        now: u64,
        button_press: ButtonPress,
        goal_touched: bool,
        contacts: Seq<u64>,
    ) -> SessionView {
        self.frame_goal(dt, button_press, goal_touched).contacts(now, contacts)
    }

    /// The session after a whole frame.
    pub open spec fn frame(
        self,
        dt: u64,
        now: u64,
        button_press: ButtonPress,
        goal_touched: bool,
        contacts: Seq<u64>,
    ) -> SessionView {
        self.frame_contacts(dt, now, button_press, goal_touched, contacts).counted_down(dt as nat)
    }

    /// The events of a whole frame: the goal first, then the collisions,
    /// then the countdown.
    pub open spec fn frame_events(
        self,
        dt: u64,
        now: u64,
        button_press: ButtonPress,
        goal_touched: bool,
        contacts: Seq<u64>,
    ) -> Seq<GameEvent> {
        spec_event_seq(self.frame_gravity(dt, button_press).goal_event(goal_touched))
            + self.frame_goal(dt, button_press, goal_touched).contacts_events(now, contacts)
            + spec_event_seq(
            self.frame_contacts(dt, now, button_press, goal_touched, contacts).countdown_event(
                dt as nat,
            ),
        )
    }

    /// The forces of a frame: on every body while the game is played, and
    /// none otherwise. They follow the scalar as the frame has moved it.
    pub open spec fn frame_forces(
        self,
        dt: u64,
        button_press: ButtonPress,
        bodies: Seq<Point>,
    ) -> Seq<Option<ForceVector>> {
        if self.state == AppState::InGame {
            spec_forces(self.frame_gravity(dt, button_press).gravity.force, bodies)
        } else {
            Seq::empty()
        }
    }

    /// The control of the player in a frame: while the game is played and
    /// the player exists.
    pub open spec fn frame_control(
        self,
        dt: u64,
        button_press: ButtonPress,
        player: Option<PlayerMotion>,
    ) -> Option<PlayerControl> {
        match player {
            Some(motion) if self.state == AppState::InGame => Some(
                spec_player_control(
                    button_press.left_pressed,
                    button_press.right_pressed,
                    motion,
                    dt,
                ),
            ),
            _ => None,
        }
    }
}

impl Session {
    /// Runs one frame of the game. Outside the game the frame moves
    /// nothing but a gravity scalar that cycles by itself.
    pub fn frame(&mut self, input: &FrameInput) -> (output: FrameOutput)
        ensures
            final(self)@ == old(self)@.frame(
                input.dt,
                input.now,
                input.button_press,
                input.goal_touched,
                input.contacts@,
            ),
            output.events@ == old(self)@.frame_events(
                input.dt,
                input.now,
                input.button_press,
                input.goal_touched,
                input.contacts@,
            ),
            output.forces@ == old(self)@.frame_forces(input.dt, input.button_press, input.bodies@),
            output.control == old(self)@.frame_control(
                input.dt,
                input.button_press,
                input.player,
            ),
            old(self)@.wf() ==> final(self)@.wf(),
    {
        let playing: bool = self.state() == AppState::InGame;
        self.update_gravity(
            input.dt,
            input.button_press.up_pressed,
            input.button_press.down_pressed,
        );
        let forces: Vec<Option<ForceVector>> = if playing {
            let forces = apply_forces(self.gravity_source(), &input.bodies);
            assert(forces@ =~= spec_forces(self@.gravity.force, input.bodies@));
            forces
        } else {
            Vec::new()
        };
        let control: Option<PlayerControl> = if playing {
            update_player_velocity(
                input.button_press.left_pressed,
                input.button_press.right_pressed,
                input.player,
                input.dt,
            )
        } else {
            None
        };
        let mut events: Vec<GameEvent> = Vec::new();
        match self.check_goal_reached(input.goal_touched) {
            Some(event) => {
                events.push(event);
            },
            None => {},
        }
        let ghost goal_events = events@;
        let mut collisions: Vec<GameEvent> = self.detect_player_collision(
            input.now,
            &input.contacts,
        );
        events.append(&mut collisions);
        let ghost contact_events = events@;
        match self.update_game_over_countdown(input.dt) {
            Some(event) => {
                events.push(event);
            },
            None => {},
        }
        assert(events@ =~= old(self)@.frame_events(
            input.dt,
            input.now,
            input.button_press,
            input.goal_touched,
            input.contacts@,
        ));
        FrameOutput { forces, control, events }
    }
}

/// A frame changes the state at most once, along an allowed transition,
/// and the goal comes before the countdown: a frame in which the goal is
/// reached never ends the game.
pub proof fn lemma_frame_transitions(
    session: SessionView,
    dt: u64,
    now: u64,
    button_press: ButtonPress,
    goal_touched: bool,
    contacts: Seq<u64>,
)
    ensures
        ({
            let after = session.frame(dt, now, button_press, goal_touched, contacts);
            &&& after.state == session.state || crate::session::allowed_transition(
                session.state,
                after.state,
            )
            &&& session.state != AppState::InGame ==> after.state == session.state
            &&& session.state == AppState::InGame && goal_touched ==> after.state
                == AppState::LoadingLevel
            &&& session.state == AppState::InGame && goal_touched ==> !session.frame_events(
                dt,
                now,
                button_press,
                goal_touched,
                contacts,
            ).contains(GameEvent::GameOver)
        }),
{
    let moved = session.frame_gravity(dt, button_press);
    let checked = moved.goal_checked(goal_touched);
    crate::session::lemma_one_collision_per_frame(checked, now, contacts);
    let touched = checked.contacts(now, contacts);
    assert(touched.state == checked.state);
    if session.state == AppState::InGame && goal_touched {
        let events = session.frame_events(dt, now, button_press, goal_touched, contacts);
        assert(checked.contacts_events(now, contacts).len() == 0);
        assert(events =~= seq![GameEvent::GoalReached]);
    }
}

} // verus!
