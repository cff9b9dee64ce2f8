//! The player controller: what the directional input does to the velocity
//! of the player in one tick.
//!
//! Speeds and the alignment of the player are measured by the caller and
//! handed in as billionths. The controller decides the push along the
//! facing direction and the turn rate that keeps the player standing
//! across the pull of gravity.

use vstd::prelude::*;

verus! {

/// The player is pushed forward only below this forward speed, and this is
/// also the forward acceleration: 64.
pub const PLAYER_MAX_FORWARD_VELOCITY: i64 = 64;

/// Acceleration that brakes and reverses the player: -200.
pub const PLAYER_SLOW_DOWN_VELOCITY: i64 = -200;

/// Largest turn rate in either direction: 90.
pub const PLAYER_MAX_ANGULAR_VELOCITY: i64 = 90;

/// The player turns only while the facing direction and the direction from
/// the gravity source are further from a right angle than this: a dot
/// product of 0.05.
pub const ALIGNMENT_DEAD_ZONE: i64 = 50_000_000;

/// What the player body is doing, as measured before a tick.
#[derive(Clone, Copy, Debug, PartialEq, Eq, Structural)]
pub struct PlayerMotion {
    /// Speed along the facing direction.
    pub forward_speed: i64,
    /// Speed against the facing direction.
    pub backward_speed: i64,
    /// Dot product of the facing direction with the direction from the
    /// gravity source to the player.
    pub alignment: i64,
}

/// What a tick does to the velocity of the player.
#[derive(Clone, Copy, Debug, PartialEq, Eq, Structural)]
pub struct PlayerControl {
    /// Added to the linear velocity, along the facing direction.
    pub linear_velocity_delta: i128,
    /// The new angular velocity.
    pub angular_velocity: i64,
}

/// Acceleration along the facing direction. "Left" brakes and reverses
/// unless the player already moves backwards; else "right" accelerates
/// while the player is below the maximum forward speed; else nothing.
pub open spec fn spec_control_intensity(
    left_pressed: bool,
    right_pressed: bool,
    motion: PlayerMotion,
) -> int {
    if left_pressed && motion.backward_speed == 0 {
        PLAYER_SLOW_DOWN_VELOCITY as int
    } else if right_pressed && motion.forward_speed < PLAYER_MAX_FORWARD_VELOCITY
        * 1_000_000_000 {
        PLAYER_MAX_FORWARD_VELOCITY as int
    } else {
        0
    }
}

/// Turn rate that the alignment asks for: the largest rate one way or the
/// other outside the dead zone about the right angle, none inside it.
pub open spec fn spec_turn_rate(alignment: int) -> int {
    if alignment > ALIGNMENT_DEAD_ZONE {
        PLAYER_MAX_ANGULAR_VELOCITY as int
    } else if alignment < -ALIGNMENT_DEAD_ZONE {
        -(PLAYER_MAX_ANGULAR_VELOCITY as int)
    } else {
        0
    }
}

/// A value held between the largest turn rates.
pub open spec fn spec_clamp_turn(value: int) -> int {
    if value > PLAYER_MAX_ANGULAR_VELOCITY * 1_000_000_000 {
        PLAYER_MAX_ANGULAR_VELOCITY * 1_000_000_000
    } else if value < -(PLAYER_MAX_ANGULAR_VELOCITY * 1_000_000_000) {
        -(PLAYER_MAX_ANGULAR_VELOCITY * 1_000_000_000)
    } else {
        value
    }
}

/// The effect of a tick of `dt` nanoseconds on the velocity of the player.
/// Both the push and the turn rate are scaled by the length of the tick.
pub open spec fn spec_player_control(
    left_pressed: bool,
    right_pressed: bool,
    motion: PlayerMotion,
    dt: u64,
) -> PlayerControl {
    PlayerControl {
        linear_velocity_delta: (spec_control_intensity(left_pressed, right_pressed, motion)
            * dt) as i128,
        angular_velocity: spec_clamp_turn(spec_turn_rate(motion.alignment as int) * dt) as i64,
    }
}

/// Decides the effect of one tick on the velocity of the player.
pub fn player_control(left_pressed: bool, right_pressed: bool, motion: PlayerMotion, dt: u64) -> (
    control: PlayerControl
)
    ensures
        control == spec_player_control(left_pressed, right_pressed, motion, dt),
        control.linear_velocity_delta == spec_control_intensity(left_pressed, right_pressed, motion)
            * dt,
        -(PLAYER_MAX_ANGULAR_VELOCITY * 1_000_000_000) <= control.angular_velocity
            <= PLAYER_MAX_ANGULAR_VELOCITY * 1_000_000_000,
{
    let intensity: i128 = if left_pressed && motion.backward_speed == 0 {
        PLAYER_SLOW_DOWN_VELOCITY as i128
    } else if right_pressed && motion.forward_speed < PLAYER_MAX_FORWARD_VELOCITY
        * 1_000_000_000 {
        PLAYER_MAX_FORWARD_VELOCITY as i128
    } else {
        0
    };
    let turn_rate: i128 = if motion.alignment > ALIGNMENT_DEAD_ZONE {
        PLAYER_MAX_ANGULAR_VELOCITY as i128
    } else if motion.alignment < -ALIGNMENT_DEAD_ZONE {
        -(PLAYER_MAX_ANGULAR_VELOCITY as i128)
    } else {
        0
    };
    let limit: i128 = (PLAYER_MAX_ANGULAR_VELOCITY as i128) * 1_000_000_000;
    let turn: i128 = turn_rate * (dt as i128);
    let angular_velocity: i64 = if turn > limit {
        limit as i64
    } else if turn < -limit {
        (-limit) as i64
    } else {
        turn as i64
    };
    PlayerControl { linear_velocity_delta: intensity * (dt as i128), angular_velocity }
}

/// The tick of the player controller. While no player body exists, between
/// two levels, the step does nothing.
pub fn update_player_velocity(
    left_pressed: bool,
    right_pressed: bool,
    player: Option<PlayerMotion>,
    dt: u64,
) -> (control: Option<PlayerControl>)
    ensures
        control == match player {
            Some(motion) => Some(spec_player_control(left_pressed, right_pressed, motion, dt)),
            None => None,
        },
{
    match player {
        Some(motion) => Some(player_control(left_pressed, right_pressed, motion, dt)),
        None => None,
    }
}

/// Pressing "right" below the maximum forward speed, and not braking,
/// adds exactly the forward acceleration times the length of the tick to
/// the velocity along the facing direction; over a tick of positive length
/// that is a strict gain.
pub proof fn lemma_right_accelerates(left_pressed: bool, motion: PlayerMotion, dt: u64)
    requires
        motion.forward_speed < PLAYER_MAX_FORWARD_VELOCITY * 1_000_000_000,
        !left_pressed || motion.backward_speed != 0,
    ensures
        spec_player_control(left_pressed, true, motion, dt).linear_velocity_delta
            == PLAYER_MAX_FORWARD_VELOCITY * dt,
        dt > 0 ==> spec_player_control(left_pressed, true, motion, dt).linear_velocity_delta > 0,
{
}

/// With neither direction pressed the controller leaves the linear
/// velocity alone.
pub proof fn lemma_no_input_no_push(motion: PlayerMotion, dt: u64)
    ensures
        spec_player_control(false, false, motion, dt).linear_velocity_delta == 0,
{
}

} // verus!
