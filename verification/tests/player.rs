use vetovoima::player::{
    player_control, update_player_velocity, PlayerControl, PlayerMotion, ALIGNMENT_DEAD_ZONE,
};

const UNIT: i64 = 1_000_000_000;
const DT: u64 = 16_000_000;

fn resting() -> PlayerMotion {
    PlayerMotion { forward_speed: 0, backward_speed: 0, alignment: 0 }
}

#[test]
fn right_below_max_speed_accelerates_by_accel_times_dt() {
    let motion = PlayerMotion { forward_speed: 10 * UNIT, backward_speed: UNIT, alignment: 0 };
    let control = player_control(false, true, motion, DT);
    assert_eq!(control.linear_velocity_delta, 64 * DT as i128);
    assert!(control.linear_velocity_delta > 0);
    assert_eq!(control.angular_velocity, 0);
}

#[test]
fn right_at_max_speed_does_nothing() {
    let motion = PlayerMotion { forward_speed: 64 * UNIT, backward_speed: 0, alignment: 0 };
    assert_eq!(player_control(false, true, motion, DT).linear_velocity_delta, 0);
    let motion = PlayerMotion { forward_speed: 64 * UNIT - 1, backward_speed: 0, alignment: 0 };
    assert_eq!(player_control(false, true, motion, DT).linear_velocity_delta, 64 * DT as i128);
}

#[test]
fn left_brakes_unless_moving_backwards() {
    let control = player_control(true, false, resting(), DT);
    assert_eq!(control.linear_velocity_delta, -200 * DT as i128);
    let backwards = PlayerMotion { forward_speed: 0, backward_speed: 1, alignment: 0 };
    assert_eq!(player_control(true, false, backwards, DT).linear_velocity_delta, 0);
}

#[test]
fn left_takes_precedence_over_right() {
    let control = player_control(true, true, resting(), DT);
    assert_eq!(control.linear_velocity_delta, -200 * DT as i128);
    let backwards = PlayerMotion { forward_speed: 0, backward_speed: 5, alignment: 0 };
    let control = player_control(true, true, backwards, DT);
    assert_eq!(control.linear_velocity_delta, 64 * DT as i128);
}

#[test]
fn no_input_gives_no_push() {
    assert_eq!(
        player_control(false, false, resting(), DT),
        PlayerControl { linear_velocity_delta: 0, angular_velocity: 0 }
    );
}

#[test]
fn turn_rate_follows_alignment_outside_dead_zone() {
    let mut motion = resting();
    motion.alignment = ALIGNMENT_DEAD_ZONE;
    assert_eq!(player_control(false, false, motion, DT).angular_velocity, 0);
    motion.alignment = ALIGNMENT_DEAD_ZONE + 1;
    assert_eq!(player_control(false, false, motion, DT).angular_velocity, 90 * DT as i64);
    motion.alignment = -ALIGNMENT_DEAD_ZONE;
    assert_eq!(player_control(false, false, motion, DT).angular_velocity, 0);
    motion.alignment = -ALIGNMENT_DEAD_ZONE - 1;
    assert_eq!(player_control(false, false, motion, DT).angular_velocity, -90 * DT as i64);
}

#[test]
fn turn_rate_is_clamped() {
    let mut motion = resting();
    motion.alignment = UNIT;
    assert_eq!(player_control(false, false, motion, 1_000_000_000).angular_velocity, 90 * UNIT);
    assert_eq!(player_control(false, false, motion, 2_000_000_000).angular_velocity, 90 * UNIT);
    assert_eq!(player_control(false, false, motion, u64::MAX).angular_velocity, 90 * UNIT);
    motion.alignment = i64::MIN;
    assert_eq!(player_control(false, false, motion, u64::MAX).angular_velocity, -90 * UNIT);
}

#[test]
fn long_ticks_do_not_overflow() {
    let control = player_control(true, false, resting(), u64::MAX);
    assert_eq!(control.linear_velocity_delta, -200 * u64::MAX as i128);
}

#[test]
fn missing_player_is_a_no_op() {
    assert_eq!(update_player_velocity(true, true, None, DT), None);
    assert_eq!(
        update_player_velocity(false, true, Some(resting()), DT),
        Some(PlayerControl { linear_velocity_delta: 64 * DT as i128, angular_velocity: 0 })
    );
}
