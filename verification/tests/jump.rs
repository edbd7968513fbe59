use std::time::Duration;

use prop_hunt::movement::{
    update_jump, JumpState, PLAYER_COYOTE_TIME_NANOS, PLAYER_JUMP_BUFFER_TIME_NANOS,
};

const PLAYER_JUMP_SPEED: f32 = 10.;

fn secs(s: f32) -> u128 {
    Duration::from_secs_f32(s).as_nanos()
}

#[test]
fn jumps_immediately_when_grounded() {
    let mut jump_state = JumpState::default();
    let mut vertical_velocity = 0.;

    update_jump(
        &mut jump_state,
        true,
        true,
        secs(1. / 60.),
        &mut vertical_velocity,
        PLAYER_JUMP_SPEED,
    );

    assert_eq!(vertical_velocity, PLAYER_JUMP_SPEED);
    assert_eq!(jump_state.coyote_timer, 0);
    assert_eq!(jump_state.jump_buffer_timer, 0);
}

#[test]
fn accepts_jump_during_coyote_time() {
    let mut jump_state = JumpState::default();
    let mut vertical_velocity = 0.;

    update_jump(
        &mut jump_state,
        true,
        false,
        secs(1. / 60.),
        &mut vertical_velocity,
        PLAYER_JUMP_SPEED,
    );
    update_jump(&mut jump_state, false, true, secs(0.05), &mut vertical_velocity, PLAYER_JUMP_SPEED);

    assert_eq!(vertical_velocity, PLAYER_JUMP_SPEED);
}

#[test]
fn buffers_jump_until_landing() {
    let mut jump_state = JumpState::default();
    let mut vertical_velocity = 0.;

    update_jump(
        &mut jump_state,
        false,
        true,
        secs(1. / 60.),
        &mut vertical_velocity,
        PLAYER_JUMP_SPEED,
    );
    update_jump(&mut jump_state, true, false, secs(0.05), &mut vertical_velocity, PLAYER_JUMP_SPEED);

    assert_eq!(vertical_velocity, PLAYER_JUMP_SPEED);
}

#[test]
fn does_not_jump_after_timers_expire() {
    let mut jump_state = JumpState::default();
    let mut vertical_velocity = 0.;

    update_jump(
        &mut jump_state,
        false,
        true,
        secs(1. / 60.),
        &mut vertical_velocity,
        PLAYER_JUMP_SPEED,
    );
    update_jump(&mut jump_state, false, false, secs(0.2), &mut vertical_velocity, PLAYER_JUMP_SPEED);

    assert_eq!(vertical_velocity, 0.);
}

#[test]
fn timers_are_refilled_and_run_down_exactly() {
    let mut s = JumpState::new();
    let mut v: i32 = 0;
    update_jump(&mut s, true, false, 30_000_000, &mut v, 7);
    assert_eq!(s.coyote_timer, PLAYER_COYOTE_TIME_NANOS);
    assert_eq!(s.jump_buffer_timer, 0);
    assert_eq!(v, 0);
    update_jump(&mut s, false, false, 30_000_000, &mut v, 7);
    assert_eq!(s.coyote_timer, 70_000_000);
    update_jump(&mut s, false, false, 80_000_000, &mut v, 7);
    assert_eq!(s.coyote_timer, 0);
    assert_eq!(v, 0);
}

#[test]
fn no_double_jump_in_the_air() {
    let mut s = JumpState::new();
    let mut v: i32 = 0;
    update_jump(&mut s, true, true, 10, &mut v, 5);
    assert_eq!(v, 5);
    v = -1;
    update_jump(&mut s, false, true, 10, &mut v, 5);
    assert_eq!(v, -1);
    assert_eq!(s.coyote_timer, 0);
    assert_eq!(s.jump_buffer_timer, PLAYER_JUMP_BUFFER_TIME_NANOS);
}

#[test]
fn coyote_window_ends_at_its_length() {
    let mut s = JumpState::new();
    let mut v: i32 = 0;
    update_jump(&mut s, true, false, 1, &mut v, 5);
    update_jump(&mut s, false, true, PLAYER_COYOTE_TIME_NANOS, &mut v, 5);
    assert_eq!(v, 0);
    let mut s = JumpState::new();
    update_jump(&mut s, true, false, 1, &mut v, 5);
    update_jump(&mut s, false, true, PLAYER_COYOTE_TIME_NANOS - 1, &mut v, 5);
    assert_eq!(v, 5);
}
