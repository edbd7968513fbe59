//! The jump controller of a player: coyote time and jump buffering.
//!
//! Time is counted in nanoseconds. A jump is allowed for a short while after
//! the player left the ground (coyote time), and a press is remembered for a
//! short while before the player lands (jump buffer).
use vstd::prelude::*;
use crate::time::sat_sub;

verus! {

/// How long after leaving the ground a jump is still accepted: 0.1 s.
pub const PLAYER_COYOTE_TIME_NANOS: u128 = 100_000_000;

/// How long a jump press is remembered before landing: 0.1 s.
pub const PLAYER_JUMP_BUFFER_TIME_NANOS: u128 = 100_000_000;

/// The two timers of the jump controller, in nanoseconds.
#[derive(Clone, Copy, Debug)]
pub struct JumpState {
    pub coyote_timer: u128,
    pub jump_buffer_timer: u128,
}

impl JumpState {
    /// Both timers are run down.
    pub fn new() -> (r: JumpState)
        ensures
            r.coyote_timer == 0,
            r.jump_buffer_timer == 0,
    {
        JumpState { coyote_timer: 0, jump_buffer_timer: 0 }
    }

    /// No timer holds more than its full length.
    pub open spec fn wf(self) -> bool {
        &&& self.coyote_timer <= PLAYER_COYOTE_TIME_NANOS
        &&& self.jump_buffer_timer <= PLAYER_JUMP_BUFFER_TIME_NANOS
    }

    /// The coyote timer after a frame: refilled on the ground, else run down.
    pub open spec fn next_coyote(self, grounded: bool, delta_nanos: u128) -> u128 {
        if grounded {
            PLAYER_COYOTE_TIME_NANOS
        } else {
            sat_sub(self.coyote_timer, delta_nanos)
        }
    }

    /// The jump buffer after a frame: refilled by a press, else run down.
    pub open spec fn next_buffer(self, jump_pressed: bool, delta_nanos: u128) -> u128 {
        if jump_pressed {
            PLAYER_JUMP_BUFFER_TIME_NANOS
        } else {
            sat_sub(self.jump_buffer_timer, delta_nanos)
        }
    }

    /// A frame makes the player jump: both timers are still running after it.
    pub open spec fn jump_fires(self, grounded: bool, jump_pressed: bool, delta_nanos: u128) -> bool {
        self.next_coyote(grounded, delta_nanos) > 0 && self.next_buffer(jump_pressed, delta_nanos) > 0
    }

    /// The state after a frame: a jump consumes both timers.
    pub open spec fn after_frame(self, grounded: bool, jump_pressed: bool, delta_nanos: u128) -> JumpState {
        if self.jump_fires(grounded, jump_pressed, delta_nanos) {
            JumpState { coyote_timer: 0, jump_buffer_timer: 0 }
        } else {
            JumpState {
                coyote_timer: self.next_coyote(grounded, delta_nanos),
                jump_buffer_timer: self.next_buffer(jump_pressed, delta_nanos),
            }
        }
    }
}

impl Default for JumpState {
    fn default() -> (r: JumpState)
        ensures
            r.coyote_timer == 0,
            r.jump_buffer_timer == 0,
    {
        JumpState::new()
    }
}

/// Advances the jump controller by one frame of `delta_nanos`. Where the
/// player jumps, `vertical_velocity` becomes `jump_speed` and both timers are
/// spent; otherwise the velocity is left as it was.
pub fn update_jump<V>(
    jump_state: &mut JumpState,
    grounded: bool,
    jump_pressed: bool,
    delta_nanos: u128,
    vertical_velocity: &mut V,
    jump_speed: V,
)
    ensures
        *final(jump_state) == old(jump_state).after_frame(grounded, jump_pressed, delta_nanos),
        *final(vertical_velocity) == (if old(jump_state).jump_fires(grounded, jump_pressed, delta_nanos) {
            jump_speed
        } else {
            *old(vertical_velocity)
        }),
{
    if grounded {
        jump_state.coyote_timer = PLAYER_COYOTE_TIME_NANOS;
    } else if jump_state.coyote_timer > delta_nanos {
        jump_state.coyote_timer = jump_state.coyote_timer - delta_nanos;
    } else {
        jump_state.coyote_timer = 0;
    }

    if jump_pressed {
        jump_state.jump_buffer_timer = PLAYER_JUMP_BUFFER_TIME_NANOS;
    } else if jump_state.jump_buffer_timer > delta_nanos {
        jump_state.jump_buffer_timer = jump_state.jump_buffer_timer - delta_nanos;
    } else {
        jump_state.jump_buffer_timer = 0;
    }

    if jump_state.coyote_timer > 0 && jump_state.jump_buffer_timer > 0 {
        *vertical_velocity = jump_speed;
        jump_state.coyote_timer = 0;
        jump_state.jump_buffer_timer = 0;
    }
}

/// A frame that jumps spends both timers, whatever made it jump; so the
/// press is used up, and the next frame without a press does not jump
/// again, even on the ground.
pub proof fn a_jump_spends_both_timers(
    s: JumpState,
    grounded: bool,
    jump_pressed: bool,
    d1: u128,
    grounded_again: bool,
    d2: u128,
)
    requires
        s.jump_fires(grounded, jump_pressed, d1),
    ensures
        s.after_frame(grounded, jump_pressed, d1).coyote_timer == 0,
        s.after_frame(grounded, jump_pressed, d1).jump_buffer_timer == 0,
        !s.after_frame(grounded, jump_pressed, d1).jump_fires(grounded_again, false, d2),
{
}

/// A frame keeps both timers within their full lengths.
pub proof fn frame_keeps_timers_bounded(s: JumpState, grounded: bool, jump_pressed: bool, delta_nanos: u128)
    requires
        s.wf(),
    ensures
        s.after_frame(grounded, jump_pressed, delta_nanos).wf(),
{
}

/// Pressing jump while standing on the ground jumps at once, whatever the
/// timers held before.
pub proof fn grounded_press_jumps_at_once(s: JumpState, delta_nanos: u128)
    ensures
        s.jump_fires(true, true, delta_nanos),
        s.after_frame(true, true, delta_nanos) == (JumpState { coyote_timer: 0, jump_buffer_timer: 0 }),
{
}

/// Coyote time: after a frame on the ground that did not jump, a press in
/// the air less than the coyote time later still jumps.
pub proof fn press_within_coyote_time_jumps(s: JumpState, d1: u128, d2: u128)
    requires
        !s.jump_fires(true, false, d1),
        d2 < PLAYER_COYOTE_TIME_NANOS,
    ensures
        s.after_frame(true, false, d1).jump_fires(false, true, d2),
{
}

/// Jump buffering: after a press in the air that did not jump, landing less
/// than the buffer time later jumps without a new press.
pub proof fn buffered_press_jumps_on_landing(s: JumpState, d1: u128, d2: u128)
    requires
        !s.jump_fires(false, true, d1),
        d2 < PLAYER_JUMP_BUFFER_TIME_NANOS,
    ensures
        s.after_frame(false, true, d1).jump_fires(true, false, d2),
{
}

/// A remembered press expires: after a press in the air that did not jump,
/// a frame of at least the buffer time, in the air and without a press,
/// does not jump.
pub proof fn buffered_press_expires(s: JumpState, d1: u128, d2: u128)
    requires
        !s.jump_fires(false, true, d1),
        d2 >= PLAYER_JUMP_BUFFER_TIME_NANOS,
    ensures
        !s.after_frame(false, true, d1).jump_fires(false, false, d2),
{
}

/// No double jump: after a jump, no frame in the air jumps again, pressed
/// or not, until the player touches the ground.
pub proof fn no_jump_in_the_air_after_a_jump(
    s: JumpState,
    grounded: bool,
    jump_pressed: bool,
    d1: u128,
    pressed_again: bool,
    d2: u128,
)
    requires
        s.jump_fires(grounded, jump_pressed, d1),
    ensures
        !s.after_frame(grounded, jump_pressed, d1).jump_fires(false, pressed_again, d2),
{
}

/// Without a press, a jump needs a remembered press that outlasts the frame.
pub proof fn no_jump_without_a_live_press(s: JumpState, grounded: bool, delta_nanos: u128)
    requires
        s.jump_buffer_timer <= delta_nanos,
    ensures
        !s.jump_fires(grounded, false, delta_nanos),
{
}

} // verus!
