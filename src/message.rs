use vstd::prelude::*;

verus! {

/// Fixed-point value of full deflection (1.0) on every axis.
pub const FULL_SCALE: i32 = 10000;

/// One snapshot of operator intent, carried end to end.
#[derive(Clone, Copy, Debug, PartialEq, Eq, Structural)]
pub struct InputMessage {
    /// Ackermann-style forward/back.
    pub throttle: i32,
    /// Ackermann-style left/right.
    pub steering: i32,
    /// Differential-drive left side (drone pitch).
    pub throttle_left: i32,
    /// Differential-drive right side (drone nick, tray actuator).
    pub throttle_right: i32,
    /// Drone yaw.
    pub steering_left: i32,
    /// Drone roll.
    pub steering_right: i32,
    pub mode_up: bool,
    pub mode_down: bool,
    pub mode_left: bool,
    pub mode_right: bool,
    /// Advisory; always set on the fail-safe message.
    pub handbrake: bool,
}

/// An axis value within full deflection.
pub open spec fn axis_in_range(v: int) -> bool {
    -FULL_SCALE <= v <= FULL_SCALE
}

impl InputMessage {
    /// Every axis lies within full deflection.
    pub open spec fn in_range(&self) -> bool {
        &&& axis_in_range(self.throttle as int)
        &&& axis_in_range(self.steering as int)
        &&& axis_in_range(self.throttle_left as int)
        &&& axis_in_range(self.throttle_right as int)
        &&& axis_in_range(self.steering_left as int)
        &&& axis_in_range(self.steering_right as int)
    }
}

/// The all-neutral command: every axis zero, every mode flag clear,
/// handbrake set.
pub open spec fn safe_input_message() -> InputMessage {
    InputMessage {
        throttle: 0,
        steering: 0,
        throttle_left: 0,
        throttle_right: 0,
        steering_left: 0,
        steering_right: 0,
        mode_up: false,
        mode_down: false,
        mode_left: false,
        mode_right: false,
        handbrake: true,
    }
}

/// Builds the fail-safe command forwarded on watchdog expiry and shutdown.
pub fn get_safe_input_message() -> (r: InputMessage)
    ensures
        r == safe_input_message(),
        r.in_range(),
{
    InputMessage {
        throttle: 0,
        steering: 0,
        throttle_left: 0,
        throttle_right: 0,
        steering_left: 0,
        steering_right: 0,
        mode_up: false,
        mode_down: false,
        mode_left: false,
        mode_right: false,
        handbrake: true,
    }
}

/// Sum of two sizes that fits in `usize`.
pub fn add(left: usize, right: usize) -> (r: usize)
    requires
        left + right <= usize::MAX,
    ensures
        r == left + right,
{
    left + right
}

} // verus!
