use vstd::prelude::*;
use crate::message::{InputMessage, FULL_SCALE};
use crate::pwm::{PwmChannel};

verus! {

/// Drive of one H-bridge: PWM magnitude and the two enable lines.
#[derive(Clone, Copy, Debug, PartialEq, Eq, Structural)]
pub struct BridgeDrive {
    pub duty: u32,
    pub forward_enable: bool,
    pub reverse_enable: bool,
}

/// `|v|` as a share of `max_duty`, rounded down and held within `u32`.
pub open spec fn magnitude_duty(v: int, max_duty: int) -> int {
    let m = if v < 0 { -v } else { v };
    let d = m * max_duty / (FULL_SCALE as int);
    if d > u32::MAX { u32::MAX as int } else { d }
}

/// The enable line is chosen by the sign of `v`; zero enables neither.
pub open spec fn bridge_drive(v: int, max_duty: int) -> BridgeDrive {
    BridgeDrive {
        duty: magnitude_duty(v, max_duty) as u32,
        forward_enable: v > 0,
        reverse_enable: v < 0,
    }
}

/// H-bridge drive for axis value `v` on a channel of `max_duty` counts.
pub fn drive_bridge(v: i32, max_duty: u32) -> (r: BridgeDrive)
    ensures
        r == bridge_drive(v as int, max_duty as int),
{
    let m: u64 = if v < 0 { (-(v as i64)) as u64 } else { v as u64 };
    assert(m * max_duty <= 0x8000_0000 * 0xffff_ffff) by (nonlinear_arith)
        requires
            m <= 0x8000_0000,
            max_duty <= 0xffff_ffff,
    ;
    let d: u64 = m * (max_duty as u64) / (FULL_SCALE as u64);
    let duty: u32 = if d > 0xffff_ffffu64 { 0xffff_ffffu32 } else { d as u32 };
    BridgeDrive { duty, forward_enable: v > 0, reverse_enable: v < 0 }
}

/// What a truck applies to its actuators for one command.
#[derive(Clone, Copy, Debug, PartialEq, Eq, Structural)]
pub struct TruckOutputs {
    /// Drive motor, from `throttle`.
    pub throttle: BridgeDrive,
    /// Steering servo duty, from `steering`.
    pub steering_duty: u32,
    /// Tray actuator, from `throttle_right`.
    pub tray: BridgeDrive,
}

/// A truck with an H-bridge drive motor, a steering servo and an H-bridge
/// tray actuator.
#[derive(Clone, Copy, Debug, PartialEq, Eq, Structural)]
pub struct Esp32Truck {
    pub throttle_max_duty: u32,
    pub steering: PwmChannel,
    pub tray_max_duty: u32,
}

impl Esp32Truck {
    pub open spec fn outputs_spec(&self, m: InputMessage) -> TruckOutputs {
        TruckOutputs {
            throttle: bridge_drive(m.throttle as int, self.throttle_max_duty as int),
            steering_duty: self.steering.duty_spec(m.steering as int) as u32,
            tray: bridge_drive(m.throttle_right as int, self.tray_max_duty as int),
        }
    }

    pub fn new(
        throttle_max_duty: u32,
        steering_freq_hz: u32,
        steering_max_duty: u32,
        steering_invert: bool,
        tray_max_duty: u32,
    ) -> (r: Esp32Truck)
        requires
            throttle_max_duty != 0,
            steering_freq_hz != 0,
            steering_max_duty != 0,
            tray_max_duty != 0,
        ensures
            r.throttle_max_duty == throttle_max_duty,
            r.steering == (PwmChannel {
                freq_hz: steering_freq_hz,
                max_duty: steering_max_duty,
                invert: steering_invert,
            }),
            r.tray_max_duty == tray_max_duty,
    {
        Esp32Truck {
            throttle_max_duty,
            steering: PwmChannel::new(steering_freq_hz, steering_max_duty, steering_invert),
            tray_max_duty,
        }
    }

    /// Actuator settings for a command.
    pub fn outputs(&self, input_message: &InputMessage) -> (r: TruckOutputs)
        ensures
            r == self.outputs_spec(*input_message),
    {
        TruckOutputs {
            throttle: drive_bridge(input_message.throttle, self.throttle_max_duty),
            steering_duty: self.steering.duty(input_message.steering),
            tray: drive_bridge(input_message.throttle_right, self.tray_max_duty),
        }
    }
}

} // verus!
