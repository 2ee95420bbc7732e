use vstd::prelude::*;
use crate::message::{safe_input_message, InputMessage, FULL_SCALE};
use crate::vehicle::{HandlerError, InputMessageHandler};

verus! {

/// Pulse width for full negative deflection, in microseconds.
pub const PULSE_MIN_US: u64 = 1000;

/// Pulse width for the neutral position, in microseconds.
pub const PULSE_MID_US: u64 = 1500;

/// Pulse width for full positive deflection, in microseconds.
pub const PULSE_MAX_US: u64 = 2000;

pub const MICROS_PER_SECOND: u64 = 1000000;

/// Sets duty cycles on the two PWM channels of a car.
/// Implementations keep the duties set so far on each channel.
pub trait PwmSetHandler {
    /// Throttle duties set so far, oldest first.
    closed spec fn throttle_duties(&self) -> Seq<u32> {
        arbitrary()
    }

    /// Steering duties set so far, oldest first.
    closed spec fn steering_duties(&self) -> Seq<u32> {
        arbitrary()
    }

    fn set_throttle(&mut self, duty: u32) -> (r: Result<(), HandlerError>)
        ensures
            r is Ok ==> final(self).throttle_duties() == old(self).throttle_duties().push(duty),
            r is Ok ==> final(self).steering_duties() == old(self).steering_duties(),
    ;

    fn set_steering(&mut self, duty: u32) -> (r: Result<(), HandlerError>)
        ensures
            r is Ok ==> final(self).steering_duties() == old(self).steering_duties().push(duty),
            r is Ok ==> final(self).throttle_duties() == old(self).throttle_duties(),
    ;
}

/// Pulse width for axis value `v`, in microseconds scaled by `FULL_SCALE`:
/// the affine map taking `-1.0`, `0.0`, `1.0` to the minimum, neutral and
/// maximum pulse (reversed when inverted).
pub open spec fn pulse_scaled(v: int, invert: bool) -> int {
    let half = PULSE_MAX_US - PULSE_MID_US;
    if invert {
        PULSE_MID_US * FULL_SCALE - half * v
    } else {
        PULSE_MID_US * FULL_SCALE + half * v
    }
}

pub open spec fn clamp_duty(d: int) -> int {
    if d < 0 {
        0
    } else if d > u32::MAX {
        u32::MAX as int
    } else {
        d
    }
}

/// Duty count of a pulse of `pulse_scaled / FULL_SCALE` microseconds on a
/// channel of `freq_hz` with `max_duty` counts per period, rounded down and
/// held within `u32`.
pub open spec fn duty_for_pulse(freq_hz: int, max_duty: int, pulse_scaled: int) -> int {
    clamp_duty(
        pulse_scaled * freq_hz * max_duty / (MICROS_PER_SECOND as int * FULL_SCALE as int),
    )
}

/// Duty count for axis value `v`.
pub open spec fn duty_of(freq_hz: int, max_duty: int, invert: bool, v: int) -> int {
    duty_for_pulse(freq_hz, max_duty, pulse_scaled(v, invert))
}

/// One PWM output: frequency, duty resolution and direction.
#[derive(Clone, Copy, Debug, PartialEq, Eq, Structural)]
pub struct PwmChannel {
    pub freq_hz: u32,
    pub max_duty: u32,
    pub invert: bool,
}

impl PwmChannel {
    pub open spec fn duty_spec(&self, v: int) -> int {
        duty_of(self.freq_hz as int, self.max_duty as int, self.invert, v)
    }

    pub fn new(freq_hz: u32, max_duty: u32, invert: bool) -> (r: PwmChannel)
        requires
            freq_hz != 0,
            max_duty != 0,
        ensures
            r.freq_hz == freq_hz,
            r.max_duty == max_duty,
            r.invert == invert,
    {
        PwmChannel { freq_hz, max_duty, invert }
    }

    /// Duty count of the neutral pulse, which a zero axis value maps to.
    pub fn neutral_duty(&self) -> (r: u32)
        ensures
            r == self.duty_spec(0),
            r == duty_for_pulse(self.freq_hz as int, self.max_duty as int, PULSE_MID_US * FULL_SCALE),
    {
        duty_at(self.freq_hz, self.max_duty, self.invert, 0)
    }

    /// Duty count for axis value `v`.
    pub fn duty(&self, v: i32) -> (r: u32)
        ensures
            r == self.duty_spec(v as int),
    {
        if v == 0 {
            self.neutral_duty()
        } else {
            duty_at(self.freq_hz, self.max_duty, self.invert, v)
        }
    }
}

/// Duty count for axis value `v` on a channel of `freq_hz` and `max_duty`.
pub fn duty_at(freq_hz: u32, max_duty: u32, invert: bool, v: i32) -> (r: u32)
    ensures
        r == duty_of(freq_hz as int, max_duty as int, invert, v as int),
{
    let half: i128 = (PULSE_MAX_US - PULSE_MID_US) as i128;
    let mid: i128 = 15000000;
    assert(mid == PULSE_MID_US * FULL_SCALE);
    let pulse: i128 = if invert { mid - half * (v as i128) } else { mid + half * (v as i128) };
    assert(pulse == pulse_scaled(v as int, invert));
    assert(0 <= freq_hz as int * max_duty as int <= 0x1_0000_0000 * 0x1_0000_0000) by (nonlinear_arith)
        requires
            0 <= freq_hz <= 0xffff_ffff,
            0 <= max_duty <= 0xffff_ffff,
    ;
    let counts: i128 = (freq_hz as i128) * (max_duty as i128);
    assert(-0x100_0000_0000 <= pulse <= 0x100_0000_0000);
    assert(-0x100_0000_0000 * 0x1_0000_0000_0000_0000 <= pulse * counts
        <= 0x100_0000_0000 * 0x1_0000_0000_0000_0000) by (nonlinear_arith)
        requires
            -0x100_0000_0000 <= pulse <= 0x100_0000_0000,
            0 <= counts <= 0x1_0000_0000_0000_0000,
    ;
    let num: i128 = pulse * counts;
    assert(num == pulse_scaled(v as int, invert) * freq_hz * max_duty) by (nonlinear_arith)
        requires
            num == pulse * counts,
            counts == freq_hz as int * max_duty as int,
            pulse == pulse_scaled(v as int, invert),
    ;
    let denom: i128 = 10000000000;
    assert(denom == MICROS_PER_SECOND * FULL_SCALE);
    if num <= 0 {
        assert(num / denom <= 0) by (nonlinear_arith)
            requires
                num <= 0,
                denom > 0,
        ;
        0
    } else {
        let q: u128 = (num as u128) / (denom as u128);
        if q > 0xffff_ffffu128 {
            0xffff_ffffu32
        } else {
            q as u32
        }
    }
}

/// A car driven by two PWM channels, throttle and steering.
pub struct PwmCar<H: PwmSetHandler> {
    pub throttle: PwmChannel,
    pub steering: PwmChannel,
    pub pwm_set_handler: H,
    /// The commands actuated so far.
    pub actuated: Ghost<Seq<InputMessage>>,
}

impl<H: PwmSetHandler> PwmCar<H> {
    pub fn new(
        throttle_freq_hz: u32,
        throttle_max_duty: u32,
        throttle_invert: bool,
        steering_freq_hz: u32,
        steering_max_duty: u32,
        steering_invert: bool,
        pwm_set_handler: H,
    ) -> (r: Self)
        requires
            throttle_freq_hz != 0,
            throttle_max_duty != 0,
            steering_freq_hz != 0,
            steering_max_duty != 0,
        ensures
            r.throttle.freq_hz == throttle_freq_hz,
            r.throttle.max_duty == throttle_max_duty,
            r.throttle.invert == throttle_invert,
            r.steering.freq_hz == steering_freq_hz,
            r.steering.max_duty == steering_max_duty,
            r.steering.invert == steering_invert,
            r.pwm_set_handler == pwm_set_handler,
            r.actuated@ == Seq::<InputMessage>::empty(),
    {
        PwmCar {
            throttle: PwmChannel::new(throttle_freq_hz, throttle_max_duty, throttle_invert),
            steering: PwmChannel::new(steering_freq_hz, steering_max_duty, steering_invert),
            pwm_set_handler,
            actuated: Ghost(Seq::empty()),
        }
    }

    /// Throttle and steering duty counts for a command.
    pub fn duties(&self, input_message: &InputMessage) -> (r: (u32, u32))
        ensures
            r.0 == self.throttle.duty_spec(input_message.throttle as int),
            r.1 == self.steering.duty_spec(input_message.steering as int),
    {
        (self.throttle.duty(input_message.throttle), self.steering.duty(input_message.steering))
    }
}

impl<H: PwmSetHandler> InputMessageHandler for PwmCar<H> {
    open spec fn received(&self) -> Seq<InputMessage> {
        self.actuated@
    }

    /// Sets the throttle duty, then the steering duty, each computed by
    /// `duties`; the first failure stops.
    fn handle_input_message(&mut self, input_message: InputMessage) -> (r: Result<(), HandlerError>)
        ensures
            final(self).throttle == old(self).throttle,
            final(self).steering == old(self).steering,
            r is Ok ==> final(self).pwm_set_handler.throttle_duties()
                == old(self).pwm_set_handler.throttle_duties().push(
                old(self).throttle.duty_spec(input_message.throttle as int) as u32,
            ),
            r is Ok ==> final(self).pwm_set_handler.steering_duties()
                == old(self).pwm_set_handler.steering_duties().push(
                old(self).steering.duty_spec(input_message.steering as int) as u32,
            ),
    {
        let (throttle_pwm, steering_pwm) = self.duties(&input_message);
        self.pwm_set_handler.set_throttle(throttle_pwm)?;
        self.pwm_set_handler.set_steering(steering_pwm)?;
        self.actuated = Ghost(self.actuated@.push(input_message));
        Ok(())
    }
}

/// Idempotence: the fail-safe command maps to the neutral duty of each
/// channel, so forwarding it again hands the driver the same duties; the
/// channels themselves are unchanged by forwarding.
pub proof fn lemma_pwm_fail_safe_neutral(throttle: PwmChannel, steering: PwmChannel)
    ensures
        throttle.duty_spec(safe_input_message().throttle as int) == duty_for_pulse(
            throttle.freq_hz as int,
            throttle.max_duty as int,
            PULSE_MID_US * FULL_SCALE,
        ),
        steering.duty_spec(safe_input_message().steering as int) == duty_for_pulse(
            steering.freq_hz as int,
            steering.max_duty as int,
            PULSE_MID_US * FULL_SCALE,
        ),
{
}

} // verus!
