use vstd::prelude::*;
use crate::message::{
    axis_in_range, get_safe_input_message, safe_input_message, InputMessage, FULL_SCALE,
};

verus! {

/// Watchdog period: silence longer than this forces the fail-safe command.
pub const WATCHDOG_PERIOD_MS: u64 = 200;

/// Change of the throttle envelope per mode-button edge (0.10).
pub const ENVELOPE_STEP: i32 = 1000;

/// Change of the steering trim per message with a trim button held (0.01).
pub const TRIM_STEP: i32 = 100;

/// Failure reported by an output driver or by the device behind it.
#[derive(Debug)]
pub struct HandlerError {
    pub reason: String,
}

/// Consumes one sanitized command and produces one actuation.
/// Implementations keep `received`, the commands they have accepted so far.
pub trait InputMessageHandler {
    /// The commands accepted so far, oldest first.
    closed spec fn received(&self) -> Seq<InputMessage> {
        arbitrary()
    }

    fn handle_input_message(&mut self, input_message: InputMessage) -> (r: Result<(), HandlerError>)
        ensures
            r is Ok ==> final(self).received() == old(self).received().push(input_message),
    ;
}

pub open spec fn clamp(v: int, lo: int, hi: int) -> int {
    if v < lo {
        lo
    } else if v > hi {
        hi
    } else {
        v
    }
}

/// `flag` is set now but was not set on the previous accepted message.
pub open spec fn rising(flag: bool, last_flag: Option<bool>) -> bool {
    flag && match last_flag {
        Some(f) => !f,
        None => true,
    }
}

/// Magnitude rescaled into the envelope `[.., max]`, sign kept, rounded
/// toward zero.
pub open spec fn scaled(v: int, max: int) -> int {
    if v > 0 {
        v * max / (FULL_SCALE as int)
    } else if v < 0 {
        -((-v) * max / (FULL_SCALE as int))
    } else {
        0
    }
}

/// Steering pushed away from center up to the trim, never reduced.
pub open spec fn floored(s: int, offset: int) -> int {
    if offset > 0 && 0 <= s < offset {
        offset
    } else if offset < 0 && offset < s <= 0 {
        offset
    } else {
        s
    }
}

/// What happens to a command when the driver refuses it, and whether the
/// control loop goes on afterwards.
#[derive(Clone, Copy, Debug, PartialEq, Eq, Structural)]
pub struct Forward {
    pub message: InputMessage,
    pub failure_is_fatal: bool,
    pub keep_running: bool,
}

/// What the control loop observed in one iteration.
#[derive(Clone, Copy, Debug, PartialEq, Eq, Structural)]
pub enum VehicleEvent {
    /// The close signal is set.
    Closed,
    /// No command arrived within the watchdog period.
    Timeout,
    /// Every producer of the inbound queue is gone.
    Disconnected,
    /// A command arrived.
    Received(InputMessage),
}

/// What one loop iteration reports once the driver answered `res`: an
/// accepted command reports whether the loop goes on; a refused one is an
/// error when the failure is fatal, and is otherwise swallowed.
pub open spec fn outcome(f: Forward, res: Result<(), HandlerError>) -> Result<bool, HandlerError> {
    match res {
        Ok(_) => Ok(f.keep_running),
        Err(e) => if f.failure_is_fatal {
            Err(e)
        } else {
            Ok(f.keep_running)
        },
    }
}

/// The safety and rate-limiting state between network input and actuation.
#[derive(Clone, Copy, Debug)]
pub struct Vehicle {
    pub throttle_min: i32,
    pub throttle_max: i32,
    pub steering_offset: i32,
    /// The last command the driver accepted; used for edge detection only.
    pub last_input_message: Option<InputMessage>,
}

impl Vehicle {
    /// The envelope brackets zero and the trim is within full deflection.
    pub open spec fn wf(&self) -> bool {
        &&& -FULL_SCALE <= self.throttle_min <= 0
        &&& 0 <= self.throttle_max <= FULL_SCALE
        &&& axis_in_range(self.steering_offset as int)
    }

    pub open spec fn last_mode_up(&self) -> Option<bool> {
        match self.last_input_message {
            Some(m) => Some(m.mode_up),
            None => None,
        }
    }

    pub open spec fn last_mode_down(&self) -> Option<bool> {
        match self.last_input_message {
            Some(m) => Some(m.mode_down),
            None => None,
        }
    }

    /// Envelope and trim after the mode buttons of `m` are applied.
    pub open spec fn adjusted(self, m: InputMessage) -> Vehicle {
        let step = ENVELOPE_STEP as int;
        let one = FULL_SCALE as int;
        let up = rising(m.mode_up, self.last_mode_up());
        let down = rising(m.mode_down, self.last_mode_down());
        let max1 = if up { clamp(self.throttle_max + step, 0, one) } else { self.throttle_max as int };
        let min1 = if up { clamp(self.throttle_min - step, -one, 0) } else { self.throttle_min as int };
        let max2 = if down { clamp(max1 - step, 0, one) } else { max1 };
        let min2 = if down { clamp(min1 + step, -one, 0) } else { min1 };
        let off1 = if m.mode_left {
            clamp(self.steering_offset - TRIM_STEP, -one, one)
        } else {
            self.steering_offset as int
        };
        let off2 = if m.mode_right { clamp(off1 + TRIM_STEP, -one, one) } else { off1 };
        Vehicle {
            throttle_min: min2 as i32,
            throttle_max: max2 as i32,
            steering_offset: off2 as i32,
            last_input_message: self.last_input_message,
        }
    }

    /// `m` rescaled into this envelope, with the steering trim applied.
    pub open spec fn shaped(self, m: InputMessage) -> InputMessage {
        InputMessage {
            throttle: scaled(m.throttle as int, self.throttle_max as int) as i32,
            throttle_left: scaled(m.throttle_left as int, self.throttle_max as int) as i32,
            throttle_right: scaled(m.throttle_right as int, self.throttle_max as int) as i32,
            steering: floored(m.steering as int, self.steering_offset as int) as i32,
            ..m
        }
    }

    /// The command forwarded for a received `m`.
    pub open spec fn command_for(self, m: InputMessage) -> InputMessage {
        self.adjusted(m).shaped(m)
    }

    /// The state after the driver accepted `m`.
    pub open spec fn recorded(self, m: InputMessage) -> Vehicle {
        Vehicle { last_input_message: Some(m), ..self }
    }

    /// The state after `m` was received and its command accepted.
    pub open spec fn after_received(self, m: InputMessage) -> Vehicle {
        self.adjusted(m).recorded(self.command_for(m))
    }

    /// The command forwarded for `event`, with its failure policy.
    pub open spec fn forward_for(self, event: VehicleEvent) -> Forward {
        match event {
            VehicleEvent::Closed => Forward {
                message: safe_input_message(),
                failure_is_fatal: false,
                keep_running: false,
            },
            VehicleEvent::Timeout => Forward {
                message: safe_input_message(),
                failure_is_fatal: true,
                keep_running: true,
            },
            VehicleEvent::Disconnected => Forward {
                message: safe_input_message(),
                failure_is_fatal: false,
                keep_running: false,
            },
            VehicleEvent::Received(m) => Forward {
                message: self.command_for(m),
                failure_is_fatal: true,
                keep_running: true,
            },
        }
    }

    /// The state once the driver answered `res` to the forwarded command of
    /// `f`: the command is recorded only when accepted.
    pub open spec fn settled(self, f: Forward, res: Result<(), HandlerError>) -> Vehicle {
        if res is Ok {
            self.recorded(f.message)
        } else {
            self
        }
    }

    /// The state once the command for `event` is decided, before forwarding.
    pub open spec fn state_for(self, event: VehicleEvent) -> Vehicle {
        match event {
            VehicleEvent::Received(m) => self.adjusted(m),
            _ => self,
        }
    }

    pub fn new(
        starting_throttle_min: i32,
        starting_throttle_max: i32,
        starting_steering_offset: i32,
    ) -> (r: Vehicle)
        requires
            -FULL_SCALE <= starting_throttle_min <= 0,
            0 <= starting_throttle_max <= FULL_SCALE,
            axis_in_range(starting_steering_offset as int),
        ensures
            r.wf(),
            r.throttle_min == starting_throttle_min,
            r.throttle_max == starting_throttle_max,
            r.steering_offset == starting_steering_offset,
            r.last_input_message is None,
    {
        Vehicle {
            throttle_min: starting_throttle_min,
            throttle_max: starting_throttle_max,
            steering_offset: starting_steering_offset,
            last_input_message: None,
        }
    }
}

fn clamp_i32(v: i32, lo: i32, hi: i32) -> (r: i32)
    requires
        lo <= hi,
    ensures
        r == clamp(v as int, lo as int, hi as int),
{
    if v < lo {
        lo
    } else if v > hi {
        hi
    } else {
        v
    }
}

/// Rescales an axis into the envelope whose upper bound is `max`.
pub fn scale_axis(v: i32, max: i32) -> (r: i32)
    requires
        0 <= max <= FULL_SCALE,
    ensures
        r == scaled(v as int, max as int),
{
    let magnitude: i64 = if v < 0 { -(v as i64) } else { v as i64 };
    assert(0 <= magnitude * (max as i64) <= magnitude * FULL_SCALE) by (nonlinear_arith)
        requires
            0 <= magnitude,
            0 <= max <= FULL_SCALE,
    ;
    let adjusted: i64 = magnitude * (max as i64) / (FULL_SCALE as i64);
    assert(adjusted <= magnitude) by (nonlinear_arith)
        requires
            adjusted == magnitude * max / 10000,
            0 <= magnitude,
            0 <= max <= 10000,
    ;
    if v > 0 {
        adjusted as i32
    } else if v < 0 {
        (-adjusted) as i32
    } else {
        0
    }
}

/// Applies the steering trim to a steering value.
pub fn floor_steering(s: i32, offset: i32) -> (r: i32)
    ensures
        r == floored(s as int, offset as int),
{
    if offset > 0 {
        if s >= 0 && s < offset {
            offset
        } else {
            s
        }
    } else if offset < 0 && s <= 0 && s > offset {
        offset
    } else {
        s
    }
}

fn rising_exec(flag: bool, last: Option<bool>) -> (r: bool)
    ensures
        r == rising(flag, last),
{
    flag && match last {
        Some(f) => !f,
        None => true,
    }
}

impl Vehicle {
    /// Applies the mode buttons of `input_message` to the envelope and trim,
    /// and returns the command to forward: throttles rescaled into the new
    /// envelope, steering pushed out to the trim.
    pub fn adjust(&mut self, input_message: InputMessage) -> (r: InputMessage)
        requires
            old(self).wf(),
        ensures
            final(self).wf(),
            *final(self) == old(self).adjusted(input_message),
            r == old(self).command_for(input_message),
    {
        let one = FULL_SCALE;
        let last_up = match &self.last_input_message {
            Some(m) => Some(m.mode_up),
            None => None,
        };
        let last_down = match &self.last_input_message {
            Some(m) => Some(m.mode_down),
            None => None,
        };
        if rising_exec(input_message.mode_up, last_up) {
            self.throttle_max = clamp_i32(self.throttle_max + ENVELOPE_STEP, 0, one);
            self.throttle_min = clamp_i32(self.throttle_min - ENVELOPE_STEP, -one, 0);
        }
        if rising_exec(input_message.mode_down, last_down) {
            self.throttle_max = clamp_i32(self.throttle_max - ENVELOPE_STEP, 0, one);
            self.throttle_min = clamp_i32(self.throttle_min + ENVELOPE_STEP, -one, 0);
        }
        if input_message.mode_left {
            self.steering_offset = clamp_i32(self.steering_offset - TRIM_STEP, -one, one);
        }
        if input_message.mode_right {
            self.steering_offset = clamp_i32(self.steering_offset + TRIM_STEP, -one, one);
        }
        let mut out = input_message;
        out.throttle = scale_axis(input_message.throttle, self.throttle_max);
        out.throttle_left = scale_axis(input_message.throttle_left, self.throttle_max);
        out.throttle_right = scale_axis(input_message.throttle_right, self.throttle_max);
        out.steering = floor_steering(input_message.steering, self.steering_offset);
        out
    }

    /// Decides the command to forward for one observed event, updating the
    /// envelope and trim for a received command.
    pub fn next_forward(&mut self, event: VehicleEvent) -> (r: Forward)
        requires
            old(self).wf(),
        ensures
            final(self).wf(),
            r == old(self).forward_for(event),
            *final(self) == old(self).state_for(event),
            !(event is Received) ==> r.message == safe_input_message(),
            r.failure_is_fatal <==> (event is Timeout || event is Received),
            r.keep_running <==> (event is Timeout || event is Received),
    {
        match event {
            VehicleEvent::Closed => Forward {
                message: get_safe_input_message(),
                failure_is_fatal: false,
                keep_running: false,
            },
            VehicleEvent::Timeout => Forward {
                message: get_safe_input_message(),
                failure_is_fatal: true,
                keep_running: true,
            },
            VehicleEvent::Disconnected => Forward {
                message: get_safe_input_message(),
                failure_is_fatal: false,
                keep_running: false,
            },
            VehicleEvent::Received(m) => {
                let message = self.adjust(m);
                Forward { message, failure_is_fatal: true, keep_running: true }
            },
        }
    }

    /// Hands `input_message` to the driver and records it when accepted.
    pub fn handle_input_message<H: InputMessageHandler>(
        &mut self,
        handler: &mut H,
        input_message: InputMessage,
    ) -> (r: Result<(), HandlerError>)
        ensures
            r is Ok ==> *final(self) == old(self).recorded(input_message),
            r is Ok ==> final(handler).received() == old(handler).received().push(input_message),
            r is Err ==> *final(self) == *old(self),
    {
        let r = handler.handle_input_message(input_message);
        if r.is_ok() {
            self.last_input_message = Some(input_message);
        }
        r
    }

    /// Records the forwarded command of `f` when the driver accepted it,
    /// and says what the loop iteration reports.
    pub fn settle(&mut self, f: Forward, res: Result<(), HandlerError>) -> (r: Result<
        bool,
        HandlerError,
    >)
        ensures
            r == outcome(f, res),
            *final(self) == old(self).settled(f, res),
            res is Ok ==> r == Ok::<bool, HandlerError>(f.keep_running),
            res is Err ==> (r is Err <==> f.failure_is_fatal),
            res is Err && !f.failure_is_fatal ==> r == Ok::<bool, HandlerError>(f.keep_running),
    {
        match res {
            Ok(()) => {
                self.last_input_message = Some(f.message);
                Ok(f.keep_running)
            },
            Err(e) => {
                if f.failure_is_fatal {
                    Err(e)
                } else {
                    Ok(f.keep_running)
                }
            },
        }
    }

    /// Runs one iteration of the control loop on an observed event: decides
    /// the command (`next_forward`), hands it to the driver, and settles the
    /// driver's answer (`settle`). A driver failure ends the loop, except on
    /// the final fail-safe command at shutdown, where it is swallowed.
    pub fn handle_event<H: InputMessageHandler>(
        &mut self,
        handler: &mut H,
        event: VehicleEvent,
    ) -> (r: Result<bool, HandlerError>)
        requires
            old(self).wf(),
        ensures
            final(self).wf(),
            exists|res: Result<(), HandlerError>|
                {
                    &&& r == outcome(old(self).forward_for(event), res)
                    &&& *final(self) == old(self).state_for(event).settled(
                        old(self).forward_for(event),
                        res,
                    )
                    &&& res is Ok ==> final(handler).received() == old(handler).received().push(
                        old(self).forward_for(event).message,
                    )
                },
            event is Closed || event is Disconnected ==> r == Ok::<bool, HandlerError>(false),
            r is Ok ==> r == Ok::<bool, HandlerError>(old(self).forward_for(event).keep_running),
            event is Received && r is Ok ==> *final(self) == old(self).after_received(
                event->Received_0,
            ),
    {
        let forward = self.next_forward(event);
        let res = handler.handle_input_message(forward.message);
        self.settle(forward, res)
    }
}

/// The state after each of `ms` in turn was received and its command accepted.
pub open spec fn after_all(v: Vehicle, ms: Seq<InputMessage>) -> Vehicle
    decreases ms.len(),
{
    if ms.len() == 0 {
        v
    } else {
        after_all(v.after_received(ms[0]), ms.drop_first())
    }
}

/// A message that holds the left trim button and not the right one.
pub open spec fn trims_left(m: InputMessage) -> bool {
    m.mode_left && !m.mode_right
}

/// Receiving a command keeps the envelope and trim well-formed.
pub proof fn lemma_after_received_wf(v: Vehicle, m: InputMessage)
    requires
        v.wf(),
    ensures
        v.adjusted(m).wf(),
        v.after_received(m).wf(),
        v.after_received(m).last_input_message == Some(v.command_for(m)),
        v.command_for(m).mode_up == m.mode_up,
        v.command_for(m).mode_down == m.mode_down,
{
}

/// Envelope edges: a `mode_down` press, a release, and a second press narrow
/// the envelope exactly twice, one step each time; the release changes
/// nothing.
pub proof fn lemma_envelope_edges(v: Vehicle, a: InputMessage, b: InputMessage, c: InputMessage)
    requires
        v.wf(),
        v.last_mode_down() != Some(true),
        a.mode_down && !a.mode_up,
        !b.mode_down && !b.mode_up,
        c.mode_down && !c.mode_up,
    ensures
        ({
            let s1 = v.after_received(a);
            let s2 = s1.after_received(b);
            let s3 = s2.after_received(c);
            &&& s1.throttle_max == clamp(v.throttle_max - ENVELOPE_STEP, 0, FULL_SCALE as int)
            &&& s1.throttle_min == clamp(v.throttle_min + ENVELOPE_STEP, -FULL_SCALE, 0)
            &&& s2.throttle_max == s1.throttle_max
            &&& s2.throttle_min == s1.throttle_min
            &&& s3.throttle_max == clamp(s1.throttle_max - ENVELOPE_STEP, 0, FULL_SCALE as int)
            &&& s3.throttle_min == clamp(s1.throttle_min + ENVELOPE_STEP, -FULL_SCALE, 0)
        }),
{
    lemma_after_received_wf(v, a);
    lemma_after_received_wf(v.after_received(a), b);
}

/// Envelope edges: holding `mode_down` across consecutive messages narrows
/// the envelope once, not once per message.
pub proof fn lemma_envelope_held(v: Vehicle, a: InputMessage, b: InputMessage)
    requires
        v.wf(),
        a.mode_down && !a.mode_up,
        b.mode_down && !b.mode_up,
    ensures
        v.after_received(a).after_received(b).throttle_max == v.after_received(a).throttle_max,
        v.after_received(a).after_received(b).throttle_min == v.after_received(a).throttle_min,
{
    lemma_after_received_wf(v, a);
}

/// A message that holds `mode_down` and not `mode_up`.
pub open spec fn holds_down(m: InputMessage) -> bool {
    m.mode_down && !m.mode_up
}

/// Envelope edges: once a `mode_down` press was accepted, any number of
/// further messages that keep holding it leave the envelope as it is.
pub proof fn lemma_envelope_held_all(v: Vehicle, ms: Seq<InputMessage>)
    requires
        v.wf(),
        v.last_mode_down() == Some(true),
        forall|i: int| 0 <= i < ms.len() ==> holds_down(#[trigger] ms[i]),
    ensures
        after_all(v, ms).wf(),
        after_all(v, ms).throttle_max == v.throttle_max,
        after_all(v, ms).throttle_min == v.throttle_min,
        after_all(v, ms).last_mode_down() == Some(true),
    decreases ms.len(),
{
    if ms.len() > 0 {
        lemma_after_received_wf(v, ms[0]);
        let rest = ms.drop_first();
        assert forall|i: int| 0 <= i < rest.len() implies holds_down(#[trigger] rest[i]) by {
            assert(rest[i] == ms[i + 1]);
        }
        assert(holds_down(ms[0]));
        lemma_envelope_held_all(v.after_received(ms[0]), rest);
    }
}

/// Steering trim: each message holding the left trim button lowers the trim
/// by one step, down to full deflection and no further.
pub proof fn lemma_trim_steps(v: Vehicle, ms: Seq<InputMessage>)
    requires
        v.wf(),
        forall|i: int| 0 <= i < ms.len() ==> trims_left(#[trigger] ms[i]),
    ensures
        after_all(v, ms).wf(),
        after_all(v, ms).steering_offset == clamp(
            v.steering_offset - ms.len() * TRIM_STEP,
            -FULL_SCALE,
            FULL_SCALE as int,
        ),
    decreases ms.len(),
{
    if ms.len() > 0 {
        lemma_after_received_wf(v, ms[0]);
        let rest = ms.drop_first();
        assert forall|i: int| 0 <= i < rest.len() implies trims_left(#[trigger] rest[i]) by {
            assert(rest[i] == ms[i + 1]);
        }
        assert(trims_left(ms[0]));
        lemma_trim_steps(v.after_received(ms[0]), rest);
    }
}

/// Steering trim floor: from a centered trim, after `n` left-trim messages
/// a centered steering command is pushed out to `-n` trim steps (at most
/// full deflection).
pub proof fn lemma_trim_floor(v: Vehicle, ms: Seq<InputMessage>, m: InputMessage)
    requires
        v.wf(),
        v.steering_offset == 0,
        forall|i: int| 0 <= i < ms.len() ==> trims_left(#[trigger] ms[i]),
        ms.len() > 0,
        !m.mode_left && !m.mode_right,
        m.steering == 0,
    ensures
        after_all(v, ms).steering_offset == clamp(
            -(ms.len() * TRIM_STEP),
            -FULL_SCALE,
            FULL_SCALE as int,
        ),
        after_all(v, ms).command_for(m).steering == after_all(v, ms).steering_offset,
{
    lemma_trim_steps(v, ms);
}

/// Idempotence: forwarding the fail-safe command again, after it was
/// accepted once, forwards the same command and leaves the state as it is.
pub proof fn lemma_fail_safe_idempotent(v: Vehicle)
    requires
        v.wf(),
    ensures
        ({
            let once = v.state_for(VehicleEvent::Timeout).recorded(safe_input_message());
            &&& v.forward_for(VehicleEvent::Timeout).message == safe_input_message()
            &&& once.forward_for(VehicleEvent::Timeout) == v.forward_for(VehicleEvent::Timeout)
            &&& once.state_for(VehicleEvent::Timeout).recorded(safe_input_message()) == once
        }),
{
}

} // verus!
