use vstd::prelude::*;
use crate::message::{safe_input_message, InputMessage};
use crate::vehicle::{HandlerError, InputMessageHandler};

verus! {

/// Stick axes and flight mode of a remote drone's own command protocol.
/// Implementations keep `sticks`: the axes set, and the desired and actual
/// flight mode.
pub trait DroneSetHandler {
    closed spec fn sticks(&self) -> TelloDroneState {
        arbitrary()
    }

    fn set_throttle_left(&mut self, value: i32) -> (r: Result<(), HandlerError>)
        ensures
            r is Ok ==> final(self).sticks() == (TelloDroneState { pitch: value, ..old(self).sticks() }),
    ;

    fn set_throttle_right(&mut self, value: i32) -> (r: Result<(), HandlerError>)
        ensures
            r is Ok ==> final(self).sticks() == (TelloDroneState { nick: value, ..old(self).sticks() }),
    ;

    fn set_steering_left(&mut self, value: i32) -> (r: Result<(), HandlerError>)
        ensures
            r is Ok ==> final(self).sticks() == (TelloDroneState { yaw: value, ..old(self).sticks() }),
    ;

    fn set_steering_right(&mut self, value: i32) -> (r: Result<(), HandlerError>)
        ensures
            r is Ok ==> final(self).sticks() == (TelloDroneState { roll: value, ..old(self).sticks() }),
    ;

    fn set_flying(&mut self, value: bool) -> (r: Result<(), HandlerError>)
        ensures
            r is Ok ==> final(self).sticks() == (TelloDroneState {
                flying_desired: value,
                ..old(self).sticks()
            }),
    ;

    /// Sends the axes and carries out the flight command that the state
    /// calls for.
    fn send_state(&mut self) -> (r: Result<(), HandlerError>)
        ensures
            r is Ok ==> final(self).sticks() == old(self).sticks().flown(
                old(self).sticks().flight_action_spec(),
            ),
    ;
}

/// The flight mode a command asks for: `mode_up` asks to fly, otherwise
/// `mode_down` asks to land, otherwise the mode stays.
pub open spec fn flying_request_spec(m: InputMessage) -> Option<bool> {
    if m.mode_up {
        Some(true)
    } else if m.mode_down {
        Some(false)
    } else {
        None
    }
}

pub fn flying_request(input_message: &InputMessage) -> (r: Option<bool>)
    ensures
        r == flying_request_spec(*input_message),
{
    if input_message.mode_up {
        Some(true)
    } else if input_message.mode_down {
        Some(false)
    } else {
        None
    }
}

/// A drone driven by stick axes.
pub struct Drone<H: DroneSetHandler> {
    pub drone_handler: H,
    /// The commands actuated so far.
    pub actuated: Ghost<Seq<InputMessage>>,
}

impl<H: DroneSetHandler> Drone<H> {
    pub fn new(drone_handler: H) -> (r: Self)
        ensures
            r.drone_handler == drone_handler,
            r.actuated@ == Seq::<InputMessage>::empty(),
    {
        Drone { drone_handler, actuated: Ghost(Seq::empty()) }
    }
}

impl<H: DroneSetHandler> InputMessageHandler for Drone<H> {
    open spec fn received(&self) -> Seq<InputMessage> {
        self.actuated@
    }

    /// Sets the four stick axes from `throttle_left`, `throttle_right`,
    /// `steering_left` and `steering_right`, then the flight mode that
    /// `flying_request` gives, if any, then sends the state; the first
    /// failure stops.
    fn handle_input_message(&mut self, input_message: InputMessage) -> (r: Result<(), HandlerError>)
        ensures
            r is Ok ==> final(self).drone_handler.sticks() == old(
                self,
            ).drone_handler.sticks().after_command(input_message),
    {
        self.drone_handler.set_throttle_left(input_message.throttle_left)?;
        self.drone_handler.set_throttle_right(input_message.throttle_right)?;
        self.drone_handler.set_steering_left(input_message.steering_left)?;
        self.drone_handler.set_steering_right(input_message.steering_right)?;
        match flying_request(&input_message) {
            Some(flying) => self.drone_handler.set_flying(flying)?,
            None => {},
        }
        self.drone_handler.send_state()?;
        self.actuated = Ghost(self.actuated@.push(input_message));
        Ok(())
    }
}

/// The flight command to issue so that the drone's flight mode matches the
/// desired one.
#[derive(Clone, Copy, Debug, PartialEq, Eq, Structural)]
pub enum FlightAction {
    Hold,
    TakeOff,
    Land,
}

/// Stick axes and desired versus actual flight mode of a Tello drone.
#[derive(Clone, Copy, Debug, PartialEq, Eq, Structural)]
pub struct TelloDroneState {
    pub pitch: i32,
    pub nick: i32,
    pub roll: i32,
    pub yaw: i32,
    pub flying_desired: bool,
    pub flying_actual: bool,
}

impl TelloDroneState {
    pub open spec fn flight_action_spec(&self) -> FlightAction {
        if self.flying_actual == self.flying_desired {
            FlightAction::Hold
        } else if self.flying_desired {
            FlightAction::TakeOff
        } else {
            FlightAction::Land
        }
    }

    pub open spec fn flown(self, action: FlightAction) -> TelloDroneState {
        match action {
            FlightAction::Hold => self,
            FlightAction::TakeOff => TelloDroneState { flying_actual: true, ..self },
            FlightAction::Land => TelloDroneState { flying_actual: false, ..self },
        }
    }

    /// The state once the setters that `Drone` calls for `m` have run.
    pub open spec fn staged(self, m: InputMessage) -> TelloDroneState {
        TelloDroneState {
            pitch: m.throttle_left,
            nick: m.throttle_right,
            yaw: m.steering_left,
            roll: m.steering_right,
            flying_desired: match flying_request_spec(m) {
                Some(f) => f,
                None => self.flying_desired,
            },
            ..self
        }
    }

    /// The state once `m` was applied through `Drone` and the state was sent
    /// with its flight command carried out.
    pub open spec fn after_command(self, m: InputMessage) -> TelloDroneState {
        let staged = self.staged(m);
        staged.flown(staged.flight_action_spec())
    }

    pub fn new() -> (r: TelloDroneState)
        ensures
            r == (TelloDroneState {
                pitch: 0,
                nick: 0,
                roll: 0,
                yaw: 0,
                flying_desired: false,
                flying_actual: false,
            }),
    {
        TelloDroneState {
            pitch: 0,
            nick: 0,
            roll: 0,
            yaw: 0,
            flying_desired: false,
            flying_actual: false,
        }
    }

    pub fn set_throttle_left(&mut self, value: i32)
        ensures
            *final(self) == (TelloDroneState { pitch: value, ..*old(self) }),
    {
        self.pitch = value;
    }

    pub fn set_throttle_right(&mut self, value: i32)
        ensures
            *final(self) == (TelloDroneState { nick: value, ..*old(self) }),
    {
        self.nick = value;
    }

    pub fn set_steering_left(&mut self, value: i32)
        ensures
            *final(self) == (TelloDroneState { yaw: value, ..*old(self) }),
    {
        self.yaw = value;
    }

    pub fn set_steering_right(&mut self, value: i32)
        ensures
            *final(self) == (TelloDroneState { roll: value, ..*old(self) }),
    {
        self.roll = value;
    }

    pub fn set_flying(&mut self, value: bool)
        ensures
            *final(self) == (TelloDroneState { flying_desired: value, ..*old(self) }),
    {
        self.flying_desired = value;
    }

    /// Take off when asked to fly and on the ground, land when asked to land
    /// and flying, otherwise nothing.
    pub fn flight_action(&self) -> (r: FlightAction)
        ensures
            r == self.flight_action_spec(),
    {
        if self.flying_actual == self.flying_desired {
            FlightAction::Hold
        } else if self.flying_desired {
            FlightAction::TakeOff
        } else {
            FlightAction::Land
        }
    }

    /// Records that the drone carried out `action`.
    pub fn flight_done(&mut self, action: FlightAction)
        ensures
            *final(self) == old(self).flown(action),
    {
        match action {
            FlightAction::Hold => {},
            FlightAction::TakeOff => {
                self.flying_actual = true;
            },
            FlightAction::Land => {
                self.flying_actual = false;
            },
        }
    }
}

/// Takeoff and landing are issued at most once per change of the desired
/// flight mode: once the flight command for a state was carried out, the
/// next one is `Hold` until the desired mode changes.
pub proof fn lemma_flight_action_once(s: TelloDroneState)
    ensures
        s.flown(s.flight_action_spec()).flight_action_spec() == FlightAction::Hold,
{
}

/// Idempotence: applying the fail-safe command to the drone a second time
/// leaves it as the first time did, with no flight command.
pub proof fn lemma_drone_fail_safe_idempotent(s: TelloDroneState)
    ensures
        s.after_command(safe_input_message()).after_command(safe_input_message())
            == s.after_command(safe_input_message()),
        s.after_command(safe_input_message()).flight_action_spec() == FlightAction::Hold,
{
}

} // verus!
