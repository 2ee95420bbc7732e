use rc_things::message::{get_safe_input_message, InputMessage, FULL_SCALE};
use rc_things::vehicle::{
    floor_steering, scale_axis, Forward, HandlerError, InputMessageHandler, Vehicle, VehicleEvent,
};

struct TestVehicle {
    input_messages: Vec<InputMessage>,
    fail: bool,
}

impl InputMessageHandler for TestVehicle {
    fn handle_input_message(&mut self, input_message: InputMessage) -> Result<(), HandlerError> {
        if self.fail {
            return Err(HandlerError { reason: String::from("refused") });
        }
        self.input_messages.push(input_message);
        Ok(())
    }
}

fn get_test_resources() -> (TestVehicle, Vehicle, InputMessage) {
    let input_message = InputMessage {
        throttle: FULL_SCALE,
        steering: 0,
        throttle_left: 0,
        throttle_right: 0,
        steering_left: 0,
        steering_right: 0,
        mode_up: false,
        mode_down: false,
        mode_left: false,
        mode_right: false,
        handbrake: false,
    };
    let handler = TestVehicle { input_messages: vec![], fail: false };
    let vehicle = Vehicle::new(-FULL_SCALE, FULL_SCALE, 0);
    (handler, vehicle, input_message)
}

fn send(vehicle: &mut Vehicle, handler: &mut TestVehicle, m: &InputMessage) {
    let r = vehicle.handle_event(handler, VehicleEvent::Received(m.clone()));
    assert_eq!(r.unwrap(), true);
}

fn drain(handler: &mut TestVehicle) -> Vec<InputMessage> {
    let out = handler.input_messages.clone();
    handler.input_messages.clear();
    out
}

#[test]
fn vehicle_happy_path() {
    let (mut handler, mut vehicle, mut input_message) = get_test_resources();

    send(&mut vehicle, &mut handler, &input_message);
    let input_messages = drain(&mut handler);
    assert!(input_messages.contains(&input_message));

    let mut expected_input_message = input_message.clone();
    expected_input_message.throttle = 9000;
    input_message.mode_down = true;
    send(&mut vehicle, &mut handler, &input_message);
    input_message.mode_down = false;
    send(&mut vehicle, &mut handler, &input_message);
    let input_messages = drain(&mut handler);
    assert!(input_messages.contains(&expected_input_message));

    let mut expected_input_message = input_message.clone();
    expected_input_message.throttle = 9000;
    expected_input_message.steering = -100;
    input_message.mode_left = true;
    send(&mut vehicle, &mut handler, &input_message);
    input_message.mode_left = false;
    send(&mut vehicle, &mut handler, &input_message);
    let input_messages = drain(&mut handler);
    assert!(input_messages.contains(&expected_input_message));

    let mut expected_input_message = input_message.clone();
    expected_input_message.throttle = 9000;
    expected_input_message.steering = -1000;
    for _ in 0..9 {
        input_message.mode_left = true;
        send(&mut vehicle, &mut handler, &input_message);
        input_message.mode_left = false;
        send(&mut vehicle, &mut handler, &input_message);
    }
    let input_messages = drain(&mut handler);
    assert!(input_messages.contains(&expected_input_message));

    let mut expected_input_message = input_message.clone();
    expected_input_message.throttle = 9000;
    expected_input_message.steering = 0;
    for _ in 0..10 {
        input_message.mode_right = true;
        send(&mut vehicle, &mut handler, &input_message);
        input_message.mode_right = false;
        send(&mut vehicle, &mut handler, &input_message);
    }
    let input_messages = drain(&mut handler);
    assert!(input_messages.contains(&expected_input_message));

    let r = vehicle.handle_event(&mut handler, VehicleEvent::Closed);
    assert_eq!(r.unwrap(), false);
    assert_eq!(drain(&mut handler), vec![get_safe_input_message()]);
}

#[test]
fn too_late() {
    let (mut handler, mut vehicle, input_message) = get_test_resources();

    let r = vehicle.handle_event(&mut handler, VehicleEvent::Timeout);
    assert_eq!(r.unwrap(), true);
    let input_messages = drain(&mut handler);

    assert!(!input_messages.contains(&input_message));
    assert_eq!(input_messages, vec![get_safe_input_message()]);
}

#[test]
fn safe_message_is_neutral_with_handbrake() {
    let m = get_safe_input_message();
    assert_eq!(m.throttle, 0);
    assert_eq!(m.steering, 0);
    assert_eq!(m.throttle_left, 0);
    assert_eq!(m.throttle_right, 0);
    assert_eq!(m.steering_left, 0);
    assert_eq!(m.steering_right, 0);
    assert!(!m.mode_up && !m.mode_down && !m.mode_left && !m.mode_right);
    assert!(m.handbrake);
}

#[test]
fn add_sums() {
    assert_eq!(rc_things::message::add(2, 2), 4);
}

#[test]
fn watchdog_then_message_again() {
    let (mut handler, mut vehicle, input_message) = get_test_resources();
    send(&mut vehicle, &mut handler, &input_message);
    vehicle.handle_event(&mut handler, VehicleEvent::Timeout).unwrap();
    send(&mut vehicle, &mut handler, &input_message);
    let out = drain(&mut handler);
    assert_eq!(out, vec![input_message.clone(), get_safe_input_message(), input_message]);
}

#[test]
fn disconnect_forwards_fail_safe_and_stops() {
    let (mut handler, mut vehicle, _) = get_test_resources();
    let r = vehicle.handle_event(&mut handler, VehicleEvent::Disconnected);
    assert_eq!(r.unwrap(), false);
    assert_eq!(drain(&mut handler), vec![get_safe_input_message()]);
}

#[test]
fn envelope_edge_narrows_twice_not_while_held() {
    let (mut handler, mut vehicle, mut input_message) = get_test_resources();
    input_message.mode_down = true;
    send(&mut vehicle, &mut handler, &input_message);
    send(&mut vehicle, &mut handler, &input_message);
    assert_eq!(vehicle.throttle_max, 9000);
    assert_eq!(vehicle.throttle_min, -9000);
    input_message.mode_down = false;
    send(&mut vehicle, &mut handler, &input_message);
    input_message.mode_down = true;
    send(&mut vehicle, &mut handler, &input_message);
    assert_eq!(vehicle.throttle_max, 8000);
    assert_eq!(vehicle.throttle_min, -8000);
    let out = drain(&mut handler);
    let throttles: Vec<i32> = out.iter().map(|m| m.throttle).collect();
    assert_eq!(throttles, vec![9000, 9000, 9000, 8000]);
}

#[test]
fn envelope_widens_and_clamps() {
    let mut handler = TestVehicle { input_messages: vec![], fail: false };
    let mut vehicle = Vehicle::new(-2000, 2000, 0);
    let mut m = get_safe_input_message();
    m.throttle = -FULL_SCALE;
    m.throttle_left = 5000;
    m.throttle_right = -1;
    m.mode_up = true;
    send(&mut vehicle, &mut handler, &m);
    assert_eq!(vehicle.throttle_max, 3000);
    assert_eq!(vehicle.throttle_min, -3000);
    let out = drain(&mut handler);
    assert_eq!(out[0].throttle, -3000);
    assert_eq!(out[0].throttle_left, 1500);
    assert_eq!(out[0].throttle_right, 0);
    let mut full = Vehicle::new(-FULL_SCALE, FULL_SCALE, 0);
    send(&mut full, &mut handler, &m);
    assert_eq!(full.throttle_max, FULL_SCALE);
    assert_eq!(full.throttle_min, -FULL_SCALE);
}

#[test]
fn trim_floor_after_ten_left_presses() {
    let (mut handler, mut vehicle, mut input_message) = get_test_resources();
    input_message.mode_left = true;
    for _ in 0..10 {
        send(&mut vehicle, &mut handler, &input_message);
    }
    assert_eq!(vehicle.steering_offset, -1000);
    input_message.mode_left = false;
    input_message.steering = 0;
    drain(&mut handler);
    send(&mut vehicle, &mut handler, &input_message);
    assert_eq!(drain(&mut handler)[0].steering, -1000);
    input_message.steering = -3000;
    send(&mut vehicle, &mut handler, &input_message);
    assert_eq!(drain(&mut handler)[0].steering, -3000);
    input_message.steering = 500;
    send(&mut vehicle, &mut handler, &input_message);
    assert_eq!(drain(&mut handler)[0].steering, 500);
}

#[test]
fn trim_clamps_at_full_deflection() {
    let mut handler = TestVehicle { input_messages: vec![], fail: false };
    let mut vehicle = Vehicle::new(-FULL_SCALE, FULL_SCALE, -9950);
    let mut m = get_safe_input_message();
    m.mode_left = true;
    send(&mut vehicle, &mut handler, &m);
    send(&mut vehicle, &mut handler, &m);
    assert_eq!(vehicle.steering_offset, -FULL_SCALE);
}

#[test]
fn fail_safe_forwarded_twice_changes_nothing_more() {
    let (mut handler, mut vehicle, _) = get_test_resources();
    vehicle.handle_event(&mut handler, VehicleEvent::Timeout).unwrap();
    let once = vehicle.clone();
    vehicle.handle_event(&mut handler, VehicleEvent::Timeout).unwrap();
    assert_eq!(vehicle.throttle_max, once.throttle_max);
    assert_eq!(vehicle.throttle_min, once.throttle_min);
    assert_eq!(vehicle.steering_offset, once.steering_offset);
    assert_eq!(vehicle.last_input_message, once.last_input_message);
    let out = drain(&mut handler);
    assert_eq!(out[0], out[1]);
}

#[test]
fn driver_failure_is_fatal_except_at_shutdown() {
    let (mut handler, mut vehicle, input_message) = get_test_resources();
    handler.fail = true;
    assert!(vehicle.handle_event(&mut handler, VehicleEvent::Timeout).is_err());
    assert!(vehicle.last_input_message.is_none());
    assert!(vehicle.handle_event(&mut handler, VehicleEvent::Received(input_message)).is_err());
    assert!(vehicle.last_input_message.is_none());
    assert_eq!(vehicle.handle_event(&mut handler, VehicleEvent::Closed).unwrap(), false);
    assert_eq!(vehicle.handle_event(&mut handler, VehicleEvent::Disconnected).unwrap(), false);
}

#[test]
fn settle_reports_by_driver_answer() {
    let (_, mut vehicle, input_message) = get_test_resources();
    let fatal = Forward { message: input_message, failure_is_fatal: true, keep_running: true };
    let lenient = Forward { message: get_safe_input_message(), failure_is_fatal: false, keep_running: false };
    assert_eq!(vehicle.settle(fatal, Ok(())).unwrap(), true);
    assert_eq!(vehicle.last_input_message, Some(input_message));
    let refused = vehicle.settle(fatal, Err(HandlerError { reason: String::from("x") }));
    assert_eq!(refused.unwrap_err().reason, "x");
    assert_eq!(vehicle.last_input_message, Some(input_message));
    assert_eq!(vehicle.settle(lenient, Err(HandlerError { reason: String::new() })).unwrap(), false);
    assert_eq!(vehicle.last_input_message, Some(input_message));
    assert_eq!(vehicle.settle(lenient, Ok(())).unwrap(), false);
    assert_eq!(vehicle.last_input_message, Some(get_safe_input_message()));
}

#[test]
fn scale_and_floor_helpers() {
    assert_eq!(scale_axis(-7777, 5000), -3888);
    assert_eq!(scale_axis(7777, 5000), 3888);
    assert_eq!(scale_axis(0, 5000), 0);
    assert_eq!(floor_steering(100, 300), 300);
    assert_eq!(floor_steering(-100, 300), -100);
    assert_eq!(floor_steering(-100, -300), -300);
    assert_eq!(floor_steering(100, -300), 100);
}

#[test]
fn held_mode_down_narrows_once() {
    let (mut handler, mut vehicle, mut input_message) = get_test_resources();
    input_message.mode_down = true;
    for _ in 0..5 {
        send(&mut vehicle, &mut handler, &input_message);
    }
    let throttles: Vec<i32> = drain(&mut handler).iter().map(|m| m.throttle).collect();
    assert_eq!(throttles, vec![9000; 5]);
}
