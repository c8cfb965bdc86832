use linkbot_proxy::frame::{Event, Reply};
use linkbot_proxy::session::{DaemonProxy, Dispatch, EncodeError, Handlers};
use linkbot_proxy::{DecodeError, Goal, GoalController, GoalType};

fn le(x: u32) -> Vec<u8> {
    x.to_le_bytes().to_vec()
}

fn rad(deg: f32) -> u32 {
    (deg * std::f32::consts::PI / 180.0).to_bits()
}

fn reply_frame(request_id: u32, tail: &[u8]) -> Vec<u8> {
    let mut v = vec![0u8];
    v.extend(le(request_id));
    v.extend_from_slice(tail);
    v
}

fn ack(request_id: u32) -> Vec<u8> {
    reply_frame(request_id, &[0])
}

fn event_frame(device: &str, tag: u8, words: &[u32]) -> Vec<u8> {
    let mut v = vec![1u8, device.len() as u8];
    v.extend_from_slice(device.as_bytes());
    v.push(tag);
    for w in words {
        v.extend(le(*w));
    }
    v
}

fn request(request_id: u32, device: &str, command: &[u8]) -> Vec<u8> {
    let mut v = le(request_id);
    v.push(device.len() as u8);
    v.extend_from_slice(device.as_bytes());
    v.extend_from_slice(command);
    v
}

#[test]
fn goal_round_trip_keeps_fields() {
    let g = Goal::new(GoalType::Absolute, rad(90.0), GoalController::ConstVel);
    let bytes = g.to_bytes();
    assert_eq!(bytes.len(), 6);
    let back = Goal::from_bytes(&bytes).unwrap();
    assert_eq!(back, g);
    assert_eq!(back.field_type, GoalType::Absolute);
    assert_eq!(back.controller, GoalController::ConstVel);
    assert_eq!(f32::from_bits(back.goal), std::f32::consts::FRAC_PI_2);
}

#[test]
fn goal_encoding_bytes() {
    let g = Goal::new(GoalType::Relative, 0x1122_3344, GoalController::Accel);
    assert_eq!(g.to_bytes(), vec![1, 3, 0x44, 0x33, 0x22, 0x11]);
}

#[test]
fn goal_decode_errors() {
    assert_eq!(Goal::from_bytes(&[0, 1, 0, 0, 0]), Err(DecodeError::Truncated));
    assert_eq!(Goal::from_bytes(&[0, 1, 0, 0, 0, 0, 9]), Err(DecodeError::TrailingBytes));
    assert_eq!(Goal::from_bytes(&[2, 1, 0, 0, 0, 0]), Err(DecodeError::UnknownTag));
    assert_eq!(Goal::from_bytes(&[0, 4, 0, 0, 0, 0]), Err(DecodeError::UnknownTag));
}

#[test]
fn set_led_color_sends_one_frame_and_completes_once() {
    let mut d = DaemonProxy::new();
    let robot = d.get_robot("ABCD");
    let out = d.robot_set_led_color(&robot, 255, 0, 0, 7).unwrap();
    assert_eq!(out.request_id, 0);
    assert_eq!(out.bytes, request(0, "ABCD", &[0, 255, 0, 0]));
    assert_eq!(d.pending_count(), 1);
    let fired = d.deliver(&ack(out.request_id)).unwrap();
    assert_eq!(fired, vec![Dispatch::Completion { request_id: 0, callback: 7, reply: Reply::Ack }]);
    assert_eq!(d.pending_count(), 0);
    assert_eq!(d.deliver(&ack(out.request_id)).unwrap(), vec![]);
}

#[test]
fn move_builds_relative_and_absolute_goals() {
    let mut d = DaemonProxy::new();
    let robot = d.get_robot("ABCD");
    let out = d.robot_move(&robot, 0b011, 0b001, rad(90.0), rad(45.0), rad(0.0), 3).unwrap();
    let mut cmd = vec![2u8, 1, 1, 1];
    cmd.extend(le(rad(90.0)));
    cmd.extend(vec![1u8, 0, 1]);
    cmd.extend(le(rad(45.0)));
    cmd.push(0);
    assert_eq!(out.bytes, request(0, "ABCD", &cmd));
    assert_eq!(f32::from_bits(rad(90.0)), std::f32::consts::FRAC_PI_2);
    assert_eq!(f32::from_bits(rad(45.0)), std::f32::consts::FRAC_PI_4);
    let fired = d.deliver(&ack(0)).unwrap();
    assert_eq!(fired, vec![Dispatch::Completion { request_id: 0, callback: 3, reply: Reply::Ack }]);
}

#[test]
fn event_for_unknown_device_is_dropped() {
    let mut d = DaemonProxy::new();
    let robot = d.get_robot("ABCD");
    d.robot_set_button_event_handler(&robot, Some(1), 2).unwrap();
    let fired = d.deliver(&event_frame("WXYZ", 1, &[10, 1, 1])).unwrap();
    assert_eq!(fired, vec![]);
}

#[test]
fn no_reply_means_no_completion() {
    let mut d = DaemonProxy::new();
    let robot = d.get_robot("ABCD");
    let out = d.robot_reset_encoders(&robot, 9).unwrap();
    let mut bytes = ack(out.request_id + 1);
    bytes.extend(event_frame("ABCD", 0, &[1, 2, 3, 4]));
    assert_eq!(d.deliver(&bytes).unwrap(), vec![]);
    assert_eq!(d.deliver(&[]).unwrap(), vec![]);
    assert_eq!(d.pending_count(), 1);
    let fired = d.deliver(&ack(out.request_id)).unwrap();
    assert_eq!(fired.len(), 1);
}

#[test]
fn handler_receives_events_until_cleared() {
    let mut d = DaemonProxy::new();
    let robot = d.get_robot("ABCD");
    let out = d.robot_set_accelerometer_event_handler(&robot, Some(5), 6).unwrap();
    assert_eq!(out.bytes, request(0, "ABCD", &[8, 0, 1]));
    let mut bytes = ack(0);
    bytes.extend(event_frame("ABCD", 0, &[100, 1, 2, 3]));
    let fired = d.deliver(&bytes).unwrap();
    let ev = Event::Accelerometer { timestamp: 100, x: 1, y: 2, z: 3 };
    assert_eq!(
        fired,
        vec![
            Dispatch::Completion { request_id: 0, callback: 6, reply: Reply::Ack },
            Dispatch::Notify { handler: 5, event: ev },
        ]
    );
    let out = d.robot_set_accelerometer_event_handler(&robot, None, 8).unwrap();
    assert_eq!(out.bytes, request(1, "ABCD", &[8, 0, 0]));
    let mut bytes = ack(1);
    bytes.extend(event_frame("ABCD", 0, &[101, 1, 2, 3]));
    let fired = d.deliver(&bytes).unwrap();
    assert_eq!(fired, vec![Dispatch::Completion { request_id: 1, callback: 8, reply: Reply::Ack }]);
}

#[test]
fn joint_and_button_handlers() {
    let mut d = DaemonProxy::new();
    let robot = d.get_robot("ABCD");
    d.robot_set_joint_event_handler(&robot, Some(11), 12).unwrap();
    d.robot_set_button_event_handler(&robot, Some(13), 14).unwrap();
    let mut bytes = event_frame("ABCD", 2, &[5, 1, 2, 77]);
    bytes.extend(event_frame("ABCD", 1, &[6, 0, 1]));
    let fired = d.deliver(&bytes).unwrap();
    assert_eq!(
        fired,
        vec![
            Dispatch::Notify { handler: 11, event: Event::Joint { timestamp: 5, joint: 1, state: 2, angle: 77 } },
            Dispatch::Notify { handler: 13, event: Event::Button { timestamp: 6, button: 0, state: 1 } },
        ]
    );
}

#[test]
fn get_robot_twice_shares_state() {
    let mut d = DaemonProxy::new();
    let first = d.get_robot("ABCD");
    let second = d.get_robot("ABCD");
    assert_eq!(d.handlers(&second), Some(Handlers { accelerometer: None, button: None, joint: None, connect: None }));
    d.robot_set_button_event_handler(&first, Some(4), 5).unwrap();
    assert_eq!(d.handlers(&second).unwrap().button, Some(4));
    assert!(d.has_robot(&second));
    let fired = d.deliver(&event_frame("ABCD", 1, &[1, 2, 3])).unwrap();
    assert_eq!(fired, vec![Dispatch::Notify { handler: 4, event: Event::Button { timestamp: 1, button: 2, state: 3 } }]);
}

#[test]
fn read_replies_carry_values() {
    let mut d = DaemonProxy::new();
    let robot = d.get_robot("ABCD");
    let a = d.robot_get_form_factor(&robot, 1).unwrap();
    let b = d.robot_get_accelerometer(&robot, 2).unwrap();
    let c = d.robot_get_joint_angles(&robot, 3).unwrap();
    assert_eq!(a.bytes, request(0, "ABCD", &[7]));
    assert_eq!(b.bytes, request(1, "ABCD", &[3]));
    assert_eq!(c.bytes, request(2, "ABCD", &[4]));
    let mut bytes = Vec::new();
    let mut tail = vec![3u8];
    for w in [9u32, 10, 20, 30] {
        tail.extend(le(w));
    }
    bytes.extend(reply_frame(2, &tail));
    let mut tail = vec![2u8];
    for w in [1u32, 2, 3] {
        tail.extend(le(w));
    }
    bytes.extend(reply_frame(1, &tail));
    let mut tail = vec![1u8];
    tail.extend(le(2));
    bytes.extend(reply_frame(0, &tail));
    let fired = d.deliver(&bytes).unwrap();
    assert_eq!(
        fired,
        vec![
            Dispatch::Completion { request_id: 2, callback: 3, reply: Reply::Encoders { timestamp: 9, angle1: 10, angle2: 20, angle3: 30 } },
            Dispatch::Completion { request_id: 1, callback: 2, reply: Reply::Accelerometer { x: 1, y: 2, z: 3 } },
            Dispatch::Completion { request_id: 0, callback: 1, reply: Reply::FormFactor { form: 2 } },
        ]
    );
}

#[test]
fn reply_of_wrong_shape_is_dropped() {
    let mut d = DaemonProxy::new();
    let robot = d.get_robot("ABCD");
    d.robot_get_form_factor(&robot, 1).unwrap();
    assert_eq!(d.deliver(&ack(0)).unwrap(), vec![]);
    assert_eq!(d.pending_count(), 1);
}

#[test]
fn speeds_and_buzzer_encoding() {
    let mut d = DaemonProxy::new();
    let robot = d.get_robot("AB");
    let out = d.robot_set_motor_speeds(&robot, 0b101, 1, 2, 3, 0).unwrap();
    let mut cmd = vec![1u8, 0b101];
    cmd.extend(le(1));
    cmd.extend(le(2));
    cmd.extend(le(3));
    assert_eq!(out.bytes, request(0, "AB", &cmd));
    let out = d.robot_set_buzzer_frequency(&robot, 440, 0).unwrap();
    let mut cmd = vec![6u8];
    cmd.extend(le(440));
    assert_eq!(out.bytes, request(1, "AB", &cmd));
}

#[test]
fn stop_all_and_connect() {
    let mut d = DaemonProxy::new();
    let robot = d.get_robot("ABCD");
    let stop = d.stop_all(20).unwrap();
    assert_eq!(stop.bytes, request(0, "", &[10]));
    let conn = d.connect_robot(&robot, 21).unwrap();
    assert_eq!(conn.bytes, request(1, "ABCD", &[9]));
    assert_eq!(d.handlers(&robot).unwrap().connect, Some(21));
    let mut bytes = ack(1);
    bytes.extend(ack(0));
    bytes.extend(event_frame("ABCD", 3, &[44]));
    let fired = d.deliver(&bytes).unwrap();
    assert_eq!(
        fired,
        vec![
            Dispatch::Completion { request_id: 1, callback: 21, reply: Reply::Ack },
            Dispatch::Completion { request_id: 0, callback: 20, reply: Reply::Ack },
            Dispatch::Notify { handler: 21, event: Event::Connect { timestamp: 44 } },
        ]
    );
}

#[test]
fn long_device_id_is_an_encode_error() {
    let mut d = DaemonProxy::new();
    let id = "X".repeat(256);
    let robot = d.get_robot(&id);
    assert_eq!(d.robot_set_led_color(&robot, 1, 2, 3, 0).err(), Some(EncodeError::DeviceIdTooLong));
    assert_eq!(d.robot_set_joint_event_handler(&robot, Some(1), 2).err(), Some(EncodeError::DeviceIdTooLong));
    assert_eq!(d.handlers(&robot).unwrap().joint, None);
    assert_eq!(d.pending_count(), 0);
    let ok = d.get_robot(&"Y".repeat(255));
    assert!(d.robot_reset_encoders(&ok, 0).is_ok());
}

#[test]
fn bad_bytes_are_a_decode_error_and_change_nothing() {
    let mut d = DaemonProxy::new();
    let robot = d.get_robot("ABCD");
    d.robot_reset_encoders(&robot, 1).unwrap();
    let mut bytes = ack(0);
    bytes.push(7);
    assert_eq!(d.deliver(&bytes), Err(DecodeError::UnknownTag));
    assert_eq!(d.pending_count(), 1);
    assert_eq!(d.deliver(&[0, 0, 0]), Err(DecodeError::Truncated));
    assert_eq!(d.deliver(&reply_frame(0, &[1, 0])), Err(DecodeError::Truncated));
    assert_eq!(d.deliver(&reply_frame(0, &[4])), Err(DecodeError::UnknownTag));
    assert_eq!(d.deliver(&[1, 5, b'A']), Err(DecodeError::Truncated));
    assert_eq!(d.deliver(&ack(0)).unwrap().len(), 1);
}

#[test]
fn withdraw_forgets_an_unsent_command() {
    let mut d = DaemonProxy::new();
    let robot = d.get_robot("ABCD");
    let out = d.robot_set_led_color(&robot, 0, 0, 255, 4).unwrap();
    assert!(d.withdraw(out.request_id));
    assert!(!d.withdraw(out.request_id));
    assert_eq!(d.pending_count(), 0);
    assert_eq!(d.deliver(&ack(out.request_id)).unwrap(), vec![]);
}
