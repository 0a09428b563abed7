use akars::arm::ArmRoutine;
use akars::motor::MotorOp;
use akars::web::{
    arm_action_kind, canonical_drive_action, command_response, hardware_ready, normalize_drive_action,
    reconnect_result, status_response, ArmActionKind, ArmActionRequest, ArmOp, ControlState, DriveRequest,
};

fn drive(action: Option<&str>, speed: Option<i32>, left: Option<i32>, right: Option<i32>) -> DriveRequest {
    DriveRequest { action: action.map(|a| a.to_string()), speed, left, right }
}

fn arm(action: &str, servo_id: Option<i32>, angle: Option<&str>, time_ms: Option<i32>) -> ArmActionRequest {
    ArmActionRequest {
        action: action.to_string(),
        servo_id,
        angle_text: angle.map(|a| a.to_string()),
        time_ms,
    }
}

fn connected_state() -> ControlState {
    let mut state = ControlState::boot(false);
    assert!(state.begin_connect(false));
    state.finish_connect(None, None);
    state
}

#[test]
fn drive_words_are_normalized() {
    assert_eq!(normalize_drive_action("  up \n"), "forward");
    assert_eq!(normalize_drive_action("reverse"), "backward");
    assert_eq!(normalize_drive_action("down"), "backward");
    assert_eq!(normalize_drive_action("\tstandby"), "stop");
    assert_eq!(normalize_drive_action(" jump "), "jump");
    assert_eq!(canonical_drive_action("left"), "left");
    assert_eq!(canonical_drive_action(" up"), " up");
    assert_eq!(canonical_drive_action("brake"), "brake");
}

#[test]
fn arm_words_are_classified() {
    assert_eq!(arm_action_kind("grab"), ArmActionKind::Routine(ArmRoutine::Grab));
    assert_eq!(arm_action_kind("ready"), ArmActionKind::Routine(ArmRoutine::GrabPos));
    assert_eq!(arm_action_kind("grab_pos"), ArmActionKind::Routine(ArmRoutine::GrabPos));
    assert_eq!(arm_action_kind("release_pos"), ArmActionKind::Routine(ArmRoutine::ReleasePos));
    assert_eq!(arm_action_kind("angle"), ArmActionKind::SetAngle);
    assert_eq!(arm_action_kind("set_angle"), ArmActionKind::SetAngle);
    assert_eq!(arm_action_kind("torque_on"), ArmActionKind::TorqueOn);
    assert_eq!(arm_action_kind("wave"), ArmActionKind::Unknown);
}

#[test]
fn status_is_ok_when_hardware_is_ready() {
    assert!(hardware_ready(true, false, false));
    assert!(hardware_ready(false, true, true));
    assert!(!hardware_ready(false, true, false));
    let state = connected_state();
    let snapshot = state.snapshot(true, false);
    assert_eq!(snapshot.last_action, "connect");
    let response = status_response(snapshot.clone());
    assert!(!response.ok);
    assert_eq!(response.status, snapshot);
    assert!(status_response(state.snapshot(true, true)).ok);
}

#[test]
fn command_answers_carry_the_message() {
    let status = connected_state().snapshot(true, true);
    let ok = command_response(Ok("fine".to_string()), status.clone());
    assert!(ok.ok);
    assert_eq!(ok.message, "fine");
    let bad = command_response(Err("broken".to_string()), status.clone());
    assert!(!bad.ok);
    assert_eq!(bad.message, "broken");
    assert_eq!(bad.status, status);
    assert_eq!(reconnect_result(true), Ok("hardware connected".to_string()));
    assert_eq!(reconnect_result(false), Err("hardware connection is incomplete".to_string()));
}

#[test]
fn connecting_resets_the_state() {
    let mut state = ControlState::boot(false);
    assert_eq!(state.last_action, "boot");
    state.left_speed = 40;
    assert!(!state.begin_connect(true));
    assert!(state.mock);
    assert_eq!(state.left_speed, 0);
    assert_eq!(state.last_action, "mock hardware ready");
    assert!(state.begin_connect(false));
    state.finish_connect(Some("/dev/ttyS3: gone".to_string()), None);
    assert_eq!(state.motor_error.as_deref(), Some("/dev/ttyS3: gone"));
    assert_eq!(state.last_action, "connect");
    let snapshot = state.snapshot(false, true);
    assert_eq!(snapshot.motor_error.as_deref(), Some("/dev/ttyS3: gone"));
    assert!(!snapshot.motor_connected && snapshot.arm_connected && !snapshot.mock);
}

#[test]
fn manual_drive_clamps_wheel_speeds() {
    let mut state = connected_state();
    let (op, result) = state.apply_drive(&drive(Some("forward"), Some(10), Some(150), Some(-20)), true);
    assert_eq!(result, Ok("drive left=100 right=-20".to_string()));
    assert_eq!(op, Some(MotorOp::Drive { left: 100, right: -20 }));
    assert_eq!((state.left_speed, state.right_speed), (100, -20));
    assert_eq!(state.last_action, "drive");
}

#[test]
fn actions_drive_with_their_speed() {
    let mut state = connected_state();
    let (op, result) = state.apply_drive(&drive(Some(" up "), Some(-70), None, Some(5)), true);
    assert_eq!(result, Ok("forward speed=70".to_string()));
    assert_eq!(op, Some(MotorOp::Drive { left: 70, right: 70 }));
    let (op, result) = state.apply_drive(&drive(Some("left"), None, None, None), true);
    assert_eq!(result, Ok("left speed=50".to_string()));
    assert_eq!(op, Some(MotorOp::Drive { left: -50, right: 50 }));
    assert_eq!(state.last_action, "left");
    let (op, result) = state.apply_drive(&drive(Some("reverse"), Some(300), None, None), true);
    assert_eq!(result, Ok("backward speed=100".to_string()));
    assert_eq!(op, Some(MotorOp::Drive { left: -100, right: -100 }));
    let (op, result) = state.apply_drive(&drive(Some("right"), Some(20), None, None), true);
    assert_eq!(result, Ok("right speed=20".to_string()));
    assert_eq!(op, Some(MotorOp::Drive { left: 20, right: -20 }));
}

#[test]
fn brake_and_stop_zero_the_wheels() {
    let mut state = connected_state();
    state.apply_drive(&drive(Some("forward"), Some(60), None, None), true);
    let (op, result) = state.apply_drive(&drive(Some("brake"), None, None, None), true);
    assert_eq!(result, Ok("brake".to_string()));
    assert_eq!(op, Some(MotorOp::Brake));
    assert_eq!((state.left_speed, state.right_speed), (0, 0));
    state.apply_drive(&drive(Some("forward"), Some(60), None, None), true);
    let (op, result) = state.apply_drive(&drive(None, Some(60), Some(3), None), true);
    assert_eq!(result, Ok("stop".to_string()));
    assert_eq!(op, Some(MotorOp::Standby));
    assert_eq!((state.left_speed, state.right_speed), (0, 0));
    assert_eq!(state.last_action, "stop");
}

#[test]
fn refused_drives_change_nothing() {
    let mut state = connected_state();
    state.apply_drive(&drive(Some("forward"), Some(60), None, None), true);
    let (op, result) = state.apply_drive(&drive(Some("jump"), None, None, None), true);
    assert_eq!(result, Err("unknown drive action: jump".to_string()));
    assert_eq!(op, None);
    let (op, result) = state.apply_drive(&drive(Some("forward"), None, None, None), false);
    assert_eq!(result, Err("motor is not connected".to_string()));
    assert_eq!(op, None);
    let (_, result) = state.apply_drive(&drive(None, None, Some(1), Some(1)), false);
    assert_eq!(result, Err("motor is not connected".to_string()));
    assert_eq!((state.left_speed, state.right_speed), (60, 60));
    assert_eq!(state.last_action, "forward");
}

#[test]
fn mock_mode_drives_without_a_motor() {
    let mut state = ControlState::boot(true);
    state.begin_connect(true);
    let (op, result) = state.apply_drive(&drive(Some("forward"), Some(30), None, None), false);
    assert_eq!(result, Ok("forward speed=30".to_string()));
    assert_eq!(op, None);
    assert_eq!((state.left_speed, state.right_speed), (30, 30));
}

#[test]
fn arm_routines_report_their_label() {
    let mut state = connected_state();
    let (op, result) = state.apply_arm_action(&arm(" grab ", None, None, None), true);
    assert_eq!(result, Ok("arm grab".to_string()));
    assert_eq!(op, Some(ArmOp::Routine(ArmRoutine::Grab)));
    assert_eq!(state.last_action, "arm grab");
    let (op, result) = state.apply_arm_action(&arm("ready", None, None, None), true);
    assert_eq!(result, Ok("arm ready".to_string()));
    assert_eq!(op, Some(ArmOp::Routine(ArmRoutine::GrabPos)));
    let (_, result) = state.apply_arm_action(&arm("release_pos", None, None, None), true);
    assert_eq!(result, Ok("arm release_pos".to_string()));
    let (_, result) = state.apply_arm_action(&arm("show", None, None, None), true);
    assert_eq!(result, Ok("arm show".to_string()));
    let (_, result) = state.apply_arm_action(&arm("release", None, None, None), true);
    assert_eq!(result, Ok("arm release".to_string()));
}

#[test]
fn arm_servo_actions_need_their_arguments() {
    let mut state = connected_state();
    let (op, result) = state.apply_arm_action(&arm("set_angle", Some(2), Some("90.0"), None), true);
    assert_eq!(result, Ok("arm servo 2 angle 90.0".to_string()));
    assert_eq!(op, Some(ArmOp::SetAngle { servo_id: 2, time_ms: 500 }));
    assert_eq!(state.last_action, "arm servo 2 angle 90.0");
    let (op, _) = state.apply_arm_action(&arm("angle", Some(1), Some("10.5"), Some(20_000)), true);
    assert_eq!(op, Some(ArmOp::SetAngle { servo_id: 1, time_ms: 10_000 }));
    let (op, _) = state.apply_arm_action(&arm("angle", Some(1), Some("10.5"), Some(-3)), true);
    assert_eq!(op, Some(ArmOp::SetAngle { servo_id: 1, time_ms: 0 }));
    let (_, result) = state.apply_arm_action(&arm("angle", None, Some("10.5"), None), true);
    assert_eq!(result, Err("servo_id is required".to_string()));
    let (_, result) = state.apply_arm_action(&arm("angle", Some(1), None, None), false);
    assert_eq!(result, Err("angle is required".to_string()));
    let (op, result) = state.apply_arm_action(&arm("torque_off", Some(0), None, None), true);
    assert_eq!(result, Ok("arm servo 0 torque off".to_string()));
    assert_eq!(op, Some(ArmOp::TorqueOff { servo_id: 0 }));
    let (op, result) = state.apply_arm_action(&arm("torque_on", Some(-1), None, None), true);
    assert_eq!(result, Ok("arm servo -1 torque on".to_string()));
    assert_eq!(op, Some(ArmOp::TorqueOn { servo_id: -1 }));
    let (_, result) = state.apply_arm_action(&arm("torque_on", None, None, None), true);
    assert_eq!(result, Err("servo_id is required".to_string()));
}

#[test]
fn refused_arm_actions_change_nothing() {
    let mut state = connected_state();
    let (op, result) = state.apply_arm_action(&arm("grab", None, None, None), false);
    assert_eq!(result, Err("arm is not connected".to_string()));
    assert_eq!(op, None);
    let (_, result) = state.apply_arm_action(&arm(" wave ", None, None, None), true);
    assert_eq!(result, Err("unknown arm action: wave".to_string()));
    let (_, result) = state.apply_arm_action(&arm("torque_off", Some(1), None, None), false);
    assert_eq!(result, Err("arm is not connected".to_string()));
    assert_eq!(state.last_action, "connect");
    let mut mock = ControlState::boot(true);
    mock.begin_connect(true);
    let (op, result) = mock.apply_arm_action(&arm("show", None, None, None), false);
    assert_eq!(result, Ok("arm show".to_string()));
    assert_eq!(op, None);
}

#[test]
fn naming_an_action_twice_changes_nothing() {
    for word in ["up", "forward", "down", "reverse", "backward", "left", "right", "brake", "stop", "standby", "jump"] {
        let once = canonical_drive_action(word);
        assert_eq!(canonical_drive_action(once), once);
    }
}

#[test]
fn unicode_white_space_around_actions_is_ignored() {
    assert_eq!(normalize_drive_action("\u{3000}up\u{00A0}"), "forward");
    assert_eq!(normalize_drive_action("\u{2009}reverse\u{0085}\r\n"), "backward");
    assert_eq!(normalize_drive_action("\u{200B}up"), "\u{200B}up");
    let mut state = connected_state();
    let (_, result) = state.apply_drive(&drive(Some(" reverse "), Some(-30), None, None), true);
    assert_eq!(result, Ok("backward speed=30".to_string()));
    let mut mock = ControlState::boot(true);
    mock.begin_connect(true);
    let (op, result) = mock.apply_arm_action(&arm("\tgrab\u{2028}", None, None, None), false);
    assert_eq!(result, Ok("arm grab".to_string()));
    assert_eq!(op, None);
}
