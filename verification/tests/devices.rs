use akars::arm::{
    clamp_pulse, routine_steps, servo_move_command, torque_release_command, torque_restore_command,
    ArmRoutine, ArmStep,
};
use akars::camera::{
    camera_info_from_raw, check_camera, frame_from_capture, is_valid_jpeg, CameraCheck, CameraInfo,
};
use akars::linux::{Termios, B115200, B230400, B57600, B9600, NCCS};
use akars::serial::{baud_to_speed, make_raw, poll_step, PollStep, ReadOutcome};
use akars::text::decimal;

#[test]
fn checks_jpeg_markers() {
    assert!(is_valid_jpeg(&[0xFF, 0xD8, 1, 2, 0xFF, 0xD9]));
    assert!(!is_valid_jpeg(&[0x00, 0xD8, 1, 2, 0xFF, 0xD9]));
    assert!(!is_valid_jpeg(&[0xFF, 0xD8, 1]));
}

#[test]
fn shortest_jpeg_is_the_two_markers() {
    assert!(is_valid_jpeg(&[0xFF, 0xD8, 0xFF, 0xD9]));
    assert!(!is_valid_jpeg(&[0xFF, 0xD8, 0xD9]));
    assert!(!is_valid_jpeg(&[0xFF, 0xD8, 1, 2, 0xFF, 0xD8]));
    assert!(!is_valid_jpeg(&[]));
}

#[test]
fn camera_reports_are_checked() {
    let info = camera_info_from_raw(640, 480, 1, 7);
    assert_eq!((info.width, info.height, info.format, info.connected), (640, 480, 1, true));
    assert_eq!(check_camera(&info), CameraCheck::Ready);
    let yuv = CameraInfo { format: 2, ..info };
    assert_eq!(check_camera(&yuv), CameraCheck::OtherFormat);
    let gone = camera_info_from_raw(640, 480, 1, 0);
    assert!(!gone.connected);
    assert_eq!(check_camera(&gone), CameraCheck::Disconnected);
}

#[test]
fn captures_are_cut_to_their_size() {
    let info = camera_info_from_raw(320, 240, 1, 1);
    let frame = frame_from_capture(vec![0xFF, 0xD8, 9, 0xFF, 0xD9, 0, 0], 5, &info).unwrap();
    assert_eq!(frame.jpeg, vec![0xFF, 0xD8, 9, 0xFF, 0xD9]);
    assert_eq!((frame.width, frame.height), (320, 240));
    let whole = frame_from_capture(vec![1, 2], 10, &info).unwrap();
    assert_eq!(whole.jpeg, vec![1, 2]);
    assert!(frame_from_capture(vec![1, 2], -1, &info).is_none());
}

#[test]
fn decimal_renders_integers() {
    assert_eq!(decimal(0), "0");
    assert_eq!(decimal(42), "42");
    assert_eq!(decimal(-42), "-42");
    assert_eq!(decimal(i32::MIN), "-2147483648");
    assert_eq!(decimal(i32::MAX), "2147483647");
}

#[test]
fn servo_commands_are_zero_padded() {
    assert_eq!(servo_move_command(0, 1500, 1000), "#000P1500T1000!");
    assert_eq!(servo_move_command(2, 500, 0), "#002P0500T0!");
    assert_eq!(servo_move_command(12345, 25000, -5), "#12345P25000T-5!");
    assert_eq!(servo_move_command(-5, 600, 10), "#-05P0600T10!");
    assert_eq!(torque_release_command(1), "#001PULK");
    assert_eq!(torque_restore_command(1), "#001PULR");
    assert_eq!(servo_move_command(3, 500, 1), format!("#{:03}P{:04}T{}!", 3, 500, 1));
    assert_eq!(servo_move_command(-7, -3, -9), format!("#{:03}P{:04}T{}!", -7, -3, -9));
}

#[test]
fn pulses_are_clamped() {
    assert_eq!(clamp_pulse(100), 500);
    assert_eq!(clamp_pulse(1500), 1500);
    assert_eq!(clamp_pulse(4000), 2500);
}

#[test]
fn routines_move_servos_in_order() {
    let grab = routine_steps(ArmRoutine::Grab);
    assert_eq!(grab.len(), 9);
    assert_eq!(grab[0], ArmStep::Move { servo_id: 0, angle_deg: 225, time_ms: 1000 });
    assert_eq!(grab[3], ArmStep::Pause { ms: 1500 });
    assert_eq!(grab[4], ArmStep::Move { servo_id: 2, angle_deg: 50, time_ms: 1000 });
    assert_eq!(grab[8], ArmStep::Pause { ms: 1200 });
    assert_eq!(
        routine_steps(ArmRoutine::Release),
        vec![ArmStep::Move { servo_id: 2, angle_deg: 110, time_ms: 1000 }]
    );
    assert_eq!(
        routine_steps(ArmRoutine::Show),
        vec![
            ArmStep::Move { servo_id: 0, angle_deg: 150, time_ms: 1000 },
            ArmStep::Move { servo_id: 1, angle_deg: 100, time_ms: 1000 },
            ArmStep::Move { servo_id: 2, angle_deg: 50, time_ms: 1000 },
        ]
    );
    assert_eq!(routine_steps(ArmRoutine::GrabPos)[0], ArmStep::Move { servo_id: 0, angle_deg: 150, time_ms: 1000 });
    assert_eq!(routine_steps(ArmRoutine::ReleasePos)[1], ArmStep::Move { servo_id: 1, angle_deg: 60, time_ms: 1000 });
}

#[test]
fn baud_rates_select_line_speeds() {
    assert_eq!(baud_to_speed(9600), B9600);
    assert_eq!(baud_to_speed(57600), B57600);
    assert_eq!(baud_to_speed(115200), B115200);
    assert_eq!(baud_to_speed(230400), B230400);
    assert_eq!(baud_to_speed(4800), B115200);
}

#[test]
fn raw_mode_clears_processing() {
    let tty = Termios {
        c_iflag: 0xFFFF_FFFF,
        c_oflag: 0xFFFF_FFFF,
        c_cflag: 0xFFFF_FFFF,
        c_lflag: 0xFFFF_FFFF,
        c_line: 3,
        c_cc: [9u8; NCCS],
        c_ispeed: 4,
        c_ospeed: 5,
    };
    let raw = make_raw(tty);
    assert_eq!(raw.c_cflag, 0xFFFF_FFFF & !0o20000001500);
    assert_eq!(raw.c_iflag, 0xFFFF_FFFF & !0o16753);
    assert_eq!(raw.c_oflag, 0xFFFF_FFFE);
    assert_eq!(raw.c_lflag, 0);
    assert_eq!(raw.c_cc[5], 0);
    assert_eq!(raw.c_cc[6], 0);
    assert_eq!(raw.c_cc[4], 9);
    assert_eq!((raw.c_line, raw.c_ispeed, raw.c_ospeed), (3, 4, 5));
    let plain = Termios { c_cflag: 0o1700, ..tty };
    assert_eq!(make_raw(plain).c_cflag, 0o4260);
}

#[test]
fn byte_reads_retry_until_the_deadline() {
    assert_eq!(poll_step(ReadOutcome::Byte(7), true), PollStep::Got(7));
    assert_eq!(poll_step(ReadOutcome::Failed, false), PollStep::Fail);
    assert_eq!(poll_step(ReadOutcome::Empty, false), PollStep::Retry);
    assert_eq!(poll_step(ReadOutcome::Interrupted, false), PollStep::Retry);
    assert_eq!(poll_step(ReadOutcome::WouldBlock, true), PollStep::TimedOut);
}

#[test]
fn raw_mode_twice_is_raw_mode_once() {
    let tty = Termios {
        c_iflag: 0x1234_5678,
        c_oflag: 0x0F0F_0F0F,
        c_cflag: 0x8765_4321,
        c_lflag: 7,
        c_line: 0,
        c_cc: [1u8; NCCS],
        c_ispeed: 0,
        c_ospeed: 0,
    };
    let once = make_raw(tty);
    let twice = make_raw(once);
    assert_eq!(
        (twice.c_iflag, twice.c_oflag, twice.c_cflag, twice.c_lflag, twice.c_cc),
        (once.c_iflag, once.c_oflag, once.c_cflag, once.c_lflag, once.c_cc)
    );
}

#[test]
fn routines_leave_the_gripper_as_named() {
    let gripper = |routine| {
        routine_steps(routine)
            .iter()
            .filter_map(|step| match step {
                ArmStep::Move { servo_id: 2, angle_deg, .. } => Some(*angle_deg),
                _ => None,
            })
            .last()
    };
    assert_eq!(gripper(ArmRoutine::Grab), Some(50));
    assert_eq!(gripper(ArmRoutine::Show), Some(50));
    assert_eq!(gripper(ArmRoutine::Release), Some(110));
    assert_eq!(gripper(ArmRoutine::GrabPos), Some(110));
    assert_eq!(gripper(ArmRoutine::ReleasePos), Some(110));
}
