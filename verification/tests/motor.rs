use akars::frame::{checksum, encode_frame, FrameReceiver, RxAction};
use akars::motor::{
    map_deadzone, motion_speeds, op_commands, put_be16, startup_commands, to_pwm, wheel_pwm, Motion,
    MotorCommand, MotorConfig, MotorOp,
};

#[test]
fn checksum_matches_protocol() {
    assert_eq!(checksum(0x02, 4, &[0x12, 0x48, 0x4E, 0x20]), 0x32);
}

#[test]
fn maps_deadzone_like_cpp_driver() {
    assert_eq!(map_deadzone(0, 15), 0);
    assert_eq!(map_deadzone(1, 15), 15);
    assert_eq!(map_deadzone(-1, 15), -15);
    assert_eq!(map_deadzone(100, 15), 100);
}

#[test]
fn maps_speed_to_pwm() {
    assert_eq!(to_pwm(100, 150), 150);
    assert_eq!(to_pwm(-100, 150), -150);
    assert_eq!(to_pwm(50, 150), 75);
}

#[test]
fn deadzone_stretches_linearly_and_caps() {
    // 15 + (49 * 85) / 99 = 15 + 42
    assert_eq!(map_deadzone(50, 15), 57);
    assert_eq!(map_deadzone(-50, 15), -57);
    assert_eq!(map_deadzone(250, 15), 100);
    assert_eq!(map_deadzone(-250, 15), -100);
    // a floor above 100 is capped
    assert_eq!(map_deadzone(1, 150), 100);
}

#[test]
fn pwm_clamps_speed_and_rounds_toward_zero() {
    assert_eq!(to_pwm(250, 150), 150);
    assert_eq!(to_pwm(-250, 150), -150);
    assert_eq!(to_pwm(1, 150), 1);
    assert_eq!(to_pwm(-1, 150), -1);
    assert_eq!(to_pwm(1, 99), 0);
    // cut to 16 bits
    assert_eq!(to_pwm(100, 1_000_000), (1_000_000i32) as i16);
}

#[test]
fn wheel_pwm_combines_both_steps() {
    assert_eq!(wheel_pwm(50, 15, 150), Some(85));
    assert_eq!(wheel_pwm(-100, 15, 150), Some(-150));
    assert_eq!(wheel_pwm(0, 15, 150), Some(0));
    assert_eq!(wheel_pwm(i32::MIN, 15, 150), None);
    assert_eq!(wheel_pwm(100, 15, i32::MAX), None);
    assert_eq!(wheel_pwm(50, i32::MIN, 150), None);
}

#[test]
fn be16_writes_high_byte_first() {
    let mut buf = [0u8; 3];
    put_be16(&mut buf, 0x1248);
    assert_eq!(buf, [0x12, 0x48, 0]);
    put_be16(&mut buf[1..], 0x4E20);
    assert_eq!(buf, [0x12, 0x4E, 0x20]);
}

#[test]
fn default_config_matches_board() {
    let config = MotorConfig::default();
    assert_eq!(config.device, "/dev/ttyS3");
    assert_eq!(config.speed_scale, 150);
    assert_eq!(config.ppr, 4680);
    assert_eq!(config.pwm_freq, 20000);
    assert_eq!(config.min_speed, 15);
}

#[test]
fn encodes_frames_and_refuses_long_payloads() {
    let frame = encode_frame(0x02, &[0x12, 0x48, 0x4E, 0x20]).unwrap();
    assert_eq!(frame, vec![0xAA, 0x55, 0x02, 4, 0x12, 0x48, 0x4E, 0x20, 0x32]);
    assert_eq!(encode_frame(0x01, &[]).unwrap(), vec![0xAA, 0x55, 0x01, 0, 0x01]);
    assert!(encode_frame(0x01, &[0u8; 255]).is_some());
    assert!(encode_frame(0x01, &[0u8; 256]).is_none());
}

#[test]
fn command_frames_follow_protocol() {
    let config = MotorCommand::Config { ppr: 4680, pwm_freq: 20000 };
    assert_eq!(config.code(), 0x02);
    assert_eq!(config.payload(), vec![0x12, 0x48, 0x4E, 0x20]);
    assert_eq!(config.frame(), vec![0xAA, 0x55, 0x02, 4, 0x12, 0x48, 0x4E, 0x20, 0x32]);
    let speed = MotorCommand::SetSpeed { motor_id: 1, pwm: -150 };
    assert_eq!(speed.payload(), vec![1, 0xFF, 0x6A]);
    assert_eq!(speed.frame(), vec![0xAA, 0x55, 0x10, 3, 1, 0xFF, 0x6A, 0x10 ^ 3 ^ 1 ^ 0xFF ^ 0x6A]);
    assert_eq!(MotorCommand::Stop { motor_id: 0 }.frame(), vec![0xAA, 0x55, 0x11, 1, 0, 0x10]);
    assert_eq!(MotorCommand::Brake { motor_id: 1 }.frame(), vec![0xAA, 0x55, 0x12, 1, 1, 0x12]);
    assert_eq!(MotorCommand::Reset.frame(), vec![0xAA, 0x55, 0xFF, 0, 0xFF]);
    assert!(MotorCommand::Init.awaits_reply());
    assert!(!MotorCommand::Reset.awaits_reply());
}

#[test]
fn startup_and_motions_give_commands() {
    assert_eq!(
        startup_commands(4680, 20000),
        vec![MotorCommand::Init, MotorCommand::Config { ppr: 4680, pwm_freq: 20000 }]
    );
    assert_eq!(
        op_commands(&MotorOp::Drive { left: 50, right: -50 }, 15, 150),
        Some(vec![
            MotorCommand::SetSpeed { motor_id: 0, pwm: 85 },
            MotorCommand::SetSpeed { motor_id: 1, pwm: -85 },
        ])
    );
    assert_eq!(
        op_commands(&MotorOp::Brake, 15, 150),
        Some(vec![MotorCommand::Brake { motor_id: 0 }, MotorCommand::Brake { motor_id: 1 }])
    );
    assert_eq!(
        op_commands(&MotorOp::Standby, 15, 150),
        Some(vec![MotorCommand::Stop { motor_id: 0 }, MotorCommand::Stop { motor_id: 1 }])
    );
    assert_eq!(op_commands(&MotorOp::Drive { left: i32::MIN, right: 0 }, 15, 150), None);
    assert_eq!(motion_speeds(Motion::Forward, 30), (30, 30));
    assert_eq!(motion_speeds(Motion::Backward, 30), (-30, -30));
    assert_eq!(motion_speeds(Motion::Left, 30), (-30, 30));
    assert_eq!(motion_speeds(Motion::Right, 30), (30, -30));
}

fn feed(rx: &mut FrameReceiver, bytes: &[u8]) -> Vec<RxAction> {
    bytes.iter().map(|b| rx.step(Some(*b))).collect()
}

#[test]
fn receiver_delivers_an_encoded_frame() {
    let frame = encode_frame(0x10, &[1, 0xFF, 0x6A]).unwrap();
    let mut rx = FrameReceiver::new();
    let actions = feed(&mut rx, &frame);
    let (last, rest) = actions.split_last().unwrap();
    assert!(rest.iter().all(|a| *a == RxAction::AwaitNext));
    assert_eq!(*last, RxAction::Deliver { cmd: 0x10, payload: vec![1, 0xFF, 0x6A] });
    // and it hunts again
    assert_eq!(rx.step(Some(0x00)), RxAction::AwaitStart);
}

#[test]
fn receiver_skips_noise_and_empty_payloads() {
    let mut stream = vec![0x00, 0x55, 0x13];
    stream.extend(encode_frame(0x01, &[]).unwrap());
    let mut rx = FrameReceiver::new();
    let actions = feed(&mut rx, &stream);
    assert_eq!(actions[0], RxAction::AwaitStart);
    assert_eq!(*actions.last().unwrap(), RxAction::Deliver { cmd: 0x01, payload: vec![] });
}

#[test]
fn receiver_rejects_bad_checksums_and_gives_up_on_timeouts() {
    let mut frame = encode_frame(0x02, &[7]).unwrap();
    let last = frame.len() - 1;
    frame[last] ^= 1;
    let mut rx = FrameReceiver::new();
    let actions = feed(&mut rx, &frame);
    assert_eq!(*actions.last().unwrap(), RxAction::AwaitStart);

    let mut rx = FrameReceiver::new();
    assert_eq!(rx.step(None), RxAction::AwaitStart);
    assert_eq!(rx.step(Some(0xAA)), RxAction::AwaitNext);
    assert_eq!(rx.step(None), RxAction::AwaitStart);
    assert_eq!(rx.step(Some(0xAA)), RxAction::AwaitNext);
    assert_eq!(rx.step(Some(0x55)), RxAction::AwaitNext);
    assert_eq!(rx.step(Some(0x02)), RxAction::AwaitNext);
    assert_eq!(rx.step(None), RxAction::GiveUp);
    // a wrong second start byte restarts the hunt
    assert_eq!(rx.step(Some(0xAA)), RxAction::AwaitNext);
    assert_eq!(rx.step(Some(0xAA)), RxAction::AwaitStart);
}

#[test]
fn frame_bytes_xor_to_zero_after_the_start_bytes() {
    let frame = MotorCommand::Config { ppr: 4680, pwm_freq: 20000 }.frame();
    assert_eq!(frame[2..].iter().fold(0u8, |acc, b| acc ^ b), 0);
    let frame = encode_frame(0x33, &[9, 8, 7, 6, 5]).unwrap();
    assert_eq!(frame[2..].iter().fold(0u8, |acc, b| acc ^ b), 0);
}

#[test]
fn speed_payload_reads_back_as_the_pwm_value() {
    for pwm in [-32768i16, -150, -1, 0, 1, 150, 32767] {
        let payload = MotorCommand::SetSpeed { motor_id: 0, pwm }.payload();
        assert_eq!(((payload[1] as u16) << 8 | payload[2] as u16) as i16, pwm);
    }
}

#[test]
fn deadzone_is_symmetric_and_monotonic() {
    let mut previous = 0;
    for v in 0..=120 {
        let forward = map_deadzone(v, 15);
        assert_eq!(map_deadzone(-v, 15), -forward);
        assert!(forward >= previous);
        if v > 0 {
            assert!((15..=100).contains(&forward));
        }
        previous = forward;
    }
}
