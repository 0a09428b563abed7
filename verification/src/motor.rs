//! The motor board: its configuration, the commands it understands, and how a
//! requested wheel speed becomes the PWM value that is sent.

use vstd::prelude::*;
use crate::frame::{
    encode_frame, lemma_frame_round_trip, phase_after, spec_frame, spec_rx_step, RxPhase, RxSignal,
};

verus! {

pub const CMD_INIT: u8 = 0x01;
pub const CMD_CONFIG: u8 = 0x02;
pub const CMD_SET_SPEED: u8 = 0x10;
pub const CMD_STOP: u8 = 0x11;
pub const CMD_BRAKE: u8 = 0x12;
pub const CMD_RESET: u8 = 0xFF;

/// The wheel on the left.
pub const LEFT_MOTOR: u8 = 0;
/// The wheel on the right.
pub const RIGHT_MOTOR: u8 = 1;

// ---------------------------------------------------------------------------
// Integer helpers shared by the specifications
// ---------------------------------------------------------------------------

/// Whether `x` fits in an `i32`.
pub open spec fn is_i32(x: int) -> bool {
    i32::MIN <= x <= i32::MAX
}

/// Division that rounds toward zero, as Rust's `/` on signed integers does.
pub open spec fn trunc_div(a: int, b: int) -> int {
    if a >= 0 {
        a / b
    } else {
        -((-a) / b)
    }
}

/// `v` held within `lo..=hi`.
pub open spec fn spec_clamp(v: int, lo: int, hi: int) -> int {
    if v < lo {
        lo
    } else if v > hi {
        hi
    } else {
        v
    }
}

// ---------------------------------------------------------------------------
// Configuration
// ---------------------------------------------------------------------------

#[derive(Debug, Clone)]
pub struct MotorConfig {
    pub device: String,
    pub speed_scale: i32,
    pub ppr: u16,
    pub pwm_freq: u16,
    pub min_speed: i32,
}

impl Default for MotorConfig {
    fn default() -> (res: Self)
        ensures
            res.device@ == "/dev/ttyS3"@,
            res.speed_scale == 150,
            res.ppr == 4680,
            res.pwm_freq == 20000,
            res.min_speed == 15,
    {
        MotorConfig {
            device: String::from_str("/dev/ttyS3"),
            speed_scale: 150,
            ppr: 4680,
            pwm_freq: 20000,
            min_speed: 15,
        }
    }
}

// ---------------------------------------------------------------------------
// Byte order
// ---------------------------------------------------------------------------

/// Writes `value` big-endian into the first two bytes of `dst`.
pub fn put_be16(dst: &mut [u8], value: u16)
    requires
        old(dst)@.len() >= 2,
    ensures
        final(dst)@ == old(dst)@.update(0, (value >> 8) as u8).update(1, value as u8),
{
    dst[0] = (value >> 8) as u8;
    dst[1] = value as u8;
}

/// The number that two bytes spell big-endian.
pub open spec fn be16_value(hi: u8, lo: u8) -> int {
    hi as int * 256 + lo as int
}

/// The two bytes that `put_be16` writes spell the value back.
pub proof fn lemma_be16_round_trip(value: u16)
    ensures
        be16_value((value >> 8) as u8, value as u8) == value,
{
    let hi = (value >> 8) as u8;
    let lo = value as u8;
    assert(hi as u16 * 256 + lo as u16 == value) by (bit_vector)
        requires
            hi == (value >> 8) as u8,
            lo == value as u8,
    ;
}

// ---------------------------------------------------------------------------
// Speed shaping
// ---------------------------------------------------------------------------

/// The speed the board is asked for when `value` (in percent) is requested:
/// zero stays zero; any other request keeps its sign and its magnitude, capped
/// at 100, is stretched linearly from `1..=100` onto `min_speed..=100`, so that
/// the smallest request still overcomes the motors' dead zone.
pub open spec fn spec_map_deadzone(value: int, min_speed: int) -> int {
    if value == 0 {
        0
    } else {
        let capped = deadzone_magnitude(value, min_speed);
        if value < 0 {
            -capped
        } else {
            capped
        }
    }
}

/// The magnitude of a requested speed, at most 100.
pub open spec fn request_magnitude(value: int) -> int {
    let abs = if value < 0 {
        -value
    } else {
        value
    };
    if abs > 100 {
        100
    } else {
        abs
    }
}

/// The stretched magnitude before it is capped at 100.
pub open spec fn deadzone_stretch(value: int, min_speed: int) -> int {
    min_speed + trunc_div((request_magnitude(value) - 1) * (100 - min_speed), 99)
}

/// The stretched magnitude, capped at 100.
pub open spec fn deadzone_magnitude(value: int, min_speed: int) -> int {
    let mapped = deadzone_stretch(value, min_speed);
    if mapped > 100 {
        100
    } else {
        mapped
    }
}

/// Whether the dead-zone mapping of `value` stays within `i32` at every step
/// (outside of this it overflows).
pub open spec fn deadzone_fits(value: int, min_speed: int) -> bool {
    value == 0 || {
        &&& value != i32::MIN
        &&& is_i32(100 - min_speed)
        &&& is_i32((request_magnitude(value) - 1) * (100 - min_speed))
        &&& is_i32(deadzone_stretch(value, min_speed))
        &&& is_i32(-deadzone_magnitude(value, min_speed))
    }
}

pub fn map_deadzone(value: i32, min_speed: i32) -> (res: i32)
    requires
        deadzone_fits(value as int, min_speed as int),
    ensures
        res == spec_map_deadzone(value as int, min_speed as int),
{
    if value == 0 {
        return 0;
    }
    let abs: i32 = if value < 0 {
        -value
    } else {
        value
    };
    let mag: i32 = if abs < 100 {
        abs
    } else {
        100
    };
    let span: i32 = 100 - min_speed;
    let stretched: i32 = (mag - 1) * span;
    let mapped: i32 = min_speed + stretched / 99;
    let capped: i32 = if mapped < 100 {
        mapped
    } else {
        100
    };
    if value < 0 {
        -capped
    } else {
        capped
    }
}

/// The PWM value for a speed in percent: the speed, held within `-100..=100`,
/// scaled by `scale` percent (rounding toward zero) and cut to 16 bits.
pub open spec fn spec_to_pwm(speed: int, scale: int) -> i16 {
    trunc_div(spec_clamp(speed, -100, 100) * scale, 100) as i16
}

/// Whether scaling a speed stays within `i32`.
pub open spec fn pwm_fits(speed: int, scale: int) -> bool {
    is_i32(spec_clamp(speed, -100, 100) * scale)
}

pub fn to_pwm(speed: i32, scale: i32) -> (res: i16)
    requires
        pwm_fits(speed as int, scale as int),
    ensures
        res == spec_to_pwm(speed as int, scale as int),
{
    let clamped: i32 = if speed < -100 {
        -100
    } else if speed > 100 {
        100
    } else {
        speed
    };
    (clamped * scale / 100) as i16
}

/// The PWM value that a wheel gets for a requested speed.
pub open spec fn spec_wheel_pwm(speed: int, min_speed: int, scale: int) -> i16 {
    spec_to_pwm(spec_map_deadzone(speed, min_speed), scale)
}

/// Whether turning a requested speed into PWM stays within `i32` throughout.
pub open spec fn wheel_fits(speed: int, min_speed: int, scale: int) -> bool {
    deadzone_fits(speed, min_speed) && pwm_fits(spec_map_deadzone(speed, min_speed), scale)
}

/// The PWM value for a requested wheel speed, or `None` where the arithmetic
/// would overflow.
pub fn wheel_pwm(speed: i32, min_speed: i32, scale: i32) -> (res: Option<i16>)
    ensures
        res is Some <==> wheel_fits(speed as int, min_speed as int, scale as int),
        res matches Some(pwm) ==> pwm == spec_wheel_pwm(speed as int, min_speed as int, scale as int),
{
    if speed != 0 {
        if speed == i32::MIN {
            return None;
        }
        let abs: i64 = if speed < 0 {
            -(speed as i64)
        } else {
            speed as i64
        };
        let mag: i64 = if abs < 100 {
            abs
        } else {
            100
        };
        let span: i64 = 100 - min_speed as i64;
        if span > i32::MAX as i64 {
            return None;
        }
        assert(100 - i32::MAX <= span <= i32::MAX);
        assert(99 * (100 - i32::MAX) <= (mag - 1) * span <= 99 * i32::MAX) by (nonlinear_arith)
            requires
                0 <= mag - 1 <= 99,
                100 - i32::MAX <= span <= i32::MAX,
        ;
        let stretched: i64 = (mag - 1) * span;
        if stretched < i32::MIN as i64 || stretched > i32::MAX as i64 {
            return None;
        }
        let mapped: i64 = min_speed as i64 + stretched / 99;
        if mapped < i32::MIN as i64 || mapped > i32::MAX as i64 {
            return None;
        }
        let capped: i64 = if mapped < 100 {
            mapped
        } else {
            100
        };
        if -capped > i32::MAX as i64 {
            return None;
        }
    }
    let shaped = map_deadzone(speed, min_speed);
    let clamped: i64 = if shaped < -100 {
        -100
    } else if shaped > 100 {
        100
    } else {
        shaped as i64
    };
    assert(100 * (i32::MIN as int) <= clamped * scale <= -100 * (i32::MIN as int)) by (nonlinear_arith)
        requires
            -100 <= clamped <= 100,
            i32::MIN <= scale <= i32::MAX,
    ;
    let product: i64 = clamped * scale as i64;
    if product < i32::MIN as i64 || product > i32::MAX as i64 {
        return None;
    }
    Some(to_pwm(shaped, scale))
}

// ---------------------------------------------------------------------------
// Laws of speed shaping
// ---------------------------------------------------------------------------

/// Reversing a request reverses what the board is asked for.
pub proof fn lemma_deadzone_odd(value: int, min_speed: int)
    ensures
        spec_map_deadzone(-value, min_speed) == -spec_map_deadzone(value, min_speed),
{
}

/// With a dead-zone floor in `0..=100`, every non-zero request is sent with a
/// magnitude between the floor and 100, keeping its direction; a request of one
/// gets exactly the floor and a request of 100 or more gets exactly 100.
pub proof fn lemma_deadzone_range(value: int, min_speed: int)
    requires
        0 <= min_speed <= 100,
        value != 0,
    ensures
        min_speed <= deadzone_magnitude(value, min_speed) <= 100,
        value > 0 ==> spec_map_deadzone(value, min_speed) == deadzone_magnitude(value, min_speed),
        value < 0 ==> spec_map_deadzone(value, min_speed) == -deadzone_magnitude(value, min_speed),
        request_magnitude(value) == 1 ==> deadzone_magnitude(value, min_speed) == min_speed,
        request_magnitude(value) == 100 ==> deadzone_magnitude(value, min_speed) == 100,
{
    let m = request_magnitude(value);
    let span = 100 - min_speed;
    assert(0 <= (m - 1) * span <= 99 * span) by (nonlinear_arith)
        requires
            1 <= m <= 100,
            0 <= span,
    ;
    assert(0 <= ((m - 1) * span) / 99 <= span) by (nonlinear_arith)
        requires
            0 <= (m - 1) * span <= 99 * span,
            0 <= span,
    ;
    if m == 1 {
        assert((m - 1) * span == 0) by (nonlinear_arith)
            requires
                m == 1,
        ;
    }
    if m == 100 {
        assert((m - 1) * span / 99 == span) by (nonlinear_arith)
            requires
                m == 100,
        ;
    }
}

/// A larger forward request is never sent slower (and likewise backward).
pub proof fn lemma_deadzone_monotonic(a: int, b: int, min_speed: int)
    requires
        0 <= min_speed <= 100,
        0 <= a <= b,
    ensures
        spec_map_deadzone(a, min_speed) <= spec_map_deadzone(b, min_speed),
        spec_map_deadzone(-a, min_speed) >= spec_map_deadzone(-b, min_speed),
{
    if a == 0 {
        if b != 0 {
            lemma_deadzone_range(b, min_speed);
        }
    } else {
        let ma = request_magnitude(a);
        let mb = request_magnitude(b);
        let span = 100 - min_speed;
        assert((ma - 1) * span <= (mb - 1) * span) by (nonlinear_arith)
            requires
                1 <= ma <= mb,
                0 <= span,
        ;
        assert(0 <= (ma - 1) * span) by (nonlinear_arith)
            requires
                1 <= ma,
                0 <= span,
        ;
        assert(((ma - 1) * span) / 99 <= ((mb - 1) * span) / 99) by (nonlinear_arith)
            requires
                0 <= (ma - 1) * span <= (mb - 1) * span,
        ;
    }
}

/// With a non-negative scale that fits 16 bits, the PWM value never exceeds
/// the scale in magnitude, full speed gives exactly the scale, and reversing
/// the speed reverses the PWM value.
pub proof fn lemma_pwm_range(speed: int, scale: int)
    requires
        0 <= scale <= i16::MAX,
    ensures
        -scale <= spec_to_pwm(speed, scale) <= scale,
        spec_to_pwm(-speed, scale) == -spec_to_pwm(speed, scale),
        speed >= 100 ==> spec_to_pwm(speed, scale) == scale,
{
    let c = spec_clamp(speed, -100, 100);
    assert(-100 * scale <= c * scale <= 100 * scale) by (nonlinear_arith)
        requires
            -100 <= c <= 100,
            0 <= scale,
    ;
    assert(spec_clamp(-speed, -100, 100) == -c);
    assert((-c) * scale == -(c * scale)) by (nonlinear_arith);
    if c * scale >= 0 {
        assert(c * scale / 100 <= scale) by (nonlinear_arith)
            requires
                0 <= c * scale <= 100 * scale,
        ;
    } else {
        assert((-(c * scale)) / 100 <= scale) by (nonlinear_arith)
            requires
                0 < -(c * scale) <= 100 * scale,
        ;
    }
    if speed >= 100 {
        assert(100 * scale / 100 == scale) by (nonlinear_arith);
    }
}

// ---------------------------------------------------------------------------
// Commands
// ---------------------------------------------------------------------------

/// A command the motor board understands.
#[derive(Clone, Copy, Debug, PartialEq, Eq, Structural)]
pub enum MotorCommand {
    /// Wake the board up.
    Init,
    /// Encoder pulses per revolution and PWM frequency.
    Config { ppr: u16, pwm_freq: u16 },
    /// Drive one motor with a signed PWM value.
    SetSpeed { motor_id: u8, pwm: i16 },
    /// Let one motor coast.
    Stop { motor_id: u8 },
    /// Short one motor's windings so that it brakes.
    Brake { motor_id: u8 },
    /// Return the board to its power-on state.
    Reset,
}

impl MotorCommand {
    pub open spec fn spec_code(&self) -> u8 {
        match self {
            MotorCommand::Init => CMD_INIT,
            MotorCommand::Config { .. } => CMD_CONFIG,
            MotorCommand::SetSpeed { .. } => CMD_SET_SPEED,
            MotorCommand::Stop { .. } => CMD_STOP,
            MotorCommand::Brake { .. } => CMD_BRAKE,
            MotorCommand::Reset => CMD_RESET,
        }
    }

    /// The payload: both configuration values big-endian; the motor and its PWM
    /// value, in two's complement big-endian; or just the motor.
    pub open spec fn spec_payload(&self) -> Seq<u8> {
        match self {
            MotorCommand::Init => Seq::empty(),
            MotorCommand::Config { ppr, pwm_freq } => seq![
                (*ppr >> 8) as u8,
                *ppr as u8,
                (*pwm_freq >> 8) as u8,
                *pwm_freq as u8,
            ],
            MotorCommand::SetSpeed { motor_id, pwm } => seq![
                *motor_id,
                ((*pwm as u16) >> 8) as u8,
                (*pwm as u16) as u8,
            ],
            MotorCommand::Stop { motor_id } => seq![*motor_id],
            MotorCommand::Brake { motor_id } => seq![*motor_id],
            MotorCommand::Reset => Seq::empty(),
        }
    }

    pub fn code(&self) -> (res: u8)
        ensures
            res == self.spec_code(),
    {
        match self {
            MotorCommand::Init => CMD_INIT,
            MotorCommand::Config { .. } => CMD_CONFIG,
            MotorCommand::SetSpeed { .. } => CMD_SET_SPEED,
            MotorCommand::Stop { .. } => CMD_STOP,
            MotorCommand::Brake { .. } => CMD_BRAKE,
            MotorCommand::Reset => CMD_RESET,
        }
    }

    pub fn payload(&self) -> (res: Vec<u8>)
        ensures
            res@ == self.spec_payload(),
    {
        match self {
            MotorCommand::Init => Vec::new(),
            MotorCommand::Config { ppr, pwm_freq } => {
                let mut first = [0u8; 2];
                let mut second = [0u8; 2];
                put_be16(&mut first, *ppr);
                put_be16(&mut second, *pwm_freq);
                let res = vec![first[0], first[1], second[0], second[1]];
                assert(res@ =~= self.spec_payload());
                res
            },
            MotorCommand::SetSpeed { motor_id, pwm } => {
                let raw = *pwm as u16;
                let res = vec![*motor_id, (raw >> 8) as u8, raw as u8];
                assert(res@ =~= self.spec_payload());
                res
            },
            MotorCommand::Stop { motor_id } => {
                let res = vec![*motor_id];
                assert(res@ =~= self.spec_payload());
                res
            },
            MotorCommand::Brake { motor_id } => {
                let res = vec![*motor_id];
                assert(res@ =~= self.spec_payload());
                res
            },
            MotorCommand::Reset => Vec::new(),
        }
    }

    /// The bytes that carry this command to the board.
    pub fn frame(&self) -> (res: Vec<u8>)
        ensures
            res@ == spec_frame(self.spec_code(), self.spec_payload()),
    {
        let payload = self.payload();
        match encode_frame(self.code(), payload.as_slice()) {
            Some(frame) => frame,
            None => Vec::new(),
        }
    }

    /// Whether the board answers this command; the caller then waits for the reply.
    pub fn awaits_reply(&self) -> (res: bool)
        ensures
            res == !(self is Reset),
    {
        match self {
            MotorCommand::Reset => false,
            _ => true,
        }
    }
}

/// A set-speed command's payload carries the PWM value back: its two bytes,
/// read big-endian as a two's complement number, give the value that was sent.
pub proof fn lemma_speed_payload_round_trip(motor_id: u8, pwm: i16)
    ensures
        ({
            let payload = (MotorCommand::SetSpeed { motor_id, pwm }).spec_payload();
            &&& payload[0] == motor_id
            &&& (be16_value(payload[1], payload[2]) as u16) as i16 == pwm
        }),
{
    let raw = pwm as u16;
    lemma_be16_round_trip(raw);
    assert((raw as i16) == pwm) by (bit_vector)
        requires
            raw == pwm as u16,
    ;
}

/// Every command survives the line: a hunting receiver fed the frame of a
/// command, byte by byte, delivers the command's code and payload.
pub proof fn lemma_command_round_trip(command: MotorCommand)
    ensures
        ({
            let frame = spec_frame(command.spec_code(), command.spec_payload());
            spec_rx_step(phase_after(RxPhase::Hunt, frame.drop_last()), Some(frame.last()))
                == (RxPhase::Hunt, RxSignal::Deliver { cmd: command.spec_code(), payload: command.spec_payload() })
        }),
{
    lemma_frame_round_trip(command.spec_code(), command.spec_payload());
}

/// The commands that set up the board after the port is opened.
pub fn startup_commands(ppr: u16, pwm_freq: u16) -> (res: Vec<MotorCommand>)
    ensures
        res@ == seq![MotorCommand::Init, MotorCommand::Config { ppr, pwm_freq }],
{
    let res = vec![MotorCommand::Init, MotorCommand::Config { ppr, pwm_freq }];
    assert(res@ =~= seq![MotorCommand::Init, MotorCommand::Config { ppr, pwm_freq }]);
    res
}

// ---------------------------------------------------------------------------
// Motions
// ---------------------------------------------------------------------------

/// What the two wheels are told to do.
#[derive(Clone, Copy, Debug, PartialEq, Eq, Structural)]
pub enum MotorOp {
    /// Drive both wheels, with speeds in percent.
    Drive { left: i32, right: i32 },
    /// Let both wheels coast.
    Standby,
    /// Brake both wheels.
    Brake,
}

/// The commands that carry out `op`, wheel by wheel, left first.
pub open spec fn spec_op_commands(op: MotorOp, min_speed: int, scale: int) -> Seq<MotorCommand> {
    match op {
        MotorOp::Drive { left, right } => seq![
            MotorCommand::SetSpeed { motor_id: LEFT_MOTOR, pwm: spec_wheel_pwm(left as int, min_speed, scale) },
            MotorCommand::SetSpeed { motor_id: RIGHT_MOTOR, pwm: spec_wheel_pwm(right as int, min_speed, scale) },
        ],
        MotorOp::Standby => seq![
            MotorCommand::Stop { motor_id: LEFT_MOTOR },
            MotorCommand::Stop { motor_id: RIGHT_MOTOR },
        ],
        MotorOp::Brake => seq![
            MotorCommand::Brake { motor_id: LEFT_MOTOR },
            MotorCommand::Brake { motor_id: RIGHT_MOTOR },
        ],
    }
}

/// Whether the speed arithmetic of `op` stays within `i32`.
pub open spec fn op_fits(op: MotorOp, min_speed: int, scale: int) -> bool {
    match op {
        MotorOp::Drive { left, right } => wheel_fits(left as int, min_speed, scale) && wheel_fits(
            right as int,
            min_speed,
            scale,
        ),
        _ => true,
    }
}

/// The commands that carry out `op` on a board configured with the dead-zone
/// floor `min_speed` and the scale `scale`; `None` where the speed arithmetic
/// would overflow.
pub fn op_commands(op: &MotorOp, min_speed: i32, scale: i32) -> (res: Option<Vec<MotorCommand>>)
    ensures
        res is Some <==> op_fits(*op, min_speed as int, scale as int),
        res matches Some(cmds) ==> cmds@ == spec_op_commands(*op, min_speed as int, scale as int),
{
    let res = match op {
        MotorOp::Drive { left, right } => {
            let left_pwm = match wheel_pwm(*left, min_speed, scale) {
                Some(p) => p,
                None => return None,
            };
            let right_pwm = match wheel_pwm(*right, min_speed, scale) {
                Some(p) => p,
                None => return None,
            };
            vec![
                MotorCommand::SetSpeed { motor_id: LEFT_MOTOR, pwm: left_pwm },
                MotorCommand::SetSpeed { motor_id: RIGHT_MOTOR, pwm: right_pwm },
            ]
        },
        MotorOp::Standby => vec![
            MotorCommand::Stop { motor_id: LEFT_MOTOR },
            MotorCommand::Stop { motor_id: RIGHT_MOTOR },
        ],
        MotorOp::Brake => vec![
            MotorCommand::Brake { motor_id: LEFT_MOTOR },
            MotorCommand::Brake { motor_id: RIGHT_MOTOR },
        ],
    };
    assert(res@ =~= spec_op_commands(*op, min_speed as int, scale as int));
    Some(res)
}

/// A direction to drive in.
#[derive(Clone, Copy, Debug, PartialEq, Eq, Structural)]
pub enum Motion {
    Forward,
    Backward,
    Left,
    Right,
}

/// The wheel speeds `(left, right)` of a motion at `speed`: both forward, both
/// back, or turning on the spot.
pub open spec fn spec_motion_speeds(motion: Motion, speed: int) -> (int, int) {
    match motion {
        Motion::Forward => (speed, speed),
        Motion::Backward => (-speed, -speed),
        Motion::Left => (-speed, speed),
        Motion::Right => (speed, -speed),
    }
}

pub fn motion_speeds(motion: Motion, speed: i32) -> (res: (i32, i32))
    requires
        motion != Motion::Forward ==> speed != i32::MIN,
    ensures
        (res.0 as int, res.1 as int) == spec_motion_speeds(motion, speed as int),
{
    match motion {
        Motion::Forward => (speed, speed),
        Motion::Backward => (-speed, -speed),
        Motion::Left => (-speed, speed),
        Motion::Right => (speed, -speed),
    }
}

// ---------------------------------------------------------------------------
// Laws of the wheel commands
// ---------------------------------------------------------------------------

/// With a dead-zone floor in `0..=100` and a non-negative 16-bit scale whose
/// product with the floor reaches one percent of full PWM, every wheel turns
/// the way it is asked: a forward request gets a positive PWM value, a backward
/// one a negative value, and no request gets zero.
pub proof fn lemma_wheel_direction(speed: int, min_speed: int, scale: int)
    requires
        0 <= min_speed <= 100,
        0 <= scale <= i16::MAX,
        min_speed * scale >= 100,
    ensures
        speed > 0 ==> spec_wheel_pwm(speed, min_speed, scale) > 0,
        speed < 0 ==> spec_wheel_pwm(speed, min_speed, scale) < 0,
        speed == 0 ==> spec_wheel_pwm(speed, min_speed, scale) == 0,
{
    if speed != 0 {
        lemma_deadzone_range(speed, min_speed);
        let m = deadzone_magnitude(speed, min_speed);
        assert(100 <= m * scale <= 100 * i16::MAX) by (nonlinear_arith)
            requires
                min_speed <= m <= 100,
                0 <= scale <= i16::MAX,
                min_speed * scale >= 100,
                0 <= min_speed,
        ;
        assert(1 <= (m * scale) / 100 <= i16::MAX) by (nonlinear_arith)
            requires
                100 <= m * scale <= 100 * i16::MAX,
        ;
        assert((-m) * scale == -(m * scale)) by (nonlinear_arith);
    } else {
        assert(0int * scale == 0) by (nonlinear_arith);
    }
}

/// Each wheel gets the command for its own speed: the left motor is sent the
/// PWM value of the left speed and the right motor that of the right speed,
/// so the right wheel's command does not depend on the left speed, and equal
/// speeds send equal PWM values to both wheels. Standby stops both wheels and
/// braking brakes both.
pub proof fn lemma_drive_commands_per_wheel(left: i32, right: i32, other_left: i32, min_speed: int, scale: int)
    ensures
        ({
            let cmds = spec_op_commands(MotorOp::Drive { left, right }, min_speed, scale);
            &&& cmds.len() == 2
            &&& cmds[0] == (MotorCommand::SetSpeed { motor_id: LEFT_MOTOR, pwm: spec_wheel_pwm(left as int, min_speed, scale) })
            &&& cmds[1] == (MotorCommand::SetSpeed { motor_id: RIGHT_MOTOR, pwm: spec_wheel_pwm(right as int, min_speed, scale) })
            &&& cmds[1] == spec_op_commands(MotorOp::Drive { left: other_left, right }, min_speed, scale)[1]
            &&& left == right ==> cmds[0]->pwm == cmds[1]->pwm
        }),
        spec_op_commands(MotorOp::Standby, min_speed, scale) == seq![
            MotorCommand::Stop { motor_id: LEFT_MOTOR },
            MotorCommand::Stop { motor_id: RIGHT_MOTOR },
        ],
        spec_op_commands(MotorOp::Brake, min_speed, scale) == seq![
            MotorCommand::Brake { motor_id: LEFT_MOTOR },
            MotorCommand::Brake { motor_id: RIGHT_MOTOR },
        ],
        LEFT_MOTOR == 0 && RIGHT_MOTOR == 1,
{
}

/// Driving forward at a positive speed on a board configured with the default
/// floor and scale sends both wheels the same positive PWM value; turning on
/// the spot sends them opposite values.
pub proof fn lemma_motions_drive_wheels(speed: i32)
    requires
        0 < speed <= 100,
    ensures
        ({
            let forward = spec_op_commands(MotorOp::Drive { left: speed, right: speed }, 15, 150);
            let left_turn = spec_op_commands(MotorOp::Drive { left: (-speed) as i32, right: speed }, 15, 150);
            &&& forward[0]->pwm > 0 && forward[1]->pwm > 0 && forward[0]->pwm == forward[1]->pwm
            &&& left_turn[0]->pwm < 0 && left_turn[1]->pwm > 0
            &&& left_turn[0]->pwm == -left_turn[1]->pwm
        }),
{
    lemma_wheel_direction(speed as int, 15, 150);
    lemma_wheel_direction(-speed as int, 15, 150);
    lemma_deadzone_odd(speed as int, 15);
    lemma_pwm_range(spec_map_deadzone(speed as int, 15), 150);
}

/// The configuration command carries both values, each big-endian: the first
/// two payload bytes read back as the pulses per revolution and the last two
/// as the PWM frequency. Stop and brake carry just the motor, init and reset
/// nothing, and each command is sent under its own code.
pub proof fn lemma_command_payloads(ppr: u16, pwm_freq: u16, motor_id: u8)
    ensures
        ({
            let p = (MotorCommand::Config { ppr, pwm_freq }).spec_payload();
            &&& p.len() == 4
            &&& be16_value(p[0], p[1]) == ppr
            &&& be16_value(p[2], p[3]) == pwm_freq
        }),
        (MotorCommand::Stop { motor_id }).spec_payload() == seq![motor_id],
        (MotorCommand::Brake { motor_id }).spec_payload() == seq![motor_id],
        (MotorCommand::Init).spec_payload().len() == 0,
        (MotorCommand::Reset).spec_payload().len() == 0,
        (MotorCommand::Init).spec_code() == 0x01u8,
        (MotorCommand::Config { ppr, pwm_freq }).spec_code() == 0x02u8,
        (MotorCommand::SetSpeed { motor_id, pwm: 0 }).spec_code() == 0x10u8,
        (MotorCommand::Stop { motor_id }).spec_code() == 0x11u8,
        (MotorCommand::Brake { motor_id }).spec_code() == 0x12u8,
        (MotorCommand::Reset).spec_code() == 0xFFu8,
{
    lemma_be16_round_trip(ppr);
    lemma_be16_round_trip(pwm_freq);
}

} // verus!
