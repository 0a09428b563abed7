//! The decisions of the web control panel: how a drive or arm request is
//! understood, what it asks of the hardware, what the panel remembers and what
//! it answers.

use vstd::prelude::*;
use vstd::string::*;
use crate::arm::ArmRoutine;
use crate::motor::{motion_speeds, spec_clamp, spec_motion_speeds, Motion, MotorOp};
use crate::text::{
    all_white_space, is_trimmed, lemma_trim_idempotent, lemma_trim_ignores_padding, push_decimal,
    same_text, spec_decimal, spec_trim, trim_text,
};

verus! {

// ---------------------------------------------------------------------------
// Status and answers
// ---------------------------------------------------------------------------

/// What the panel shows of the hardware and of the last command.
#[derive(Clone, Debug, PartialEq, Eq)]
pub struct StatusSnapshot {
    pub mock: bool,
    pub motor_connected: bool,
    pub arm_connected: bool,
    pub motor_error: Option<String>,
    pub arm_error: Option<String>,
    pub left_speed: i32,
    pub right_speed: i32,
    pub last_action: String,
}

/// The answer to a status request.
#[derive(Debug)]
pub struct StatusResponse {
    pub ok: bool,
    pub status: StatusSnapshot,
}

/// The answer to a command.
#[derive(Debug)]
pub struct CommandResponse {
    pub ok: bool,
    pub message: String,
    pub status: StatusSnapshot,
}

/// The hardware is ready in mock mode, or when both the motor board and the arm are connected.
pub open spec fn spec_hardware_ready(mock: bool, motor_connected: bool, arm_connected: bool) -> bool {
    mock || (motor_connected && arm_connected)
}

pub fn hardware_ready(mock: bool, motor_connected: bool, arm_connected: bool) -> (res: bool)
    ensures
        res == spec_hardware_ready(mock, motor_connected, arm_connected),
{
    mock || (motor_connected && arm_connected)
}

/// A status answer is `ok` exactly when the hardware it reports is ready.
pub fn status_response(status: StatusSnapshot) -> (res: StatusResponse)
    ensures
        res.ok == spec_hardware_ready(status.mock, status.motor_connected, status.arm_connected),
        res.status == status,
{
    StatusResponse { ok: status.mock || (status.motor_connected && status.arm_connected), status }
}

/// A command answer is `ok` with the message of a success, or not `ok` with
/// the message of a failure.
pub fn command_response(result: Result<String, String>, status: StatusSnapshot) -> (res: CommandResponse)
    ensures
        res.status == status,
        match result {
            Ok(message) => res.ok && res.message == message,
            Err(message) => !res.ok && res.message == message,
        },
{
    match result {
        Ok(message) => CommandResponse { ok: true, message, status },
        Err(message) => CommandResponse { ok: false, message, status },
    }
}

/// The answer to a reconnection, given whether the hardware is now ready.
pub fn reconnect_result(ready: bool) -> (res: Result<String, String>)
    ensures
        result_view(res) == if ready {
            Ok::<Seq<char>, Seq<char>>("hardware connected"@)
        } else {
            Err::<Seq<char>, Seq<char>>("hardware connection is incomplete"@)
        },
{
    if ready {
        Ok(String::from_str("hardware connected"))
    } else {
        Err(String::from_str("hardware connection is incomplete"))
    }
}

/// The characters of a result, success or failure.
pub open spec fn result_view(r: Result<String, String>) -> Result<Seq<char>, Seq<char>> {
    match r {
        Ok(m) => Ok(m@),
        Err(m) => Err(m@),
    }
}

// ---------------------------------------------------------------------------
// Drive actions
// ---------------------------------------------------------------------------

/// The drive action a word names: `up` is forward, `down` and `reverse` are
/// backward, `standby` is stop; the canonical words name themselves, and any
/// other word is left as it is.
pub open spec fn spec_canonical_action(word: Seq<char>) -> Seq<char> {
    if word == "up"@ || word == "forward"@ {
        "forward"@
    } else if word == "down"@ || word == "backward"@ || word == "reverse"@ {
        "backward"@
    } else if word == "left"@ {
        "left"@
    } else if word == "right"@ {
        "right"@
    } else if word == "brake"@ {
        "brake"@
    } else if word == "stop"@ || word == "standby"@ {
        "stop"@
    } else {
        word
    }
}

/// The canonical drive action for a word that has already been trimmed.
pub fn canonical_drive_action<'a>(word: &'a str) -> (res: &'a str)
    ensures
        res@ == spec_canonical_action(word@),
{
    if same_text(word, "up") || same_text(word, "forward") {
        "forward"
    } else if same_text(word, "down") || same_text(word, "backward") || same_text(word, "reverse") {
        "backward"
    } else if same_text(word, "left") {
        "left"
    } else if same_text(word, "right") {
        "right"
    } else if same_text(word, "brake") {
        "brake"
    } else if same_text(word, "stop") || same_text(word, "standby") {
        "stop"
    } else {
        word
    }
}

/// The canonical drive action for a request's action, white space around it ignored.
pub fn normalize_drive_action<'a>(action: &'a str) -> (res: &'a str)
    ensures
        res@ == spec_canonical_action(spec_trim(action@)),
{
    canonical_drive_action(trim_text(action))
}

/// Naming a drive action twice changes nothing.
pub proof fn lemma_canonical_action_idempotent(word: Seq<char>)
    ensures
        spec_canonical_action(spec_canonical_action(word)) == spec_canonical_action(word),
{
    reveal_strlit("up");
    reveal_strlit("forward");
    reveal_strlit("down");
    reveal_strlit("backward");
    reveal_strlit("reverse");
    reveal_strlit("left");
    reveal_strlit("right");
    reveal_strlit("brake");
    reveal_strlit("stop");
    reveal_strlit("standby");
    assert("left"@[0] != "down"@[0]);
    assert("brake"@[0] != "right"@[0]);
    assert("stop"@[0] != "down"@[0]);
    assert("stop"@[0] != "left"@[0]);
}

/// The canonical words neither begin nor end with white space.
proof fn lemma_canonical_words_trimmed()
    ensures
        is_trimmed("forward"@),
        is_trimmed("backward"@),
        is_trimmed("left"@),
        is_trimmed("right"@),
        is_trimmed("brake"@),
        is_trimmed("stop"@),
{
    reveal_strlit("forward");
    reveal_strlit("backward");
    reveal_strlit("left");
    reveal_strlit("right");
    reveal_strlit("brake");
    reveal_strlit("stop");
}

/// Normalizing an action that has already been normalized changes nothing.
pub proof fn lemma_normalize_idempotent(action: Seq<char>)
    ensures
        spec_canonical_action(spec_trim(spec_canonical_action(spec_trim(action))))
            == spec_canonical_action(spec_trim(action)),
{
    let t = spec_trim(action);
    let c = spec_canonical_action(t);
    lemma_trim_idempotent(action);
    lemma_canonical_action_idempotent(t);
    lemma_canonical_words_trimmed();
    if c != t {
        lemma_trim_ignores_padding(Seq::<char>::empty(), c, Seq::<char>::empty());
        assert(Seq::<char>::empty() + c + Seq::<char>::empty() =~= c);
    }
}

/// White space around an action word does not change the action it names.
pub proof fn lemma_action_padding_ignored(pre: Seq<char>, word: Seq<char>, post: Seq<char>)
    requires
        all_white_space(pre),
        all_white_space(post),
        is_trimmed(word),
    ensures
        spec_canonical_action(spec_trim(pre + word + post)) == spec_canonical_action(word),
        spec_arm_action_kind(spec_trim(pre + word + post)) == spec_arm_action_kind(word),
{
    lemma_trim_ignores_padding(pre, word, post);
}

/// A drive request from the panel: an action with a speed, or a speed for each wheel.
#[derive(Clone, Debug)]
pub struct DriveRequest {
    pub action: Option<String>,
    pub speed: Option<i32>,
    pub left: Option<i32>,
    pub right: Option<i32>,
}

/// What a drive request asks for.
pub enum DriveIntent {
    /// Each wheel at its own speed.
    Manual { left: i32, right: i32 },
    /// A motion at a speed.
    Move { motion: Motion, speed: i32 },
    Brake,
    Stop,
    /// An action the panel does not know.
    Unknown { action: Seq<char> },
}

/// The speed that comes with an action: 50 when none is given, otherwise its
/// magnitude held to at most 100.
pub open spec fn spec_action_speed(speed: Option<i32>) -> i32 {
    let s = match speed {
        Some(s) => s as int,
        None => 50,
    };
    spec_clamp(if s < 0 { -s } else { s }, 0, 100) as i32
}

/// The action of a request: its trimmed canonical word, or stop when it names none.
pub open spec fn spec_request_action(action: Option<String>) -> Seq<char> {
    match action {
        Some(a) => spec_canonical_action(spec_trim(a@)),
        None => "stop"@,
    }
}

/// Reading a drive request: speeds for both wheels win, each held to
/// `-100..=100`; otherwise the action decides.
pub open spec fn spec_drive_intent(request: DriveRequest) -> DriveIntent {
    match (request.left, request.right) {
        (Some(l), Some(r)) => DriveIntent::Manual {
            left: spec_clamp(l as int, -100, 100) as i32,
            right: spec_clamp(r as int, -100, 100) as i32,
        },
        _ => {
            let a = spec_request_action(request.action);
            let speed = spec_action_speed(request.speed);
            if a == "forward"@ {
                DriveIntent::Move { motion: Motion::Forward, speed }
            } else if a == "backward"@ {
                DriveIntent::Move { motion: Motion::Backward, speed }
            } else if a == "left"@ {
                DriveIntent::Move { motion: Motion::Left, speed }
            } else if a == "right"@ {
                DriveIntent::Move { motion: Motion::Right, speed }
            } else if a == "brake"@ {
                DriveIntent::Brake
            } else if a == "stop"@ {
                DriveIntent::Stop
            } else {
                DriveIntent::Unknown { action: a }
            }
        },
    }
}

/// Whether reading the request stays within `i32`: the magnitude of an
/// action's speed cannot be taken of the most negative `i32`.
pub open spec fn drive_request_fits(request: DriveRequest) -> bool {
    (request.left is Some && request.right is Some) || request.speed != Some(i32::MIN)
}

/// The word a motion is reported by.
pub open spec fn motion_word(motion: Motion) -> Seq<char> {
    match motion {
        Motion::Forward => "forward"@,
        Motion::Backward => "backward"@,
        Motion::Left => "left"@,
        Motion::Right => "right"@,
    }
}

/// The wheel speeds a drive intent leaves behind.
pub open spec fn intent_speeds(intent: DriveIntent) -> (int, int) {
    match intent {
        DriveIntent::Manual { left, right } => (left as int, right as int),
        DriveIntent::Move { motion, speed } => spec_motion_speeds(motion, speed as int),
        _ => (0, 0),
    }
}

/// What the motor board is told for a drive intent.
pub open spec fn intent_op(intent: DriveIntent) -> MotorOp {
    match intent {
        DriveIntent::Manual { left, right } => MotorOp::Drive { left, right },
        DriveIntent::Move { motion, speed } => MotorOp::Drive {
            left: spec_motion_speeds(motion, speed as int).0 as i32,
            right: spec_motion_speeds(motion, speed as int).1 as i32,
        },
        DriveIntent::Brake => MotorOp::Brake,
        _ => MotorOp::Standby,
    }
}

/// The last action recorded for a drive intent.
pub open spec fn intent_label(intent: DriveIntent) -> Seq<char> {
    match intent {
        DriveIntent::Manual { .. } => "drive"@,
        DriveIntent::Move { motion, .. } => motion_word(motion),
        DriveIntent::Brake => "brake"@,
        DriveIntent::Stop => "stop"@,
        DriveIntent::Unknown { action } => action,
    }
}

/// The answer to a drive intent; `blocked` is whether the motor board is
/// missing outside mock mode.
pub open spec fn spec_drive_result(intent: DriveIntent, blocked: bool) -> Result<Seq<char>, Seq<char>> {
    match intent {
        DriveIntent::Unknown { action } => Err("unknown drive action: "@ + action),
        _ => if blocked {
            Err("motor is not connected"@)
        } else {
            match intent {
                DriveIntent::Manual { left, right } => Ok(
                    "drive left="@ + spec_decimal(left as int) + " right="@ + spec_decimal(right as int),
                ),
                DriveIntent::Move { motion, speed } => Ok(
                    motion_word(motion) + " speed="@ + spec_decimal(speed as int),
                ),
                DriveIntent::Brake => Ok("brake"@),
                _ => Ok("stop"@),
            }
        },
    }
}

// ---------------------------------------------------------------------------
// Arm actions
// ---------------------------------------------------------------------------

/// An arm request from the panel. `angle_text` is the requested angle as the
/// panel reports it (one decimal place), when an angle was given.
#[derive(Clone, Debug)]
pub struct ArmActionRequest {
    pub action: String,
    pub servo_id: Option<i32>,
    pub angle_text: Option<String>,
    pub time_ms: Option<i32>,
}

/// What the arm is told to do.
#[derive(Clone, Copy, Debug, PartialEq, Eq, Structural)]
pub enum ArmOp {
    Routine(ArmRoutine),
    /// Move one servo to the requested angle within `time_ms` milliseconds.
    SetAngle { servo_id: i32, time_ms: i32 },
    TorqueOff { servo_id: i32 },
    TorqueOn { servo_id: i32 },
}

/// The kind of arm action a word names.
#[derive(Clone, Copy, Debug, PartialEq, Eq, Structural)]
pub enum ArmActionKind {
    Routine(ArmRoutine),
    SetAngle,
    TorqueOff,
    TorqueOn,
    Unknown,
}

pub open spec fn spec_arm_action_kind(word: Seq<char>) -> ArmActionKind {
    if word == "grab"@ {
        ArmActionKind::Routine(ArmRoutine::Grab)
    } else if word == "release"@ {
        ArmActionKind::Routine(ArmRoutine::Release)
    } else if word == "grab_pos"@ || word == "ready"@ {
        ArmActionKind::Routine(ArmRoutine::GrabPos)
    } else if word == "release_pos"@ {
        ArmActionKind::Routine(ArmRoutine::ReleasePos)
    } else if word == "show"@ {
        ArmActionKind::Routine(ArmRoutine::Show)
    } else if word == "angle"@ || word == "set_angle"@ {
        ArmActionKind::SetAngle
    } else if word == "torque_off"@ {
        ArmActionKind::TorqueOff
    } else if word == "torque_on"@ {
        ArmActionKind::TorqueOn
    } else {
        ArmActionKind::Unknown
    }
}

/// The kind of arm action for a word that has already been trimmed.
pub fn arm_action_kind(word: &str) -> (res: ArmActionKind)
    ensures
        res == spec_arm_action_kind(word@),
{
    if same_text(word, "grab") {
        ArmActionKind::Routine(ArmRoutine::Grab)
    } else if same_text(word, "release") {
        ArmActionKind::Routine(ArmRoutine::Release)
    } else if same_text(word, "grab_pos") || same_text(word, "ready") {
        ArmActionKind::Routine(ArmRoutine::GrabPos)
    } else if same_text(word, "release_pos") {
        ArmActionKind::Routine(ArmRoutine::ReleasePos)
    } else if same_text(word, "show") {
        ArmActionKind::Routine(ArmRoutine::Show)
    } else if same_text(word, "angle") || same_text(word, "set_angle") {
        ArmActionKind::SetAngle
    } else if same_text(word, "torque_off") {
        ArmActionKind::TorqueOff
    } else if same_text(word, "torque_on") {
        ArmActionKind::TorqueOn
    } else {
        ArmActionKind::Unknown
    }
}

/// The message (and last action) of a routine.
pub open spec fn routine_label(routine: ArmRoutine) -> Seq<char> {
    match routine {
        ArmRoutine::Grab => "arm grab"@,
        ArmRoutine::Release => "arm release"@,
        ArmRoutine::GrabPos => "arm ready"@,
        ArmRoutine::ReleasePos => "arm release_pos"@,
        ArmRoutine::Show => "arm show"@,
    }
}

/// The time a servo move is given: 500 ms when none is asked, otherwise the
/// asked time held to `0..=10000`.
pub open spec fn spec_move_time(time_ms: Option<i32>) -> i32 {
    spec_clamp(
        match time_ms {
            Some(t) => t as int,
            None => 500,
        },
        0,
        10_000,
    ) as i32
}

/// What an arm request leads to: the operation for the arm (when the arm is
/// connected) and the answer; `blocked` is whether the arm is missing outside
/// mock mode. A missing servo or angle is reported before a missing arm.
pub open spec fn spec_arm_plan(request: ArmActionRequest, arm_connected: bool, blocked: bool) -> (
    Option<ArmOp>,
    Result<Seq<char>, Seq<char>>,
) {
    let word = spec_trim(request.action@);
    let not_connected = (None, Err("arm is not connected"@));
    let missing_servo = (None, Err("servo_id is required"@));
    match spec_arm_action_kind(word) {
        ArmActionKind::Routine(routine) => if blocked {
            not_connected
        } else {
            (
                if arm_connected {
                    Some(ArmOp::Routine(routine))
                } else {
                    None
                },
                Ok(routine_label(routine)),
            )
        },
        ArmActionKind::SetAngle => match request.servo_id {
            None => missing_servo,
            Some(servo_id) => match request.angle_text {
                None => (None, Err("angle is required"@)),
                Some(angle) => if blocked {
                    not_connected
                } else {
                    (
                        if arm_connected {
                            Some(ArmOp::SetAngle { servo_id, time_ms: spec_move_time(request.time_ms) })
                        } else {
                            None
                        },
                        Ok("arm servo "@ + spec_decimal(servo_id as int) + " angle "@ + angle@),
                    )
                },
            },
        },
        ArmActionKind::TorqueOff => match request.servo_id {
            None => missing_servo,
            Some(servo_id) => if blocked {
                not_connected
            } else {
                (
                    if arm_connected {
                        Some(ArmOp::TorqueOff { servo_id })
                    } else {
                        None
                    },
                    Ok("arm servo "@ + spec_decimal(servo_id as int) + " torque off"@),
                )
            },
        },
        ArmActionKind::TorqueOn => match request.servo_id {
            None => missing_servo,
            Some(servo_id) => if blocked {
                not_connected
            } else {
                (
                    if arm_connected {
                        Some(ArmOp::TorqueOn { servo_id })
                    } else {
                        None
                    },
                    Ok("arm servo "@ + spec_decimal(servo_id as int) + " torque on"@),
                )
            },
        },
        ArmActionKind::Unknown => (None, Err("unknown arm action: "@ + word)),
    }
}

// ---------------------------------------------------------------------------
// The panel's state
// ---------------------------------------------------------------------------

/// What the panel remembers besides the hardware handles themselves.
#[derive(Clone, Debug)]
pub struct ControlState {
    pub mock: bool,
    pub motor_error: Option<String>,
    pub arm_error: Option<String>,
    pub left_speed: i32,
    pub right_speed: i32,
    pub last_action: String,
}

fn clamp_i32(v: i32, lo: i32, hi: i32) -> (res: i32)
    requires
        lo <= hi,
    ensures
        res == spec_clamp(v as int, lo as int, hi as int),
{
    if v < lo {
        lo
    } else if v > hi {
        hi
    } else {
        v
    }
}

fn clone_message(m: &Option<String>) -> (res: Option<String>)
    ensures
        res == *m,
{
    match m {
        Some(s) => Some(s.clone()),
        None => None,
    }
}

fn text(s: &str) -> (res: String)
    ensures
        res@ == s@,
{
    String::from_str(s)
}

impl ControlState {
    /// The state before the first connection.
    pub fn boot(mock: bool) -> (res: ControlState)
        ensures
            res.mock == mock,
            res.motor_error is None,
            res.arm_error is None,
            res.left_speed == 0,
            res.right_speed == 0,
            res.last_action@ == "boot"@,
    {
        ControlState {
            mock,
            motor_error: None,
            arm_error: None,
            left_speed: 0,
            right_speed: 0,
            last_action: text("boot"),
        }
    }

    /// Starts a (re)connection: forgets the errors and the wheel speeds; in
    /// mock mode it is complete at once. Returns whether the hardware must now
    /// be opened.
    pub fn begin_connect(&mut self, mock: bool) -> (open_hardware: bool)
        ensures
            open_hardware == !mock,
            final(self).mock == mock,
            final(self).motor_error is None,
            final(self).arm_error is None,
            final(self).left_speed == 0,
            final(self).right_speed == 0,
            mock ==> final(self).last_action@ == "mock hardware ready"@,
            !mock ==> final(self).last_action == old(self).last_action,
    {
        self.mock = mock;
        self.left_speed = 0;
        self.right_speed = 0;
        self.motor_error = None;
        self.arm_error = None;
        if mock {
            self.last_action = text("mock hardware ready");
            return false;
        }
        true
    }

    /// Completes a connection with what opening the motor board and the arm reported.
    pub fn finish_connect(&mut self, motor_error: Option<String>, arm_error: Option<String>)
        ensures
            final(self).motor_error == motor_error,
            final(self).arm_error == arm_error,
            final(self).last_action@ == "connect"@,
            final(self).mock == old(self).mock,
            final(self).left_speed == old(self).left_speed,
            final(self).right_speed == old(self).right_speed,
    {
        self.motor_error = motor_error;
        self.arm_error = arm_error;
        self.last_action = text("connect");
    }

    /// What the panel shows, given which devices are connected.
    pub fn snapshot(&self, motor_connected: bool, arm_connected: bool) -> (res: StatusSnapshot)
        ensures
            res.mock == self.mock,
            res.motor_connected == motor_connected,
            res.arm_connected == arm_connected,
            res.motor_error == self.motor_error,
            res.arm_error == self.arm_error,
            res.left_speed == self.left_speed,
            res.right_speed == self.right_speed,
            res.last_action == self.last_action,
    {
        StatusSnapshot {
            mock: self.mock,
            motor_connected,
            arm_connected,
            motor_error: clone_message(&self.motor_error),
            arm_error: clone_message(&self.arm_error),
            left_speed: self.left_speed,
            right_speed: self.right_speed,
            last_action: self.last_action.clone(),
        }
    }

    /// Carries out a drive request as far as the panel's own state goes: it
    /// returns what the motor board must be told (when it is connected) and the
    /// answer. A refused request changes nothing; an accepted one records the
    /// wheel speeds it sets and its action.
    pub fn apply_drive(&mut self, request: &DriveRequest, motor_connected: bool) -> (res: (
        Option<MotorOp>,
        Result<String, String>,
    ))
        requires
            drive_request_fits(*request),
        ensures
            ({
                let intent = spec_drive_intent(*request);
                let blocked = !motor_connected && !old(self).mock;
                &&& result_view(res.1) == spec_drive_result(intent, blocked)
                &&& res.1 is Err ==> res.0 is None && *final(self) == *old(self)
                &&& res.1 is Ok ==> {
                    &&& res.0 == (if motor_connected {
                        Some(intent_op(intent))
                    } else {
                        None
                    })
                    &&& (final(self).left_speed as int, final(self).right_speed as int) == intent_speeds(intent)
                    &&& final(self).last_action@ == intent_label(intent)
                    &&& final(self).mock == old(self).mock
                    &&& final(self).motor_error == old(self).motor_error
                    &&& final(self).arm_error == old(self).arm_error
                }
            }),
    {
        let blocked = !motor_connected && !self.mock;
        if request.left.is_some() && request.right.is_some() {
            let left = clamp_i32(request.left.unwrap(), -100, 100);
            let right = clamp_i32(request.right.unwrap(), -100, 100);
            if blocked {
                return (None, Err(text("motor is not connected")));
            }
            let mut message = text("drive left=");
            push_decimal(&mut message, left);
            message.append(" right=");
            push_decimal(&mut message, right);
            self.left_speed = left;
            self.right_speed = right;
            self.last_action = text("drive");
            let op = if motor_connected {
                Some(MotorOp::Drive { left, right })
            } else {
                None
            };
            return (op, Ok(message));
        }
        let action: &str = match &request.action {
            Some(a) => normalize_drive_action(a.as_str()),
            None => "stop",
        };
        let raw_speed: i32 = match request.speed {
            Some(s) => s,
            None => 50,
        };
        let magnitude: i32 = if raw_speed < 0 {
            -raw_speed
        } else {
            raw_speed
        };
        let speed = clamp_i32(magnitude, 0, 100);
        let motion = if same_text(action, "forward") {
            Some(Motion::Forward)
        } else if same_text(action, "backward") {
            Some(Motion::Backward)
        } else if same_text(action, "left") {
            Some(Motion::Left)
        } else if same_text(action, "right") {
            Some(Motion::Right)
        } else {
            None
        };
        let is_brake = same_text(action, "brake");
        let is_stop = same_text(action, "stop");
        if motion.is_none() && !is_brake && !is_stop {
            let mut message = text("unknown drive action: ");
            message.append(action);
            return (None, Err(message));
        }
        if blocked {
            return (None, Err(text("motor is not connected")));
        }
        match motion {
            Some(m) => {
                let (left, right) = motion_speeds(m, speed);
                let mut message = text(action);
                message.append(" speed=");
                push_decimal(&mut message, speed);
                self.left_speed = left;
                self.right_speed = right;
                self.last_action = text(action);
                let op = if motor_connected {
                    Some(MotorOp::Drive { left, right })
                } else {
                    None
                };
                (op, Ok(message))
            },
            None => {
                self.left_speed = 0;
                self.right_speed = 0;
                if is_brake {
                    self.last_action = text("brake");
                    (
                        if motor_connected {
                            Some(MotorOp::Brake)
                        } else {
                            None
                        },
                        Ok(text("brake")),
                    )
                } else {
                    self.last_action = text("stop");
                    (
                        if motor_connected {
                            Some(MotorOp::Standby)
                        } else {
                            None
                        },
                        Ok(text("stop")),
                    )
                }
            },
        }
    }

    /// Carries out an arm request as far as the panel's own state goes: it
    /// returns what the arm must do (when it is connected) and the answer. A
    /// refused request changes nothing; an accepted one records its message as
    /// the last action.
    pub fn apply_arm_action(&mut self, request: &ArmActionRequest, arm_connected: bool) -> (res: (
        Option<ArmOp>,
        Result<String, String>,
    ))
        ensures
            ({
                let plan = spec_arm_plan(*request, arm_connected, !arm_connected && !old(self).mock);
                &&& res.0 == plan.0
                &&& result_view(res.1) == plan.1
                &&& final(self).last_action@ == match plan.1 {
                    Ok(message) => message,
                    Err(_) => old(self).last_action@,
                }
                &&& final(self).mock == old(self).mock
                &&& final(self).motor_error == old(self).motor_error
                &&& final(self).arm_error == old(self).arm_error
                &&& final(self).left_speed == old(self).left_speed
                &&& final(self).right_speed == old(self).right_speed
            }),
    {
        let blocked = !arm_connected && !self.mock;
        let word = trim_text(request.action.as_str());
        let (op, message): (ArmOp, String) = match arm_action_kind(word) {
            ArmActionKind::Routine(routine) => {
                if blocked {
                    return (None, Err(text("arm is not connected")));
                }
                let label = match routine {
                    ArmRoutine::Grab => text("arm grab"),
                    ArmRoutine::Release => text("arm release"),
                    ArmRoutine::GrabPos => text("arm ready"),
                    ArmRoutine::ReleasePos => text("arm release_pos"),
                    ArmRoutine::Show => text("arm show"),
                };
                (ArmOp::Routine(routine), label)
            },
            ArmActionKind::SetAngle => {
                let servo_id = match request.servo_id {
                    Some(id) => id,
                    None => return (None, Err(text("servo_id is required"))),
                };
                let angle = match &request.angle_text {
                    Some(a) => a,
                    None => return (None, Err(text("angle is required"))),
                };
                let raw_time: i32 = match request.time_ms {
                    Some(t) => t,
                    None => 500,
                };
                let time_ms = clamp_i32(raw_time, 0, 10_000);
                if blocked {
                    return (None, Err(text("arm is not connected")));
                }
                let mut message = text("arm servo ");
                push_decimal(&mut message, servo_id);
                message.append(" angle ");
                message.append(angle.as_str());
                (ArmOp::SetAngle { servo_id, time_ms }, message)
            },
            ArmActionKind::TorqueOff => {
                let servo_id = match request.servo_id {
                    Some(id) => id,
                    None => return (None, Err(text("servo_id is required"))),
                };
                if blocked {
                    return (None, Err(text("arm is not connected")));
                }
                let mut message = text("arm servo ");
                push_decimal(&mut message, servo_id);
                message.append(" torque off");
                (ArmOp::TorqueOff { servo_id }, message)
            },
            ArmActionKind::TorqueOn => {
                let servo_id = match request.servo_id {
                    Some(id) => id,
                    None => return (None, Err(text("servo_id is required"))),
                };
                if blocked {
                    return (None, Err(text("arm is not connected")));
                }
                let mut message = text("arm servo ");
                push_decimal(&mut message, servo_id);
                message.append(" torque on");
                (ArmOp::TorqueOn { servo_id }, message)
            },
            ArmActionKind::Unknown => {
                let mut message = text("unknown arm action: ");
                message.append(word);
                return (None, Err(message));
            },
        };
        self.last_action = message.clone();
        (
            if arm_connected {
                Some(op)
            } else {
                None
            },
            Ok(message),
        )
    }
}

// ---------------------------------------------------------------------------
// Laws of the panel
// ---------------------------------------------------------------------------

/// Whatever drive request is accepted, the wheel speeds it leaves are within
/// `-100..=100`, and braking or stopping leaves both wheels at zero.
pub proof fn lemma_drive_speeds_bounded(request: DriveRequest)
    ensures
        ({
            let intent = spec_drive_intent(request);
            let (left, right) = intent_speeds(intent);
            &&& -100 <= left <= 100
            &&& -100 <= right <= 100
            &&& (intent is Brake || intent is Stop) ==> left == 0 && right == 0
        }),
{
}

/// What the panel reports is what the wheels were told: a drive sends exactly
/// the wheel speeds it records, and a brake or stop records both wheels at zero.
pub proof fn lemma_reported_speeds_match_motor(request: DriveRequest)
    ensures
        ({
            let intent = spec_drive_intent(request);
            match intent_op(intent) {
                MotorOp::Drive { left, right } => (left as int, right as int) == intent_speeds(intent),
                _ => intent_speeds(intent) == (0int, 0int),
            }
        }),
{
}

/// A request that names no action and no wheel speeds stops the robot.
pub proof fn lemma_default_action_stops(speed: Option<i32>, left: Option<i32>, right: Option<i32>)
    requires
        !(left is Some && right is Some),
    ensures
        spec_drive_intent(DriveRequest { action: None, speed, left, right }) is Stop,
{
    reveal_strlit("stop");
    reveal_strlit("forward");
    reveal_strlit("backward");
    reveal_strlit("left");
    reveal_strlit("right");
    reveal_strlit("brake");
    assert("stop"@[0] != "left"@[0]);
}

/// The words of the panel are different words.
proof fn lemma_panel_words_distinct()
    ensures
        "forward"@ != "reverse"@,
        "forward"@ != "standby"@,
        "reverse"@ != "standby"@,
        "down"@ != "left"@,
        "down"@ != "stop"@,
        "left"@ != "stop"@,
        "right"@ != "brake"@,
        "grab"@ != "show"@,
        "ready"@ != "angle"@,
        "set_angle"@ != "torque_on"@,
        "up"@.len() == 2,
        "forward"@.len() == 7,
        "down"@.len() == 4,
        "backward"@.len() == 8,
        "reverse"@.len() == 7,
        "left"@.len() == 4,
        "right"@.len() == 5,
        "brake"@.len() == 5,
        "stop"@.len() == 4,
        "standby"@.len() == 7,
        "grab"@.len() == 4,
        "release"@.len() == 7,
        "grab_pos"@.len() == 8,
        "ready"@.len() == 5,
        "release_pos"@.len() == 11,
        "show"@.len() == 4,
        "angle"@.len() == 5,
        "set_angle"@.len() == 9,
        "torque_off"@.len() == 10,
        "torque_on"@.len() == 9,
{
    reveal_strlit("up");
    reveal_strlit("forward");
    reveal_strlit("down");
    reveal_strlit("backward");
    reveal_strlit("reverse");
    reveal_strlit("left");
    reveal_strlit("right");
    reveal_strlit("brake");
    reveal_strlit("stop");
    reveal_strlit("standby");
    reveal_strlit("grab");
    reveal_strlit("release");
    reveal_strlit("grab_pos");
    reveal_strlit("ready");
    reveal_strlit("release_pos");
    reveal_strlit("show");
    reveal_strlit("angle");
    reveal_strlit("set_angle");
    reveal_strlit("torque_off");
    reveal_strlit("torque_on");
    assert("forward"@[0] != "reverse"@[0]);
    assert("forward"@[0] != "standby"@[0]);
    assert("reverse"@[0] != "standby"@[0]);
    assert("down"@[0] != "left"@[0]);
    assert("down"@[0] != "stop"@[0]);
    assert("left"@[0] != "stop"@[0]);
    assert("right"@[0] != "brake"@[0]);
    assert("grab"@[0] != "show"@[0]);
    assert("ready"@[0] != "angle"@[0]);
    assert("set_angle"@[0] != "torque_on"@[0]);
}

/// The speed that comes with an action is 50 when none is given; otherwise it
/// is the magnitude of the given speed, held to at most 100.
pub proof fn lemma_action_speed(speed: Option<i32>)
    ensures
        speed is None ==> spec_action_speed(speed) == 50,
        speed matches Some(s) ==> {
            &&& 0 <= s <= 100 ==> spec_action_speed(speed) == s
            &&& -100 <= s < 0 ==> spec_action_speed(speed) == -s
            &&& (s > 100 || s < -100) ==> spec_action_speed(speed) == 100
        },
        0 <= spec_action_speed(speed) <= 100,
{
}

/// How a drive request that does not give both wheel speeds is carried out,
/// by the word it names once trimmed: forward (`up`, `forward`) drives both
/// wheels ahead at the action's speed; backward (`down`, `backward`,
/// `reverse`) drives both back; `left` turns on the spot with the left wheel
/// back, `right` with the right wheel back; `brake` brakes and `stop` or
/// `standby` lets both wheels coast, and both leave the wheels at zero. Every
/// known word is answered "motor is not connected" when the motor is missing
/// outside mock mode; any other word is refused as unknown.
pub proof fn lemma_drive_request_words(request: DriveRequest, blocked: bool)
    requires
        !(request.left is Some && request.right is Some),
        request.action is Some,
    ensures
        ({
            let w = spec_trim(request.action->0@);
            let sp = spec_action_speed(request.speed) as int;
            let intent = spec_drive_intent(request);
            let known = w == "up"@ || w == "forward"@ || w == "down"@ || w == "backward"@ || w == "reverse"@
                || w == "left"@ || w == "right"@ || w == "brake"@ || w == "stop"@ || w == "standby"@;
            &&& (w == "up"@ || w == "forward"@) ==> {
                &&& intent_op(intent) == MotorOp::Drive { left: sp as i32, right: sp as i32 }
                &&& intent_speeds(intent) == (sp, sp)
                &&& intent_label(intent) == "forward"@
                &&& !blocked ==> spec_drive_result(intent, blocked) == Ok::<Seq<char>, Seq<char>>(
                    "forward"@ + " speed="@ + spec_decimal(sp),
                )
            }
            &&& (w == "down"@ || w == "backward"@ || w == "reverse"@) ==> {
                &&& intent_op(intent) == MotorOp::Drive { left: (-sp) as i32, right: (-sp) as i32 }
                &&& intent_speeds(intent) == (-sp, -sp)
                &&& intent_label(intent) == "backward"@
                &&& !blocked ==> spec_drive_result(intent, blocked) == Ok::<Seq<char>, Seq<char>>(
                    "backward"@ + " speed="@ + spec_decimal(sp),
                )
            }
            &&& w == "left"@ ==> {
                &&& intent_op(intent) == MotorOp::Drive { left: (-sp) as i32, right: sp as i32 }
                &&& intent_speeds(intent) == (-sp, sp)
                &&& intent_label(intent) == "left"@
                &&& !blocked ==> spec_drive_result(intent, blocked) == Ok::<Seq<char>, Seq<char>>(
                    "left"@ + " speed="@ + spec_decimal(sp),
                )
            }
            &&& w == "right"@ ==> {
                &&& intent_op(intent) == MotorOp::Drive { left: sp as i32, right: (-sp) as i32 }
                &&& intent_speeds(intent) == (sp, -sp)
                &&& intent_label(intent) == "right"@
                &&& !blocked ==> spec_drive_result(intent, blocked) == Ok::<Seq<char>, Seq<char>>(
                    "right"@ + " speed="@ + spec_decimal(sp),
                )
            }
            &&& w == "brake"@ ==> {
                &&& intent_op(intent) == MotorOp::Brake
                &&& intent_speeds(intent) == (0int, 0int)
                &&& intent_label(intent) == "brake"@
                &&& !blocked ==> spec_drive_result(intent, blocked) == Ok::<Seq<char>, Seq<char>>("brake"@)
            }
            &&& (w == "stop"@ || w == "standby"@) ==> {
                &&& intent is Stop
                &&& intent_op(intent) == MotorOp::Standby
                &&& intent_speeds(intent) == (0int, 0int)
                &&& intent_label(intent) == "stop"@
                &&& !blocked ==> spec_drive_result(intent, blocked) == Ok::<Seq<char>, Seq<char>>("stop"@)
            }
            &&& known && blocked ==> spec_drive_result(intent, blocked) == Err::<Seq<char>, Seq<char>>(
                "motor is not connected"@,
            )
            &&& !known ==> spec_drive_result(intent, blocked) == Err::<Seq<char>, Seq<char>>(
                "unknown drive action: "@ + w,
            )
        }),
{
    reveal_strlit("up");
    reveal_strlit("forward");
    reveal_strlit("down");
    reveal_strlit("backward");
    reveal_strlit("reverse");
    reveal_strlit("left");
    reveal_strlit("right");
    reveal_strlit("brake");
    reveal_strlit("stop");
    reveal_strlit("standby");
    lemma_panel_words_distinct();
    lemma_action_speed(request.speed);
    let w = spec_trim(request.action->0@);
    let c = spec_request_action(request.action);
    assert(c == spec_canonical_action(w));
    if w == "up"@ || w == "forward"@ {
        assert(c == "forward"@);
    } else if w == "down"@ || w == "backward"@ || w == "reverse"@ {
        assert(c == "backward"@);
        assert(c != "forward"@);
    } else if w == "left"@ {
        assert(c == "left"@);
        assert(c != "forward"@ && c != "backward"@);
    } else if w == "right"@ {
        assert(c == "right"@);
        assert(c != "forward"@ && c != "backward"@ && c != "left"@);
    } else if w == "brake"@ {
        assert(c == "brake"@);
        assert(c != "forward"@ && c != "backward"@ && c != "left"@ && c != "right"@);
    } else if w == "stop"@ || w == "standby"@ {
        assert(c == "stop"@);
        assert(c != "forward"@ && c != "backward"@ && c != "left"@ && c != "right"@ && c != "brake"@);
    } else {
        assert(c == w);
    }
}

/// A request that gives both wheel speeds drives each wheel at its own speed,
/// held to `-100..=100`, whatever action it also names.
pub proof fn lemma_manual_drive(request: DriveRequest, blocked: bool)
    requires
        request.left is Some && request.right is Some,
    ensures
        ({
            let l = request.left->0 as int;
            let r = request.right->0 as int;
            let cl = if l < -100 { -100 } else if l > 100 { 100 } else { l };
            let cr = if r < -100 { -100 } else if r > 100 { 100 } else { r };
            let intent = spec_drive_intent(request);
            &&& intent_op(intent) == MotorOp::Drive { left: cl as i32, right: cr as i32 }
            &&& intent_speeds(intent) == (cl, cr)
            &&& intent_label(intent) == "drive"@
            &&& !blocked ==> spec_drive_result(intent, blocked) == Ok::<Seq<char>, Seq<char>>(
                "drive left="@ + spec_decimal(cl) + " right="@ + spec_decimal(cr),
            )
            &&& blocked ==> spec_drive_result(intent, blocked) == Err::<Seq<char>, Seq<char>>(
                "motor is not connected"@,
            )
        }),
{
}

/// How an arm request is carried out, by the word it names once trimmed: each
/// routine word plays its own routine (`grab`, `release`, `grab_pos` or
/// `ready`, `release_pos`, `show`) and is answered with its label; `angle` or
/// `set_angle` moves the given servo within the asked time (500 ms when none,
/// held to `0..=10000`); `torque_off` and `torque_on` act on the given servo.
/// A missing servo, then a missing angle, is reported before a missing arm; a
/// missing arm outside mock mode refuses every known word; any other word is
/// refused as unknown. The arm is only told to act when it is connected.
pub proof fn lemma_arm_request_words(request: ArmActionRequest, arm_connected: bool, mock: bool)
    ensures
        ({
            let w = spec_trim(request.action@);
            let blocked = !arm_connected && !mock;
            let plan = spec_arm_plan(request, arm_connected, blocked);
            let routine_word = w == "grab"@ || w == "release"@ || w == "grab_pos"@ || w == "ready"@
                || w == "release_pos"@ || w == "show"@;
            let servo_word = w == "angle"@ || w == "set_angle"@ || w == "torque_off"@ || w == "torque_on"@;
            let not_connected = (None::<ArmOp>, Err::<Seq<char>, Seq<char>>("arm is not connected"@));
            &&& w == "grab"@ && !blocked ==> plan.1 == Ok::<Seq<char>, Seq<char>>("arm grab"@) && (arm_connected
                ==> plan.0 == Some(ArmOp::Routine(ArmRoutine::Grab)))
            &&& w == "release"@ && !blocked ==> plan.1 == Ok::<Seq<char>, Seq<char>>("arm release"@) && (
            arm_connected ==> plan.0 == Some(ArmOp::Routine(ArmRoutine::Release)))
            &&& (w == "grab_pos"@ || w == "ready"@) && !blocked ==> plan.1 == Ok::<Seq<char>, Seq<char>>(
                "arm ready"@,
            ) && (arm_connected ==> plan.0 == Some(ArmOp::Routine(ArmRoutine::GrabPos)))
            &&& w == "release_pos"@ && !blocked ==> plan.1 == Ok::<Seq<char>, Seq<char>>("arm release_pos"@)
                && (arm_connected ==> plan.0 == Some(ArmOp::Routine(ArmRoutine::ReleasePos)))
            &&& w == "show"@ && !blocked ==> plan.1 == Ok::<Seq<char>, Seq<char>>("arm show"@) && (arm_connected
                ==> plan.0 == Some(ArmOp::Routine(ArmRoutine::Show)))
            &&& routine_word && blocked ==> plan == not_connected
            &&& servo_word && request.servo_id is None ==> plan == (
                None::<ArmOp>,
                Err::<Seq<char>, Seq<char>>("servo_id is required"@),
            )
            &&& (w == "angle"@ || w == "set_angle"@) && request.servo_id is Some ==> {
                let id = request.servo_id->0;
                let t = match request.time_ms {
                    Some(t) => t as int,
                    None => 500,
                };
                let time = if t < 0 { 0 } else if t > 10_000 { 10_000 } else { t };
                &&& request.angle_text is None ==> plan == (
                    None::<ArmOp>,
                    Err::<Seq<char>, Seq<char>>("angle is required"@),
                )
                &&& request.angle_text is Some && blocked ==> plan == not_connected
                &&& request.angle_text is Some && !blocked ==> {
                    &&& plan.1 == Ok::<Seq<char>, Seq<char>>(
                        "arm servo "@ + spec_decimal(id as int) + " angle "@ + request.angle_text->0@,
                    )
                    &&& arm_connected ==> plan.0 == Some(ArmOp::SetAngle { servo_id: id, time_ms: time as i32 })
                }
            }
            &&& w == "torque_off"@ && request.servo_id is Some ==> {
                let id = request.servo_id->0;
                &&& blocked ==> plan == not_connected
                &&& !blocked ==> plan.1 == Ok::<Seq<char>, Seq<char>>(
                    "arm servo "@ + spec_decimal(id as int) + " torque off"@,
                )
                &&& !blocked && arm_connected ==> plan.0 == Some(ArmOp::TorqueOff { servo_id: id })
            }
            &&& w == "torque_on"@ && request.servo_id is Some ==> {
                let id = request.servo_id->0;
                &&& blocked ==> plan == not_connected
                &&& !blocked ==> plan.1 == Ok::<Seq<char>, Seq<char>>(
                    "arm servo "@ + spec_decimal(id as int) + " torque on"@,
                )
                &&& !blocked && arm_connected ==> plan.0 == Some(ArmOp::TorqueOn { servo_id: id })
            }
            &&& !routine_word && !servo_word ==> plan == (
                None::<ArmOp>,
                Err::<Seq<char>, Seq<char>>("unknown arm action: "@ + w),
            )
            &&& !arm_connected ==> plan.0 is None
        }),
{
    reveal_strlit("grab");
    reveal_strlit("release");
    reveal_strlit("grab_pos");
    reveal_strlit("ready");
    reveal_strlit("release_pos");
    reveal_strlit("show");
    reveal_strlit("angle");
    reveal_strlit("set_angle");
    reveal_strlit("torque_off");
    reveal_strlit("torque_on");
    lemma_panel_words_distinct();
}

/// An accepted arm request plays exactly the routine its word names, and is
/// answered with that routine's label.
pub proof fn lemma_arm_plays_named_routine(request: ArmActionRequest, routine: ArmRoutine)
    requires
        spec_arm_action_kind(spec_trim(request.action@)) == ArmActionKind::Routine(routine),
    ensures
        spec_arm_plan(request, true, false) == (
            Some(ArmOp::Routine(routine)),
            Ok::<Seq<char>, Seq<char>>(routine_label(routine)),
        ),
{
}

/// The hardware counts as ready in mock mode whatever is connected, and
/// otherwise exactly when both the motor board and the arm are connected.
pub proof fn lemma_hardware_ready(mock: bool, motor_connected: bool, arm_connected: bool)
    ensures
        mock ==> spec_hardware_ready(mock, motor_connected, arm_connected),
        !mock ==> (spec_hardware_ready(mock, motor_connected, arm_connected) <==> (motor_connected
            && arm_connected)),
{
}

} // verus!
