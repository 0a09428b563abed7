//! The servo arm: the text commands its controller board understands, and the
//! fixed routines (grab, release, show ...) as sequences of moves and pauses.

use vstd::prelude::*;
use crate::text::{push_char, push_decimal, push_zero_padded, spec_decimal, spec_zero_padded};

verus! {

/// Largest angle a servo is driven to, in degrees.
pub const ANGLE_MAX_DEG: u16 = 270;
/// Pulse width, in microseconds, at 0 degrees.
pub const PULSE_MIN: i32 = 500;
/// Pulse width, in microseconds, at `ANGLE_MAX_DEG`.
pub const PULSE_MAX: i32 = 2500;

/// Gripper (servo 2) open.
pub const ID2_ANGLE_OPEN: u16 = 110;
/// Gripper (servo 2) closed.
pub const ID2_ANGLE_CLOSE: u16 = 50;
pub const SERVO0_READY: u16 = 150;
pub const SERVO1_READY: u16 = 100;
pub const SERVO0_GRAB: u16 = 225;
pub const SERVO1_GRAB: u16 = 60;
pub const SERVO0_LIFT: u16 = 150;
pub const SERVO1_LIFT: u16 = 100;
/// How long each move of a routine takes, in milliseconds.
pub const ROUTINE_MOVE_MS: i32 = 1000;

/// The command that moves servo `servo_id` to the pulse width `pulse` within
/// `time_ms` milliseconds: `#` and the servo in three digits, `P` and the
/// pulse in four digits, `T` and the time, then `!`.
pub open spec fn spec_move_command(servo_id: int, pulse: int, time_ms: int) -> Seq<char> {
    seq!['#'] + spec_zero_padded(servo_id, 3) + seq!['P'] + spec_zero_padded(pulse, 4) + seq!['T']
        + spec_decimal(time_ms) + seq!['!']
}

/// The command that lets servo `servo_id` go limp (`PULK`) or holds it again (`PULR`).
pub open spec fn spec_torque_command(servo_id: int, restore: bool) -> Seq<char> {
    seq!['#'] + spec_zero_padded(servo_id, 3) + if restore {
        seq!['P', 'U', 'L', 'R']
    } else {
        seq!['P', 'U', 'L', 'K']
    }
}

pub fn servo_move_command(servo_id: i32, pulse: i32, time_ms: i32) -> (res: String)
    ensures
        res@ == spec_move_command(servo_id as int, pulse as int, time_ms as int),
{
    let mut s = String::new();
    push_char(&mut s, '#');
    push_zero_padded(&mut s, servo_id, 3);
    push_char(&mut s, 'P');
    push_zero_padded(&mut s, pulse, 4);
    push_char(&mut s, 'T');
    push_decimal(&mut s, time_ms);
    push_char(&mut s, '!');
    assert(s@ =~= spec_move_command(servo_id as int, pulse as int, time_ms as int));
    s
}

fn torque_command(servo_id: i32, restore: bool) -> (res: String)
    ensures
        res@ == spec_torque_command(servo_id as int, restore),
{
    let mut s = String::new();
    push_char(&mut s, '#');
    push_zero_padded(&mut s, servo_id, 3);
    push_char(&mut s, 'P');
    push_char(&mut s, 'U');
    push_char(&mut s, 'L');
    push_char(
        &mut s,
        if restore {
            'R'
        } else {
            'K'
        },
    );
    assert(s@ =~= spec_torque_command(servo_id as int, restore));
    s
}

/// The command that releases the torque of servo `servo_id`.
pub fn torque_release_command(servo_id: i32) -> (res: String)
    ensures
        res@ == spec_torque_command(servo_id as int, false),
{
    torque_command(servo_id, false)
}

/// The command that restores the torque of servo `servo_id`.
pub fn torque_restore_command(servo_id: i32) -> (res: String)
    ensures
        res@ == spec_torque_command(servo_id as int, true),
{
    torque_command(servo_id, true)
}

/// A pulse width held within what the servos accept.
pub fn clamp_pulse(pulse: i32) -> (res: i32)
    ensures
        res == if pulse < PULSE_MIN {
            PULSE_MIN
        } else if pulse > PULSE_MAX {
            PULSE_MAX
        } else {
            pulse
        },
{
    if pulse < PULSE_MIN {
        PULSE_MIN
    } else if pulse > PULSE_MAX {
        PULSE_MAX
    } else {
        pulse
    }
}

/// A fixed motion of the whole arm.
#[derive(Clone, Copy, Debug, PartialEq, Eq, Structural)]
pub enum ArmRoutine {
    /// Reach down, open, close on the object and lift it.
    Grab,
    /// Reach down with the gripper open.
    ReleasePos,
    /// Open the gripper.
    Release,
    /// Stand ready with the gripper open.
    GrabPos,
    /// Hold the object up, gripper closed.
    Show,
}

/// One step of a routine.
#[derive(Clone, Copy, Debug, PartialEq, Eq, Structural)]
pub enum ArmStep {
    /// Move a servo to an angle in degrees, taking `time_ms` milliseconds.
    Move { servo_id: i32, angle_deg: u16, time_ms: i32 },
    /// Wait before the next step.
    Pause { ms: u64 },
}

pub open spec fn move_to(servo_id: i32, angle_deg: u16) -> ArmStep {
    ArmStep::Move { servo_id, angle_deg, time_ms: ROUTINE_MOVE_MS }
}

/// The steps of each routine, in order.
pub open spec fn spec_routine_steps(routine: ArmRoutine) -> Seq<ArmStep> {
    match routine {
        ArmRoutine::Grab => seq![
            move_to(0, SERVO0_GRAB),
            move_to(1, SERVO1_GRAB),
            move_to(2, ID2_ANGLE_OPEN),
            ArmStep::Pause { ms: 1500 },
            move_to(2, ID2_ANGLE_CLOSE),
            ArmStep::Pause { ms: 1000 },
            move_to(0, SERVO0_LIFT),
            move_to(1, SERVO1_LIFT),
            ArmStep::Pause { ms: 1200 },
        ],
        ArmRoutine::ReleasePos => seq![
            move_to(0, SERVO0_GRAB),
            move_to(1, SERVO1_GRAB),
            move_to(2, ID2_ANGLE_OPEN),
        ],
        ArmRoutine::Release => seq![move_to(2, ID2_ANGLE_OPEN)],
        ArmRoutine::GrabPos => seq![
            move_to(0, SERVO0_READY),
            move_to(1, SERVO1_READY),
            move_to(2, ID2_ANGLE_OPEN),
        ],
        ArmRoutine::Show => seq![
            move_to(0, SERVO0_LIFT),
            move_to(1, SERVO1_LIFT),
            move_to(2, ID2_ANGLE_CLOSE),
        ],
    }
}

fn step_move(servo_id: i32, angle_deg: u16) -> (res: ArmStep)
    ensures
        res == move_to(servo_id, angle_deg),
{
    ArmStep::Move { servo_id, angle_deg, time_ms: ROUTINE_MOVE_MS }
}

pub fn routine_steps(routine: ArmRoutine) -> (res: Vec<ArmStep>)
    ensures
        res@ == spec_routine_steps(routine),
{
    let res = match routine {
        ArmRoutine::Grab => vec![
            step_move(0, SERVO0_GRAB),
            step_move(1, SERVO1_GRAB),
            step_move(2, ID2_ANGLE_OPEN),
            ArmStep::Pause { ms: 1500 },
            step_move(2, ID2_ANGLE_CLOSE),
            ArmStep::Pause { ms: 1000 },
            step_move(0, SERVO0_LIFT),
            step_move(1, SERVO1_LIFT),
            ArmStep::Pause { ms: 1200 },
        ],
        ArmRoutine::ReleasePos => vec![
            step_move(0, SERVO0_GRAB),
            step_move(1, SERVO1_GRAB),
            step_move(2, ID2_ANGLE_OPEN),
        ],
        ArmRoutine::Release => vec![step_move(2, ID2_ANGLE_OPEN)],
        ArmRoutine::GrabPos => vec![
            step_move(0, SERVO0_READY),
            step_move(1, SERVO1_READY),
            step_move(2, ID2_ANGLE_OPEN),
        ],
        ArmRoutine::Show => vec![
            step_move(0, SERVO0_LIFT),
            step_move(1, SERVO1_LIFT),
            step_move(2, ID2_ANGLE_CLOSE),
        ],
    };
    assert(res@ =~= spec_routine_steps(routine));
    res
}

/// Every routine only moves the three servos, each within its angle range,
/// and every routine that leaves the gripper open or closed ends that way:
/// the ready, release and release-position routines leave it open, grab and
/// show leave it closed.
pub proof fn lemma_routines_in_range(routine: ArmRoutine)
    ensures
        forall|i: int|
            0 <= i < spec_routine_steps(routine).len() ==> match #[trigger] spec_routine_steps(routine)[i] {
                ArmStep::Move { servo_id, angle_deg, time_ms } => 0 <= servo_id <= 2 && angle_deg <= ANGLE_MAX_DEG
                    && time_ms == ROUTINE_MOVE_MS,
                ArmStep::Pause { .. } => true,
            },
        gripper_after(spec_routine_steps(routine)) == Some(
            if routine == ArmRoutine::Grab || routine == ArmRoutine::Show {
                ID2_ANGLE_CLOSE
            } else {
                ID2_ANGLE_OPEN
            },
        ),
{
    reveal_with_fuel(gripper_after, 10);
}

/// The last angle the gripper (servo 2) is sent to in `steps`, if any.
pub open spec fn gripper_after(steps: Seq<ArmStep>) -> Option<u16>
    decreases steps.len(),
{
    if steps.len() == 0 {
        None
    } else {
        match steps.last() {
            ArmStep::Move { servo_id, angle_deg, .. } => if servo_id == 2 {
                Some(angle_deg)
            } else {
                gripper_after(steps.drop_last())
            },
            ArmStep::Pause { .. } => gripper_after(steps.drop_last()),
        }
    }
}

/// The last angle that servo `servo_id` is sent to in `steps`, if any.
pub open spec fn last_angle(steps: Seq<ArmStep>, servo_id: i32) -> Option<u16>
    decreases steps.len(),
{
    if steps.len() == 0 {
        None
    } else {
        match steps.last() {
            ArmStep::Move { servo_id: s, angle_deg, .. } => if s == servo_id {
                Some(angle_deg)
            } else {
                last_angle(steps.drop_last(), servo_id)
            },
            ArmStep::Pause { .. } => last_angle(steps.drop_last(), servo_id),
        }
    }
}

/// Each routine leaves the arm in the pose it names: grab lifts the object
/// (base and shoulder at the lift angles, gripper closed); show holds it up the
/// same way; ready stands at the ready angles with the gripper open; the
/// release position reaches down to the grab angles with the gripper open; and
/// release only opens the gripper, leaving base and shoulder where they were.
/// Grab also closes the gripper only after opening it and pausing.
pub proof fn lemma_routine_final_poses()
    ensures
        last_angle(spec_routine_steps(ArmRoutine::Grab), 0) == Some(150u16),
        last_angle(spec_routine_steps(ArmRoutine::Grab), 1) == Some(100u16),
        last_angle(spec_routine_steps(ArmRoutine::Grab), 2) == Some(50u16),
        last_angle(spec_routine_steps(ArmRoutine::Show), 0) == Some(150u16),
        last_angle(spec_routine_steps(ArmRoutine::Show), 1) == Some(100u16),
        last_angle(spec_routine_steps(ArmRoutine::Show), 2) == Some(50u16),
        last_angle(spec_routine_steps(ArmRoutine::GrabPos), 0) == Some(150u16),
        last_angle(spec_routine_steps(ArmRoutine::GrabPos), 1) == Some(100u16),
        last_angle(spec_routine_steps(ArmRoutine::GrabPos), 2) == Some(110u16),
        last_angle(spec_routine_steps(ArmRoutine::ReleasePos), 0) == Some(225u16),
        last_angle(spec_routine_steps(ArmRoutine::ReleasePos), 1) == Some(60u16),
        last_angle(spec_routine_steps(ArmRoutine::ReleasePos), 2) == Some(110u16),
        last_angle(spec_routine_steps(ArmRoutine::Release), 0) == None::<u16>,
        last_angle(spec_routine_steps(ArmRoutine::Release), 1) == None::<u16>,
        last_angle(spec_routine_steps(ArmRoutine::Release), 2) == Some(110u16),
        last_angle(spec_routine_steps(ArmRoutine::Grab).take(4), 2) == Some(110u16),
        spec_routine_steps(ArmRoutine::Grab)[3] is Pause,
        spec_routine_steps(ArmRoutine::Grab)[4] == (ArmStep::Move { servo_id: 2, angle_deg: 50, time_ms: 1000 }),
{
    reveal_with_fuel(last_angle, 10);
    let grab = spec_routine_steps(ArmRoutine::Grab);
    assert(grab.take(4).drop_last() =~= grab.take(3));
    assert(grab.take(3).drop_last() =~= grab.take(2));
}

} // verus!
