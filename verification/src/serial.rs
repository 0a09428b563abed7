//! Serial line policy: which line speed a baud rate selects, the raw mode the
//! lines are put in, and when a byte read with a deadline stops trying.

use vstd::prelude::*;
use crate::linux::{
    speed_t, tcflag_t, Termios, B115200, B230400, B57600, B9600, BRKINT, CLOCAL, CREAD, CRTSCTS, CS8,
    CSIZE, CSTOPB, ICRNL, IGNBRK, IGNCR, INLCR, ISTRIP, IXANY, IXOFF, IXON, OPOST, PARENB, PARMRK,
    PARODD, VMIN, VTIME,
};

verus! {

/// The line speed for a baud rate; rates the driver does not offer get 115200.
pub open spec fn spec_baud_to_speed(baudrate: int) -> speed_t {
    if baudrate == 9600 {
        B9600
    } else if baudrate == 57600 {
        B57600
    } else if baudrate == 230400 {
        B230400
    } else {
        B115200
    }
}

pub fn baud_to_speed(baudrate: i32) -> (res: speed_t)
    ensures
        res == spec_baud_to_speed(baudrate as int),
{
    match baudrate {
        9600 => B9600,
        57600 => B57600,
        230400 => B230400,
        _ => B115200,
    }
}

/// Control flags of a raw line: no parity, one stop bit, eight data bits, no
/// hardware flow control, the receiver on and the modem lines ignored; the
/// other bits (the speed among them) kept.
pub open spec fn raw_cflag(c: tcflag_t) -> tcflag_t {
    (c & !(PARENB | PARODD | CSTOPB | CSIZE | CRTSCTS)) | CS8 | CLOCAL | CREAD
}

/// Input flags of a raw line: no software flow control, no break or parity
/// marking, no stripping and no translation of carriage returns and newlines.
pub open spec fn raw_iflag(i: tcflag_t) -> tcflag_t {
    i & !(IXON | IXOFF | IXANY | IGNBRK | BRKINT | PARMRK | ISTRIP | INLCR | IGNCR | ICRNL)
}

/// Puts the settings of a line in raw mode: bytes pass unchanged both ways, no
/// local processing, and a read returns at once with whatever is there.
pub fn make_raw(tty: Termios) -> (res: Termios)
    ensures
        res.c_cflag == raw_cflag(tty.c_cflag),
        res.c_iflag == raw_iflag(tty.c_iflag),
        res.c_oflag == tty.c_oflag & !OPOST,
        res.c_lflag == 0,
        res.c_cc@ == tty.c_cc@.update(VMIN as int, 0u8).update(VTIME as int, 0u8),
        res.c_line == tty.c_line,
        res.c_ispeed == tty.c_ispeed,
        res.c_ospeed == tty.c_ospeed,
{
    let mut tty = tty;
    let c0 = tty.c_cflag;
    tty.c_cflag = tty.c_cflag & !PARENB;
    tty.c_cflag = tty.c_cflag & !PARODD;
    tty.c_cflag = tty.c_cflag & !CSTOPB;
    tty.c_cflag = tty.c_cflag & !CSIZE;
    tty.c_cflag = tty.c_cflag | CS8;
    tty.c_cflag = tty.c_cflag & !CRTSCTS;
    tty.c_cflag = tty.c_cflag | CLOCAL | CREAD;
    assert(((((((((c0 & !0o0000400u32) & !0o0001000u32) & !0o0000100u32) & !0o0000060u32) | 0o0000060u32)
        & !0o20000000000u32) | 0o0004000u32) | 0o0000200u32) == (c0 & !(0o0000400u32 | 0o0001000u32
        | 0o0000100u32 | 0o0000060u32 | 0o20000000000u32)) | 0o0000060u32 | 0o0004000u32 | 0o0000200u32)
        by (bit_vector);
    tty.c_iflag = tty.c_iflag & !(IXON | IXOFF | IXANY | IGNBRK | BRKINT | PARMRK | ISTRIP | INLCR
        | IGNCR | ICRNL);
    tty.c_oflag = tty.c_oflag & !OPOST;
    tty.c_lflag = 0;
    tty.c_cc[VMIN] = 0;
    tty.c_cc[VTIME] = 0;
    tty
}

/// Putting a line in raw mode twice is putting it in raw mode once: the control
/// and input flags of a raw line are already raw.
pub proof fn lemma_raw_mode_idempotent(cflag: tcflag_t, iflag: tcflag_t)
    ensures
        raw_cflag(raw_cflag(cflag)) == raw_cflag(cflag),
        raw_iflag(raw_iflag(iflag)) == raw_iflag(iflag),
{
    assert(((((cflag & !(0o0000400u32 | 0o0001000u32 | 0o0000100u32 | 0o0000060u32 | 0o20000000000u32))
        | 0o0000060u32 | 0o0004000u32 | 0o0000200u32) & !(0o0000400u32 | 0o0001000u32 | 0o0000100u32
        | 0o0000060u32 | 0o20000000000u32)) | 0o0000060u32 | 0o0004000u32 | 0o0000200u32) == (cflag & !(
    0o0000400u32 | 0o0001000u32 | 0o0000100u32 | 0o0000060u32 | 0o20000000000u32)) | 0o0000060u32
        | 0o0004000u32 | 0o0000200u32) by (bit_vector);
    let mask = IXON | IXOFF | IXANY | IGNBRK | BRKINT | PARMRK | ISTRIP | INLCR | IGNCR | ICRNL;
    assert((iflag & !mask) & !mask == iflag & !mask) by (bit_vector);
}

/// How one attempt to read a byte came out.
#[derive(Clone, Copy, Debug, PartialEq, Eq, Structural)]
pub enum ReadOutcome {
    /// A byte came.
    Byte(u8),
    /// The read returned without a byte.
    Empty,
    /// The read was interrupted by a signal.
    Interrupted,
    /// Nothing was there to read yet.
    WouldBlock,
    /// The read failed for another reason.
    Failed,
}

/// What to do after an attempt to read a byte.
#[derive(Clone, Copy, Debug, PartialEq, Eq, Structural)]
pub enum PollStep {
    /// Return the byte.
    Got(u8),
    /// Return the read's error.
    Fail,
    /// Return with no byte: the deadline has passed.
    TimedOut,
    /// Pause briefly and read again.
    Retry,
}

/// A byte is returned at once and a real error ends the wait; an empty,
/// interrupted or not-yet-ready read tries again until the deadline has passed.
pub open spec fn spec_poll_step(outcome: ReadOutcome, deadline_passed: bool) -> PollStep {
    match outcome {
        ReadOutcome::Byte(b) => PollStep::Got(b),
        ReadOutcome::Failed => PollStep::Fail,
        _ => if deadline_passed {
            PollStep::TimedOut
        } else {
            PollStep::Retry
        },
    }
}

pub fn poll_step(outcome: ReadOutcome, deadline_passed: bool) -> (res: PollStep)
    ensures
        res == spec_poll_step(outcome, deadline_passed),
{
    match outcome {
        ReadOutcome::Byte(b) => PollStep::Got(b),
        ReadOutcome::Failed => PollStep::Fail,
        _ => {
            if deadline_passed {
                PollStep::TimedOut
            } else {
                PollStep::Retry
            }
        },
    }
}

/// A read that brings no byte and no real error never ends the wait early: it
/// is tried again until the deadline has passed, and only then does the wait
/// end without a byte. A byte ends the wait with that byte, and a real error
/// ends it with the error, whether or not the deadline has passed.
pub proof fn lemma_poll_waits_for_deadline(outcome: ReadOutcome, deadline_passed: bool)
    ensures
        outcome is Empty || outcome is Interrupted || outcome is WouldBlock ==> {
            &&& !deadline_passed ==> spec_poll_step(outcome, deadline_passed) == PollStep::Retry
            &&& deadline_passed ==> spec_poll_step(outcome, deadline_passed) == PollStep::TimedOut
        },
        outcome matches ReadOutcome::Byte(b) ==> spec_poll_step(outcome, deadline_passed) == PollStep::Got(b),
        outcome is Failed ==> spec_poll_step(outcome, deadline_passed) == PollStep::Fail,
        spec_poll_step(outcome, deadline_passed) is TimedOut ==> deadline_passed,
{
}

/// The line speeds chosen for the supported baud rates are those rates, and
/// any other rate runs the line at 115200 baud.
pub proof fn lemma_baud_rates(baudrate: int)
    ensures
        baudrate == 9600 ==> spec_baud_to_speed(baudrate) == B9600,
        baudrate == 57600 ==> spec_baud_to_speed(baudrate) == B57600,
        baudrate == 230400 ==> spec_baud_to_speed(baudrate) == B230400,
        baudrate != 9600 && baudrate != 57600 && baudrate != 230400 ==> spec_baud_to_speed(baudrate)
            == B115200,
{
}

/// A raw line has no parity (neither enabled nor odd), one stop bit, eight
/// data bits, no hardware flow control, the receiver on and the modem lines
/// ignored; every other control bit is kept. Its input side has every
/// processing flag off (software flow control, break and parity handling,
/// stripping, carriage return and newline translation) and every other input
/// bit kept.
pub proof fn lemma_raw_flags(cflag: tcflag_t, iflag: tcflag_t)
    ensures
        raw_cflag(cflag) & PARENB == 0,
        raw_cflag(cflag) & PARODD == 0,
        raw_cflag(cflag) & CSTOPB == 0,
        raw_cflag(cflag) & CSIZE == CS8,
        raw_cflag(cflag) & CRTSCTS == 0,
        raw_cflag(cflag) & CLOCAL == CLOCAL,
        raw_cflag(cflag) & CREAD == CREAD,
        raw_cflag(cflag) & !(PARENB | PARODD | CSTOPB | CSIZE | CRTSCTS | CLOCAL | CREAD) == cflag & !(
        PARENB | PARODD | CSTOPB | CSIZE | CRTSCTS | CLOCAL | CREAD),
        raw_iflag(iflag) & (IXON | IXOFF | IXANY | IGNBRK | BRKINT | PARMRK | ISTRIP | INLCR | IGNCR
            | ICRNL) == 0,
        raw_iflag(iflag) & !(IXON | IXOFF | IXANY | IGNBRK | BRKINT | PARMRK | ISTRIP | INLCR | IGNCR
            | ICRNL) == iflag & !(IXON | IXOFF | IXANY | IGNBRK | BRKINT | PARMRK | ISTRIP | INLCR | IGNCR
            | ICRNL),
{
    let c = raw_cflag(cflag);
    assert(c == (cflag & !(0o0000400u32 | 0o0001000u32 | 0o0000100u32 | 0o0000060u32 | 0o20000000000u32))
        | 0o0000060u32 | 0o0004000u32 | 0o0000200u32);
    assert({
        let r = (cflag & !(0o0000400u32 | 0o0001000u32 | 0o0000100u32 | 0o0000060u32 | 0o20000000000u32))
            | 0o0000060u32 | 0o0004000u32 | 0o0000200u32;
        &&& r & 0o0000400u32 == 0
        &&& r & 0o0001000u32 == 0
        &&& r & 0o0000100u32 == 0
        &&& r & 0o0000060u32 == 0o0000060u32
        &&& r & 0o20000000000u32 == 0
        &&& r & 0o0004000u32 == 0o0004000u32
        &&& r & 0o0000200u32 == 0o0000200u32
        &&& r & !(0o0000400u32 | 0o0001000u32 | 0o0000100u32 | 0o0000060u32 | 0o20000000000u32 | 0o0004000u32
            | 0o0000200u32) == cflag & !(0o0000400u32 | 0o0001000u32 | 0o0000100u32 | 0o0000060u32
            | 0o20000000000u32 | 0o0004000u32 | 0o0000200u32)
    }) by (bit_vector);
    let mask = IXON | IXOFF | IXANY | IGNBRK | BRKINT | PARMRK | ISTRIP | INLCR | IGNCR | ICRNL;
    assert((iflag & !mask) & mask == 0 && (iflag & !mask) & !mask == iflag & !mask) by (bit_vector);
}

} // verus!
