//! Terminal settings of the Linux serial driver: the `termios` record and the
//! flag and speed values that this controller uses.

#![allow(non_camel_case_types)]

use vstd::prelude::*;

verus! {

pub type tcflag_t = u32;
pub type cc_t = u8;
pub type speed_t = u32;

pub const O_NOCTTY: i32 = 0o400;
pub const O_NONBLOCK: i32 = 0o4000;

/// Number of control characters in a `termios` record.
pub const NCCS: usize = 32;
/// Index of the read timeout among the control characters.
pub const VTIME: usize = 5;
/// Index of the minimum read count among the control characters.
pub const VMIN: usize = 6;

pub const B9600: speed_t = 0o0000015;
pub const B57600: speed_t = 0o0010001;
pub const B115200: speed_t = 0o0010002;
pub const B230400: speed_t = 0o0010003;

pub const IGNBRK: tcflag_t = 0o0000001;
pub const BRKINT: tcflag_t = 0o0000002;
pub const PARMRK: tcflag_t = 0o0000010;
pub const ISTRIP: tcflag_t = 0o0000040;
pub const INLCR: tcflag_t = 0o0000100;
pub const IGNCR: tcflag_t = 0o0000200;
pub const ICRNL: tcflag_t = 0o0000400;
pub const IXON: tcflag_t = 0o0002000;
pub const IXOFF: tcflag_t = 0o0010000;
pub const IXANY: tcflag_t = 0o0004000;

pub const OPOST: tcflag_t = 0o0000001;

pub const CSIZE: tcflag_t = 0o0000060;
pub const CS8: tcflag_t = 0o0000060;
pub const CSTOPB: tcflag_t = 0o0000100;
pub const CREAD: tcflag_t = 0o0000200;
pub const PARENB: tcflag_t = 0o0000400;
pub const PARODD: tcflag_t = 0o0001000;
pub const CLOCAL: tcflag_t = 0o0004000;
pub const CRTSCTS: tcflag_t = 0o20000000000;

pub const TCSANOW: i32 = 0;
pub const TCIFLUSH: i32 = 0;
pub const TCIOFLUSH: i32 = 2;

pub const SIGINT: i32 = 2;
pub const SIGTERM: i32 = 15;

/// The terminal settings of a serial line, field for field as the kernel keeps them.
#[derive(Clone, Copy)]
pub struct Termios {
    pub c_iflag: tcflag_t,
    pub c_oflag: tcflag_t,
    pub c_cflag: tcflag_t,
    pub c_lflag: tcflag_t,
    pub c_line: cc_t,
    pub c_cc: [cc_t; NCCS],
    pub c_ispeed: speed_t,
    pub c_ospeed: speed_t,
}

} // verus!
