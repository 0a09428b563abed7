//! The USB camera: what it reports about itself, whether it can be used, and
//! the frames it hands over.

use vstd::prelude::*;

verus! {

/// The format code of Motion JPEG, the one format this controller streams.
pub const FORMAT_MJPEG: u8 = 1;
/// Bytes reserved for one captured frame.
pub const FRAME_BUFFER_SIZE: usize = 2 * 1024 * 1024;

#[derive(Clone, Copy, Debug)]
pub struct CameraInfo {
    pub width: u16,
    pub height: u16,
    pub format: u8,
    pub connected: bool,
}

#[derive(Debug)]
pub struct CameraFrame {
    pub jpeg: Vec<u8>,
    pub width: u16,
    pub height: u16,
}

/// The camera's report as the driver lays it out: a non-zero `connected` byte
/// means the camera is there.
pub fn camera_info_from_raw(width: u16, height: u16, format: u8, connected: u8) -> (res: CameraInfo)
    ensures
        res.width == width,
        res.height == height,
        res.format == format,
        res.connected == (connected != 0),
{
    CameraInfo { width, height, format, connected: connected != 0 }
}

/// Whether a camera can be used.
#[derive(Clone, Copy, Debug, PartialEq, Eq, Structural)]
pub enum CameraCheck {
    /// Connected and streaming Motion JPEG.
    Ready,
    /// Connected, but in another format: it is used, with a warning.
    OtherFormat,
    /// Not connected: opening it fails.
    Disconnected,
}

pub fn check_camera(info: &CameraInfo) -> (res: CameraCheck)
    ensures
        res == if !info.connected {
            CameraCheck::Disconnected
        } else if info.format != FORMAT_MJPEG {
            CameraCheck::OtherFormat
        } else {
            CameraCheck::Ready
        },
{
    if !info.connected {
        CameraCheck::Disconnected
    } else if info.format != FORMAT_MJPEG {
        CameraCheck::OtherFormat
    } else {
        CameraCheck::Ready
    }
}

/// The frame that a capture into `buffer` produced, given the driver's return
/// value: a negative value is a failed capture; otherwise it is the size of the
/// image, and the buffer is cut to it (a size beyond the buffer keeps it whole).
pub fn frame_from_capture(buffer: Vec<u8>, ret: i32, info: &CameraInfo) -> (res: Option<CameraFrame>)
    ensures
        res is None <==> ret < 0,
        res matches Some(frame) ==> {
            &&& frame.jpeg@ == (if ret as int <= buffer@.len() {
                buffer@.take(ret as int)
            } else {
                buffer@
            })
            &&& frame.width == info.width
            &&& frame.height == info.height
        },
{
    if ret < 0 {
        return None;
    }
    let mut jpeg = buffer;
    jpeg.truncate(ret as usize);
    Some(CameraFrame { jpeg, width: info.width, height: info.height })
}

/// Whether `data` holds a whole JPEG image: at least four bytes, opening with
/// the start-of-image marker `FF D8` and closing with the end-of-image marker `FF D9`.
pub open spec fn spec_is_valid_jpeg(data: Seq<u8>) -> bool {
    &&& data.len() >= 4
    &&& data[0] == 0xFF && data[1] == 0xD8
    &&& data[data.len() - 2] == 0xFF && data[data.len() - 1] == 0xD9
}

pub fn is_valid_jpeg(data: &[u8]) -> (res: bool)
    ensures
        res == spec_is_valid_jpeg(data@),
{
    let n = data.len();
    n >= 4 && data[0] == 0xFF && data[1] == 0xD8 && data[n - 2] == 0xFF && data[n - 1] == 0xD9
}

} // verus!
