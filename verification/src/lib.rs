//! Verified core of a small robot controller: the wire protocol of the motor
//! board, the command language of the servo arm, the serial line settings, the
//! camera frame checks and the decisions of the web control panel.

pub mod arm;
pub mod camera;
pub mod frame;
pub mod linux;
pub mod motor;
pub mod serial;
pub mod text;
pub mod web;
