//! Descriptions of the capture devices the recorder can use. Enumeration
//! itself talks to the platform; these are the plain values it yields.

use vstd::prelude::*;

verus! {

/// One connected monitor.
#[derive(Debug, Clone)]
pub struct DisplayInfo {
    pub index: u32,
    pub name: String,
    pub width: u32,
    pub height: u32,
    pub x: i32,
    pub y: i32,
    pub is_primary: bool,
}

/// One capturable window.
#[derive(Debug, Clone)]
pub struct WindowInfo {
    pub window_id: u64,
    pub title: String,
}

/// One connected camera.
#[derive(Debug, Clone)]
pub struct CameraInfo {
    pub index: u32,
    pub name: String,
    pub width: u32,
    pub height: u32,
}

/// One audio device, input or output.
#[derive(Debug, Clone)]
pub struct AudioDeviceInfo {
    pub index: u32,
    pub name: String,
    pub channels: u16,
    pub sample_rate: u32,
    pub is_input: bool,
}

} // verus!
