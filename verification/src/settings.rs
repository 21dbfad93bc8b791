//! Recording configuration: an immutable snapshot taken once at session start.

use vstd::prelude::*;

verus! {

/// Output resolution of the recorded video track.
#[derive(Debug, Clone, Copy, PartialEq, Eq, Structural)]
pub enum Resolution {
    P720,
    P1080,
}

/// Corner of the primary frame where the camera overlay is placed.
#[derive(Debug, Clone, Copy, PartialEq, Eq, Structural)]
pub enum CameraPosition {
    TopLeft,
    TopRight,
    BottomLeft,
    BottomRight,
}

/// Size class of the camera overlay, as a share of the primary frame's width.
#[derive(Debug, Clone, Copy, PartialEq, Eq, Structural)]
pub enum CameraSize {
    Small,
    Medium,
    Large,
}

/// Pixel dimensions that a resolution setting stands for.
pub open spec fn spec_resolution_dims(r: Resolution) -> (u32, u32) {
    match r {
        Resolution::P720 => (1280, 720),
        Resolution::P1080 => (1920, 1080),
    }
}

/// Maps a resolution setting to the capture target's width and height.
pub fn resolution_dims(r: Resolution) -> (dims: (u32, u32))
    ensures
        dims == spec_resolution_dims(r),
{
    match r {
        Resolution::P720 => (1280, 720),
        Resolution::P1080 => (1920, 1080),
    }
}

/// Configuration snapshot for one recording session.
///
/// Volumes are carried in thousandths: `1000` is full volume, `0` is mute.
#[derive(Debug, Clone)]
pub struct RecordingSettings {
    pub screen_enabled: bool,
    pub resolution: Resolution,
    pub fps: u32,
    pub bitrate: u32,
    pub selected_display: u32,
    pub selected_window: Option<String>,
    pub selected_camera: Option<String>,
    pub camera_enabled: bool,
    pub camera_position: CameraPosition,
    pub camera_size: CameraSize,
    pub microphone_device: String,
    pub mic_enabled: bool,
    pub mic_volume: u32,
    pub system_audio_device: String,
    pub system_audio_enabled: bool,
    pub system_audio_volume: u32,
}

impl Default for RecordingSettings {
    /// Screen capture on at 1080p/30fps, microphone on at 80% volume,
    /// camera and system audio off.
    fn default() -> (r: Self)
        ensures
            r.screen_enabled,
            r.resolution == Resolution::P1080,
            r.fps == 30u32,
            r.bitrate == 5000u32,
            r.selected_display == 0u32,
            r.selected_window is None,
            r.selected_camera is None,
            !r.camera_enabled,
            r.camera_position == CameraPosition::BottomRight,
            r.camera_size == CameraSize::Medium,
            r.microphone_device@ == Seq::<char>::empty(),
            r.mic_enabled,
            r.mic_volume == 800u32,
            r.system_audio_device@ == Seq::<char>::empty(),
            !r.system_audio_enabled,
            r.system_audio_volume == 600u32,
    {
        Self {
            screen_enabled: true,
            resolution: Resolution::P1080,
            fps: 30,
            bitrate: 5000,
            selected_display: 0,
            selected_window: None,
            selected_camera: None,
            camera_enabled: false,
            camera_position: CameraPosition::BottomRight,
            camera_size: CameraSize::Medium,
            microphone_device: String::new(),
            mic_enabled: true,
            mic_volume: 800,
            system_audio_device: String::new(),
            system_audio_enabled: false,
            system_audio_volume: 600,
        }
    }
}

} // verus!
