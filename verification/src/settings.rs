//! The part of the server's session settings that the connection logic reads.

use vstd::prelude::*;
use crate::scalar::Scalar;

verus! {

/// Three reals: an offset or a rotation in driver coordinates.
#[derive(Clone, Copy, Debug, PartialEq, Eq, Structural)]
pub struct Vector3 {
    pub x: Scalar,
    pub y: Scalar,
    pub z: Scalar,
}

/// The vector of three zeros.
pub open spec fn zero_vector() -> Vector3 {
    Vector3 { x: Scalar { bits: 0 }, y: Scalar { bits: 0 }, z: Scalar { bits: 0 } }
}

impl Vector3 {
    /// Whether the two vectors hold equal numbers.
    pub open spec fn same_vector(self, other: Vector3) -> bool {
        &&& self.x.same_number(other.x)
        &&& self.y.same_number(other.y)
        &&& self.z.same_number(other.z)
    }

    /// The vector of three zeros.
    pub fn zero() -> (v: Vector3)
        ensures
            v == zero_vector(),
    {
        Vector3 { x: Scalar { bits: 0 }, y: Scalar { bits: 0 }, z: Scalar { bits: 0 } }
    }

    /// Compares the two vectors as numbers.
    pub fn equals(self, other: Vector3) -> (same: bool)
        ensures
            same == self.same_vector(other),
    {
        self.x.equals(other.x) && self.y.equals(other.y) && self.z.equals(other.z)
    }
}

/// How a frame size is configured: as a factor of what the headset
/// recommends, or as an absolute size of both eyes side by side.
#[derive(Clone, Copy, Debug, PartialEq, Eq, Structural)]
pub enum FrameSize {
    Scale(Scalar),
    Absolute { width: u32, height: u32 },
}

/// Video codec of the stream.
#[derive(Clone, Copy, Debug, PartialEq, Eq, Structural)]
pub enum CodecType {
    H264,
    HEVC,
}

/// Transport of the stream socket.
#[derive(Clone, Copy, Debug, PartialEq, Eq, Structural)]
pub enum SocketProtocol {
    Udp,
    Tcp,
}

/// Latency target derived from the frame time.
#[derive(Clone, Copy, Debug, PartialEq, Eq, Structural)]
pub struct LatencyUseFrametimeDesc {
    pub latency_target_maximum: u64,
    pub latency_target_offset: i32,
}

/// Adaptive bitrate block.
#[derive(Clone, Copy, Debug, PartialEq, Eq, Structural)]
pub struct AdaptiveBitrateDesc {
    pub bitrate_maximum: u64,
    pub latency_target: u64,
    pub latency_use_frametime: Option<LatencyUseFrametimeDesc>,
    pub latency_threshold: u64,
    pub bitrate_up_rate: u64,
    pub bitrate_down_rate: u64,
    pub bitrate_light_load_threshold: Scalar,
}

/// Foveated rendering block.
#[derive(Clone, Copy, Debug, PartialEq, Eq, Structural)]
pub struct FoveatedRenderingDesc {
    pub center_size_x: Scalar,
    pub center_size_y: Scalar,
    pub center_shift_x: Scalar,
    pub center_shift_y: Scalar,
    pub edge_ratio_x: Scalar,
    pub edge_ratio_y: Scalar,
}

/// Color correction block.
#[derive(Clone, Copy, Debug, PartialEq, Eq, Structural)]
pub struct ColorCorrectionDesc {
    pub brightness: Scalar,
    pub contrast: Scalar,
    pub saturation: Scalar,
    pub gamma: Scalar,
    pub sharpening: Scalar,
}

/// Video settings.
#[derive(Clone, Copy, Debug, PartialEq, Eq, Structural)]
pub struct VideoDesc {
    pub adapter_index: u32,
    pub render_resolution: FrameSize,
    pub recommended_target_resolution: FrameSize,
    pub preferred_fps: Scalar,
    pub codec: CodecType,
    pub use_10bit_encoder: bool,
    pub force_sw_encoding: bool,
    pub sw_thread_count: u32,
    pub encode_bitrate_mbs: u64,
    pub adaptive_bitrate: Option<AdaptiveBitrateDesc>,
    pub seconds_from_vsync_to_photons: Scalar,
    pub foveated_rendering: Option<FoveatedRenderingDesc>,
    pub color_correction: Option<ColorCorrectionDesc>,
}

/// Game audio block.
#[derive(Clone, Copy, Debug, PartialEq, Eq, Structural)]
pub struct GameAudioDesc {
    pub mute_when_streaming: bool,
}

/// Audio settings: which of the two audio streams are switched on.
#[derive(Clone, Copy, Debug, PartialEq, Eq, Structural)]
pub struct AudioSection {
    pub game_audio: Option<GameAudioDesc>,
    pub microphone: bool,
}

/// Controllers block.
pub struct ControllersDesc {
    pub mode_idx: i32,
    pub tracking_system_name: String,
    pub manufacturer_name: String,
    pub model_number: String,
    pub render_model_name_left: String,
    pub render_model_name_right: String,
    pub serial_number: String,
    pub ctrl_type_left: String,
    pub ctrl_type_right: String,
    pub registered_device_type: String,
    pub input_profile_path: String,
    pub steamvr_hmd_prediction_multiplier: Scalar,
    pub steamvr_ctrl_prediction_multiplier: Scalar,
    pub linear_velocity_cutoff: Scalar,
    pub angular_velocity_cutoff: Scalar,
    pub position_offset_left: Vector3,
    pub rotation_offset_left: Vector3,
    pub haptics_intensity: Scalar,
    pub haptics_amplitude_curve: Scalar,
    pub haptics_min_duration: Scalar,
    pub haptics_low_duration_amplitude_multiplier: Scalar,
    pub haptics_low_duration_range: Scalar,
    pub use_headset_tracking_system: bool,
}

/// Headset settings.
pub struct HeadsetDesc {
    pub universe_id: u64,
    pub serial_number: String,
    pub tracking_system_name: String,
    pub model_number: String,
    pub driver_version: String,
    pub manufacturer_name: String,
    pub render_model_name: String,
    pub registered_device_type: String,
    pub tracking_ref_only: bool,
    pub enable_vive_tracker_proxy: bool,
    pub force_3dof: bool,
    pub controllers: Option<ControllersDesc>,
    pub position_offset: Vector3,
}

/// Client discovery block.
#[derive(Clone, Copy, Debug, PartialEq, Eq, Structural)]
pub struct DiscoveryConfig {
    pub auto_trust_clients: bool,
}

/// Connection settings.
pub struct ConnectionDesc {
    pub client_discovery: Option<DiscoveryConfig>,
    pub web_server_port: u16,
    pub stream_port: u16,
    pub stream_protocol: SocketProtocol,
    pub on_connect_script: String,
    pub on_disconnect_script: String,
    pub enable_fec: bool,
    pub aggressive_keyframe_resend: bool,
    pub statistics_history_size: u64,
}

/// Remaining switches.
#[derive(Clone, Copy, Debug, PartialEq, Eq, Structural)]
pub struct ExtraDesc {
    pub linux_async_reprojection: bool,
    pub log_button_presses: bool,
}

/// The settings tree.
pub struct Settings {
    pub video: VideoDesc,
    pub audio: AudioSection,
    pub headset: HeadsetDesc,
    pub connection: ConnectionDesc,
    pub extra: ExtraDesc,
}

} // verus!
