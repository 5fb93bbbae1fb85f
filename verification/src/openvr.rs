//! The configuration of the VR driver, derived from the settings and from
//! what a handshake negotiated.

use vstd::prelude::*;
use crate::scalar::Scalar;
use crate::settings::AdaptiveBitrateDesc;
use crate::settings::CodecType;
use crate::settings::ColorCorrectionDesc;
use crate::settings::ControllersDesc;
use crate::settings::FoveatedRenderingDesc;
use crate::settings::LatencyUseFrametimeDesc;
use crate::settings::Settings;
use crate::settings::Vector3;
use crate::settings::zero_vector;

verus! {

/// The stream parameters that a handshake settles.
#[derive(Clone, Copy, Debug, PartialEq, Eq, Structural)]
pub struct Negotiated {
    pub video_eye_width: u32,
    pub video_eye_height: u32,
    pub target_eye_width: u32,
    pub target_eye_height: u32,
    pub fps: Scalar,
}

/// The number by which the driver knows a codec.
pub open spec fn codec_index(codec: CodecType) -> u32 {
    match codec {
        CodecType::H264 => 0,
        CodecType::HEVC => 1,
    }
}

/// The frame-time block of an adaptive bitrate block, where both are on.
pub open spec fn frametime_of(block: Option<AdaptiveBitrateDesc>) -> Option<
    LatencyUseFrametimeDesc,
> {
    match block {
        Some(desc) => desc.latency_use_frametime,
        None => None,
    }
}

/// The number by which the driver knows a codec.
pub fn codec_number(codec: CodecType) -> (index: u32)
    ensures
        index == codec_index(codec),
{
    match codec {
        CodecType::H264 => 0,
        CodecType::HEVC => 1,
    }
}

fn flat_bitrate(block: &Option<AdaptiveBitrateDesc>) -> (flat: AdaptiveBitrateDesc)
    ensures
        flat == (match *block {
            Some(desc) => desc,
            None => (AdaptiveBitrateDesc {
                bitrate_maximum: 0,
                latency_target: 0,
                latency_use_frametime: None,
                latency_threshold: 0,
                bitrate_up_rate: 0,
                bitrate_down_rate: 0,
                bitrate_light_load_threshold: Scalar { bits: 0 },
            }),
        }),
{
    match block {
        Some(desc) => *desc,
        None => AdaptiveBitrateDesc {
            bitrate_maximum: 0,
            latency_target: 0,
            latency_use_frametime: None,
            latency_threshold: 0,
            bitrate_up_rate: 0,
            bitrate_down_rate: 0,
            bitrate_light_load_threshold: Scalar { bits: 0 },
        },
    }
}

fn flat_foveation(block: &Option<FoveatedRenderingDesc>) -> (flat: FoveatedRenderingDesc)
    ensures
        flat == (match *block {
            Some(desc) => desc,
            None => (FoveatedRenderingDesc {
                center_size_x: Scalar { bits: 0 },
                center_size_y: Scalar { bits: 0 },
                center_shift_x: Scalar { bits: 0 },
                center_shift_y: Scalar { bits: 0 },
                edge_ratio_x: Scalar { bits: 0 },
                edge_ratio_y: Scalar { bits: 0 },
            }),
        }),
{
    match block {
        Some(desc) => *desc,
        None => FoveatedRenderingDesc {
            center_size_x: Scalar { bits: 0 },
            center_size_y: Scalar { bits: 0 },
            center_shift_x: Scalar { bits: 0 },
            center_shift_y: Scalar { bits: 0 },
            edge_ratio_x: Scalar { bits: 0 },
            edge_ratio_y: Scalar { bits: 0 },
        },
    }
}

fn flat_color(block: &Option<ColorCorrectionDesc>) -> (flat: ColorCorrectionDesc)
    ensures
        flat == (match *block {
            Some(desc) => desc,
            None => (ColorCorrectionDesc {
                brightness: Scalar { bits: 0 },
                contrast: Scalar { bits: 0 },
                saturation: Scalar { bits: 0 },
                gamma: Scalar { bits: 0 },
                sharpening: Scalar { bits: 0 },
            }),
        }),
{
    match block {
        Some(desc) => *desc,
        None => ColorCorrectionDesc {
            brightness: Scalar { bits: 0 },
            contrast: Scalar { bits: 0 },
            saturation: Scalar { bits: 0 },
            gamma: Scalar { bits: 0 },
            sharpening: Scalar { bits: 0 },
        },
    }
}

fn flat_controllers(block: &Option<ControllersDesc>) -> (flat: ControllersDesc)
    ensures
        flat.mode_idx == (match *block { Some(c) => c.mode_idx, None => 0 }),
        flat.tracking_system_name@ == (match *block { Some(c) => c.tracking_system_name@, None => Seq::<char>::empty() }),
        flat.manufacturer_name@ == (match *block { Some(c) => c.manufacturer_name@, None => Seq::<char>::empty() }),
        flat.model_number@ == (match *block { Some(c) => c.model_number@, None => Seq::<char>::empty() }),
        flat.render_model_name_left@ == (match *block { Some(c) => c.render_model_name_left@, None => Seq::<char>::empty() }),
        flat.render_model_name_right@ == (match *block { Some(c) => c.render_model_name_right@, None => Seq::<char>::empty() }),
        flat.serial_number@ == (match *block { Some(c) => c.serial_number@, None => Seq::<char>::empty() }),
        flat.ctrl_type_left@ == (match *block { Some(c) => c.ctrl_type_left@, None => Seq::<char>::empty() }),
        flat.ctrl_type_right@ == (match *block { Some(c) => c.ctrl_type_right@, None => Seq::<char>::empty() }),
        flat.registered_device_type@ == (match *block { Some(c) => c.registered_device_type@, None => Seq::<char>::empty() }),
        flat.input_profile_path@ == (match *block { Some(c) => c.input_profile_path@, None => Seq::<char>::empty() }),
        flat.steamvr_hmd_prediction_multiplier == (match *block { Some(c) => c.steamvr_hmd_prediction_multiplier, None => (Scalar { bits: 0 }) }),
        flat.steamvr_ctrl_prediction_multiplier == (match *block { Some(c) => c.steamvr_ctrl_prediction_multiplier, None => (Scalar { bits: 0 }) }),
        flat.linear_velocity_cutoff == (match *block { Some(c) => c.linear_velocity_cutoff, None => (Scalar { bits: 0 }) }),
        flat.angular_velocity_cutoff == (match *block { Some(c) => c.angular_velocity_cutoff, None => (Scalar { bits: 0 }) }),
        flat.position_offset_left == (match *block { Some(c) => c.position_offset_left, None => zero_vector() }),
        flat.rotation_offset_left == (match *block { Some(c) => c.rotation_offset_left, None => zero_vector() }),
        flat.haptics_intensity == (match *block { Some(c) => c.haptics_intensity, None => (Scalar { bits: 0 }) }),
        flat.haptics_amplitude_curve == (match *block { Some(c) => c.haptics_amplitude_curve, None => (Scalar { bits: 0 }) }),
        flat.haptics_min_duration == (match *block { Some(c) => c.haptics_min_duration, None => (Scalar { bits: 0 }) }),
        flat.haptics_low_duration_amplitude_multiplier == (match *block { Some(c) => c.haptics_low_duration_amplitude_multiplier, None => (Scalar { bits: 0 }) }),
        flat.haptics_low_duration_range == (match *block { Some(c) => c.haptics_low_duration_range, None => (Scalar { bits: 0 }) }),
        flat.use_headset_tracking_system == (match *block { Some(c) => c.use_headset_tracking_system, None => false }),
{
    match block {
        Some(c) => ControllersDesc {
            mode_idx: c.mode_idx,
            tracking_system_name: c.tracking_system_name.clone(),
            manufacturer_name: c.manufacturer_name.clone(),
            model_number: c.model_number.clone(),
            render_model_name_left: c.render_model_name_left.clone(),
            render_model_name_right: c.render_model_name_right.clone(),
            serial_number: c.serial_number.clone(),
            ctrl_type_left: c.ctrl_type_left.clone(),
            ctrl_type_right: c.ctrl_type_right.clone(),
            registered_device_type: c.registered_device_type.clone(),
            input_profile_path: c.input_profile_path.clone(),
            steamvr_hmd_prediction_multiplier: c.steamvr_hmd_prediction_multiplier,
            steamvr_ctrl_prediction_multiplier: c.steamvr_ctrl_prediction_multiplier,
            linear_velocity_cutoff: c.linear_velocity_cutoff,
            angular_velocity_cutoff: c.angular_velocity_cutoff,
            position_offset_left: c.position_offset_left,
            rotation_offset_left: c.rotation_offset_left,
            haptics_intensity: c.haptics_intensity,
            haptics_amplitude_curve: c.haptics_amplitude_curve,
            haptics_min_duration: c.haptics_min_duration,
            haptics_low_duration_amplitude_multiplier: c.haptics_low_duration_amplitude_multiplier,
            haptics_low_duration_range: c.haptics_low_duration_range,
            use_headset_tracking_system: c.use_headset_tracking_system,
        },
        None => ControllersDesc {
            mode_idx: 0,
            tracking_system_name: String::new(),
            manufacturer_name: String::new(),
            model_number: String::new(),
            render_model_name_left: String::new(),
            render_model_name_right: String::new(),
            serial_number: String::new(),
            ctrl_type_left: String::new(),
            ctrl_type_right: String::new(),
            registered_device_type: String::new(),
            input_profile_path: String::new(),
            steamvr_hmd_prediction_multiplier: Scalar { bits: 0 },
            steamvr_ctrl_prediction_multiplier: Scalar { bits: 0 },
            linear_velocity_cutoff: Scalar { bits: 0 },
            angular_velocity_cutoff: Scalar { bits: 0 },
            position_offset_left: Vector3::zero(),
            rotation_offset_left: Vector3::zero(),
            haptics_intensity: Scalar { bits: 0 },
            haptics_amplitude_curve: Scalar { bits: 0 },
            haptics_min_duration: Scalar { bits: 0 },
            haptics_low_duration_amplitude_multiplier: Scalar { bits: 0 },
            haptics_low_duration_range: Scalar { bits: 0 },
            use_headset_tracking_system: false,
        },
    }
}

/// The flat configuration handed to the VR driver. The driver has to be
/// restarted whenever it changes between two connection attempts.
pub struct OpenvrConfig {
    pub universe_id: u64,
    pub headset_serial_number: String,
    pub headset_tracking_system_name: String,
    pub headset_model_number: String,
    pub headset_driver_version: String,
    pub headset_manufacturer_name: String,
    pub headset_render_model_name: String,
    pub headset_registered_device_type: String,
    pub eye_resolution_width: u32,
    pub eye_resolution_height: u32,
    pub target_eye_resolution_width: u32,
    pub target_eye_resolution_height: u32,
    pub seconds_from_vsync_to_photons: Scalar,
    pub force_3dof: bool,
    pub tracking_ref_only: bool,
    pub enable_vive_tracker_proxy: bool,
    pub aggressive_keyframe_resend: bool,
    pub adapter_index: u32,
    pub codec: u32,
    pub refresh_rate: u32,
    pub use_10bit_encoder: bool,
    pub force_sw_encoding: bool,
    pub sw_thread_count: u32,
    pub encode_bitrate_mbs: u64,
    pub enable_adaptive_bitrate: bool,
    pub bitrate_maximum: u64,
    pub latency_target: u64,
    pub latency_use_frametime: bool,
    pub latency_target_maximum: u64,
    pub latency_target_offset: i32,
    pub latency_threshold: u64,
    pub bitrate_up_rate: u64,
    pub bitrate_down_rate: u64,
    pub bitrate_light_load_threshold: Scalar,
    pub position_offset: Vector3,
    pub controllers_enabled: bool,
    pub steamvr_hmd_prediction_multiplier: Scalar,
    pub steamvr_ctrl_prediction_multiplier: Scalar,
    pub controllers_mode_idx: i32,
    pub controllers_tracking_system_name: String,
    pub controllers_manufacturer_name: String,
    pub controllers_model_number: String,
    pub render_model_name_left_controller: String,
    pub render_model_name_right_controller: String,
    pub controllers_serial_number: String,
    pub controllers_type_left: String,
    pub controllers_type_right: String,
    pub controllers_registered_device_type: String,
    pub controllers_input_profile_path: String,
    pub linear_velocity_cutoff: Scalar,
    pub angular_velocity_cutoff: Scalar,
    pub position_offset_left: Vector3,
    pub rotation_offset_left: Vector3,
    pub haptics_intensity: Scalar,
    pub haptics_amplitude_curve: Scalar,
    pub haptics_min_duration: Scalar,
    pub haptics_low_duration_amplitude_multiplier: Scalar,
    pub haptics_low_duration_range: Scalar,
    pub use_headset_tracking_system: bool,
    pub enable_foveated_rendering: bool,
    pub foveation_center_size_x: Scalar,
    pub foveation_center_size_y: Scalar,
    pub foveation_center_shift_x: Scalar,
    pub foveation_center_shift_y: Scalar,
    pub foveation_edge_ratio_x: Scalar,
    pub foveation_edge_ratio_y: Scalar,
    pub enable_color_correction: bool,
    pub brightness: Scalar,
    pub contrast: Scalar,
    pub saturation: Scalar,
    pub gamma: Scalar,
    pub sharpening: Scalar,
    pub enable_fec: bool,
    pub linux_async_reprojection: bool,
}

impl OpenvrConfig {
    /// The fields on the headset, as [`OpenvrConfig::describes`] asks for them.
    pub open spec fn describes_headset(self, settings: Settings, negotiated: Negotiated) -> bool {
        &&& self.universe_id == (settings.headset.universe_id)
        &&& self.headset_serial_number@ == (settings.headset.serial_number@)
        &&& self.headset_tracking_system_name@ == (settings.headset.tracking_system_name@)
        &&& self.headset_model_number@ == (settings.headset.model_number@)
        &&& self.headset_driver_version@ == (settings.headset.driver_version@)
        &&& self.headset_manufacturer_name@ == (settings.headset.manufacturer_name@)
        &&& self.headset_render_model_name@ == (settings.headset.render_model_name@)
        &&& self.headset_registered_device_type@ == (settings.headset.registered_device_type@)
        &&& self.position_offset == (settings.headset.position_offset)
    }

    /// The fields on the video stream, as [`OpenvrConfig::describes`] asks for them.
    pub open spec fn describes_video(self, settings: Settings, negotiated: Negotiated) -> bool {
        &&& self.eye_resolution_width == (negotiated.video_eye_width)
        &&& self.eye_resolution_height == (negotiated.video_eye_height)
        &&& self.target_eye_resolution_width == (negotiated.target_eye_width)
        &&& self.target_eye_resolution_height == (negotiated.target_eye_height)
        &&& self.seconds_from_vsync_to_photons == (settings.video.seconds_from_vsync_to_photons)
        &&& self.force_3dof == (settings.headset.force_3dof)
        &&& self.tracking_ref_only == (settings.headset.tracking_ref_only)
        &&& self.enable_vive_tracker_proxy == (settings.headset.enable_vive_tracker_proxy)
        &&& self.aggressive_keyframe_resend == (settings.connection.aggressive_keyframe_resend)
        &&& self.adapter_index == (settings.video.adapter_index)
        &&& self.codec == (codec_index(settings.video.codec))
        &&& self.refresh_rate == (negotiated.fps.truncated())
        &&& self.use_10bit_encoder == (settings.video.use_10bit_encoder)
        &&& self.force_sw_encoding == (settings.video.force_sw_encoding)
        &&& self.sw_thread_count == (settings.video.sw_thread_count)
        &&& self.encode_bitrate_mbs == (settings.video.encode_bitrate_mbs)
        &&& self.enable_fec == (settings.connection.enable_fec)
        &&& self.linux_async_reprojection == (settings.extra.linux_async_reprojection)
    }

    /// The fields on the adaptive bitrate, as [`OpenvrConfig::describes`] asks for them.
    pub open spec fn describes_bitrate(self, settings: Settings, negotiated: Negotiated) -> bool {
        &&& self.enable_adaptive_bitrate == (settings.video.adaptive_bitrate is Some)
        &&& self.bitrate_maximum == (match settings.video.adaptive_bitrate { Some(c) => c.bitrate_maximum, None => 0 })
        &&& self.latency_target == (match settings.video.adaptive_bitrate { Some(c) => c.latency_target, None => 0 })
        &&& self.latency_use_frametime == (frametime_of(settings.video.adaptive_bitrate) is Some)
        &&& self.latency_target_maximum == (match frametime_of(settings.video.adaptive_bitrate) { Some(f) => f.latency_target_maximum, None => 0 })
        &&& self.latency_target_offset == (match frametime_of(settings.video.adaptive_bitrate) { Some(f) => f.latency_target_offset, None => 0 })
        &&& self.latency_threshold == (match settings.video.adaptive_bitrate { Some(c) => c.latency_threshold, None => 0 })
        &&& self.bitrate_up_rate == (match settings.video.adaptive_bitrate { Some(c) => c.bitrate_up_rate, None => 0 })
        &&& self.bitrate_down_rate == (match settings.video.adaptive_bitrate { Some(c) => c.bitrate_down_rate, None => 0 })
        &&& self.bitrate_light_load_threshold == (match settings.video.adaptive_bitrate { Some(c) => c.bitrate_light_load_threshold, None => (Scalar { bits: 0 }) })
    }

    /// The fields on the controllers, as [`OpenvrConfig::describes`] asks for them.
    pub open spec fn describes_controllers(self, settings: Settings, negotiated: Negotiated) -> bool {
        &&& self.controllers_enabled == (settings.headset.controllers is Some)
        &&& self.steamvr_hmd_prediction_multiplier == (match settings.headset.controllers { Some(c) => c.steamvr_hmd_prediction_multiplier, None => (Scalar { bits: 0 }) })
        &&& self.steamvr_ctrl_prediction_multiplier == (match settings.headset.controllers { Some(c) => c.steamvr_ctrl_prediction_multiplier, None => (Scalar { bits: 0 }) })
        &&& self.controllers_mode_idx == (match settings.headset.controllers { Some(c) => c.mode_idx, None => 0 })
        &&& self.controllers_tracking_system_name@ == (match settings.headset.controllers { Some(c) => c.tracking_system_name@, None => Seq::<char>::empty() })
        &&& self.controllers_manufacturer_name@ == (match settings.headset.controllers { Some(c) => c.manufacturer_name@, None => Seq::<char>::empty() })
        &&& self.controllers_model_number@ == (match settings.headset.controllers { Some(c) => c.model_number@, None => Seq::<char>::empty() })
        &&& self.render_model_name_left_controller@ == (match settings.headset.controllers { Some(c) => c.render_model_name_left@, None => Seq::<char>::empty() })
        &&& self.render_model_name_right_controller@ == (match settings.headset.controllers { Some(c) => c.render_model_name_right@, None => Seq::<char>::empty() })
        &&& self.controllers_serial_number@ == (match settings.headset.controllers { Some(c) => c.serial_number@, None => Seq::<char>::empty() })
        &&& self.controllers_type_left@ == (match settings.headset.controllers { Some(c) => c.ctrl_type_left@, None => Seq::<char>::empty() })
        &&& self.controllers_type_right@ == (match settings.headset.controllers { Some(c) => c.ctrl_type_right@, None => Seq::<char>::empty() })
        &&& self.controllers_registered_device_type@ == (match settings.headset.controllers { Some(c) => c.registered_device_type@, None => Seq::<char>::empty() })
        &&& self.controllers_input_profile_path@ == (match settings.headset.controllers { Some(c) => c.input_profile_path@, None => Seq::<char>::empty() })
        &&& self.linear_velocity_cutoff == (match settings.headset.controllers { Some(c) => c.linear_velocity_cutoff, None => (Scalar { bits: 0 }) })
        &&& self.angular_velocity_cutoff == (match settings.headset.controllers { Some(c) => c.angular_velocity_cutoff, None => (Scalar { bits: 0 }) })
        &&& self.position_offset_left == (match settings.headset.controllers { Some(c) => c.position_offset_left, None => zero_vector() })
        &&& self.rotation_offset_left == (match settings.headset.controllers { Some(c) => c.rotation_offset_left, None => zero_vector() })
        &&& self.haptics_intensity == (match settings.headset.controllers { Some(c) => c.haptics_intensity, None => (Scalar { bits: 0 }) })
        &&& self.haptics_amplitude_curve == (match settings.headset.controllers { Some(c) => c.haptics_amplitude_curve, None => (Scalar { bits: 0 }) })
        &&& self.haptics_min_duration == (match settings.headset.controllers { Some(c) => c.haptics_min_duration, None => (Scalar { bits: 0 }) })
        &&& self.haptics_low_duration_amplitude_multiplier == (match settings.headset.controllers { Some(c) => c.haptics_low_duration_amplitude_multiplier, None => (Scalar { bits: 0 }) })
        &&& self.haptics_low_duration_range == (match settings.headset.controllers { Some(c) => c.haptics_low_duration_range, None => (Scalar { bits: 0 }) })
        &&& self.use_headset_tracking_system == (match settings.headset.controllers { Some(c) => c.use_headset_tracking_system, None => false })
    }

    /// The fields on foveation and color correction, as [`OpenvrConfig::describes`] asks for them.
    pub open spec fn describes_image(self, settings: Settings, negotiated: Negotiated) -> bool {
        &&& self.enable_foveated_rendering == (settings.video.foveated_rendering is Some)
        &&& self.foveation_center_size_x == (match settings.video.foveated_rendering { Some(c) => c.center_size_x, None => (Scalar { bits: 0 }) })
        &&& self.foveation_center_size_y == (match settings.video.foveated_rendering { Some(c) => c.center_size_y, None => (Scalar { bits: 0 }) })
        &&& self.foveation_center_shift_x == (match settings.video.foveated_rendering { Some(c) => c.center_shift_x, None => (Scalar { bits: 0 }) })
        &&& self.foveation_center_shift_y == (match settings.video.foveated_rendering { Some(c) => c.center_shift_y, None => (Scalar { bits: 0 }) })
        &&& self.foveation_edge_ratio_x == (match settings.video.foveated_rendering { Some(c) => c.edge_ratio_x, None => (Scalar { bits: 0 }) })
        &&& self.foveation_edge_ratio_y == (match settings.video.foveated_rendering { Some(c) => c.edge_ratio_y, None => (Scalar { bits: 0 }) })
        &&& self.enable_color_correction == (settings.video.color_correction is Some)
        &&& self.brightness == (match settings.video.color_correction { Some(c) => c.brightness, None => (Scalar { bits: 0 }) })
        &&& self.contrast == (match settings.video.color_correction { Some(c) => c.contrast, None => (Scalar { bits: 0 }) })
        &&& self.saturation == (match settings.video.color_correction { Some(c) => c.saturation, None => (Scalar { bits: 0 }) })
        &&& self.gamma == (match settings.video.color_correction { Some(c) => c.gamma, None => (Scalar { bits: 0 }) })
        &&& self.sharpening == (match settings.video.color_correction { Some(c) => c.sharpening, None => (Scalar { bits: 0 }) })
    }

    /// Whether this is the driver configuration that the settings and the
    /// negotiated stream parameters call for: every field is taken from its
    /// setting, and the fields of a block that is switched off are zero or empty.
    pub open spec fn describes(self, settings: Settings, negotiated: Negotiated) -> bool {
        &&& self.describes_headset(settings, negotiated)
        &&& self.describes_video(settings, negotiated)
        &&& self.describes_bitrate(settings, negotiated)
        &&& self.describes_controllers(settings, negotiated)
        &&& self.describes_image(settings, negotiated)
    }

    /// Equality of the fields on the headset, as [`OpenvrConfig::matches`] asks for it.
    pub open spec fn matches_headset(self, other: OpenvrConfig) -> bool {
        &&& self.universe_id == other.universe_id
        &&& self.headset_serial_number@ == other.headset_serial_number@
        &&& self.headset_tracking_system_name@ == other.headset_tracking_system_name@
        &&& self.headset_model_number@ == other.headset_model_number@
        &&& self.headset_driver_version@ == other.headset_driver_version@
        &&& self.headset_manufacturer_name@ == other.headset_manufacturer_name@
        &&& self.headset_render_model_name@ == other.headset_render_model_name@
        &&& self.headset_registered_device_type@ == other.headset_registered_device_type@
        &&& self.position_offset.same_vector(other.position_offset)
    }

    /// Equality of the fields on the video stream, as [`OpenvrConfig::matches`] asks for it.
    pub open spec fn matches_video(self, other: OpenvrConfig) -> bool {
        &&& self.eye_resolution_width == other.eye_resolution_width
        &&& self.eye_resolution_height == other.eye_resolution_height
        &&& self.target_eye_resolution_width == other.target_eye_resolution_width
        &&& self.target_eye_resolution_height == other.target_eye_resolution_height
        &&& self.seconds_from_vsync_to_photons.same_number(other.seconds_from_vsync_to_photons)
        &&& self.force_3dof == other.force_3dof
        &&& self.tracking_ref_only == other.tracking_ref_only
        &&& self.enable_vive_tracker_proxy == other.enable_vive_tracker_proxy
        &&& self.aggressive_keyframe_resend == other.aggressive_keyframe_resend
        &&& self.adapter_index == other.adapter_index
        &&& self.codec == other.codec
        &&& self.refresh_rate == other.refresh_rate
        &&& self.use_10bit_encoder == other.use_10bit_encoder
        &&& self.force_sw_encoding == other.force_sw_encoding
        &&& self.sw_thread_count == other.sw_thread_count
        &&& self.encode_bitrate_mbs == other.encode_bitrate_mbs
        &&& self.enable_fec == other.enable_fec
        &&& self.linux_async_reprojection == other.linux_async_reprojection
    }

    /// Equality of the fields on the adaptive bitrate, as [`OpenvrConfig::matches`] asks for it.
    pub open spec fn matches_bitrate(self, other: OpenvrConfig) -> bool {
        &&& self.enable_adaptive_bitrate == other.enable_adaptive_bitrate
        &&& self.bitrate_maximum == other.bitrate_maximum
        &&& self.latency_target == other.latency_target
        &&& self.latency_use_frametime == other.latency_use_frametime
        &&& self.latency_target_maximum == other.latency_target_maximum
        &&& self.latency_target_offset == other.latency_target_offset
        &&& self.latency_threshold == other.latency_threshold
        &&& self.bitrate_up_rate == other.bitrate_up_rate
        &&& self.bitrate_down_rate == other.bitrate_down_rate
        &&& self.bitrate_light_load_threshold.same_number(other.bitrate_light_load_threshold)
    }

    /// Equality of the fields on the controllers, as [`OpenvrConfig::matches`] asks for it.
    pub open spec fn matches_controllers(self, other: OpenvrConfig) -> bool {
        &&& self.controllers_enabled == other.controllers_enabled
        &&& self.steamvr_hmd_prediction_multiplier.same_number(other.steamvr_hmd_prediction_multiplier)
        &&& self.steamvr_ctrl_prediction_multiplier.same_number(other.steamvr_ctrl_prediction_multiplier)
        &&& self.controllers_mode_idx == other.controllers_mode_idx
        &&& self.controllers_tracking_system_name@ == other.controllers_tracking_system_name@
        &&& self.controllers_manufacturer_name@ == other.controllers_manufacturer_name@
        &&& self.controllers_model_number@ == other.controllers_model_number@
        &&& self.render_model_name_left_controller@ == other.render_model_name_left_controller@
        &&& self.render_model_name_right_controller@ == other.render_model_name_right_controller@
        &&& self.controllers_serial_number@ == other.controllers_serial_number@
        &&& self.controllers_type_left@ == other.controllers_type_left@
        &&& self.controllers_type_right@ == other.controllers_type_right@
        &&& self.controllers_registered_device_type@ == other.controllers_registered_device_type@
        &&& self.controllers_input_profile_path@ == other.controllers_input_profile_path@
        &&& self.linear_velocity_cutoff.same_number(other.linear_velocity_cutoff)
        &&& self.angular_velocity_cutoff.same_number(other.angular_velocity_cutoff)
        &&& self.position_offset_left.same_vector(other.position_offset_left)
        &&& self.rotation_offset_left.same_vector(other.rotation_offset_left)
        &&& self.haptics_intensity.same_number(other.haptics_intensity)
        &&& self.haptics_amplitude_curve.same_number(other.haptics_amplitude_curve)
        &&& self.haptics_min_duration.same_number(other.haptics_min_duration)
        &&& self.haptics_low_duration_amplitude_multiplier.same_number(other.haptics_low_duration_amplitude_multiplier)
        &&& self.haptics_low_duration_range.same_number(other.haptics_low_duration_range)
        &&& self.use_headset_tracking_system == other.use_headset_tracking_system
    }

    /// Equality of the fields on foveation and color correction, as [`OpenvrConfig::matches`] asks for it.
    pub open spec fn matches_image(self, other: OpenvrConfig) -> bool {
        &&& self.enable_foveated_rendering == other.enable_foveated_rendering
        &&& self.foveation_center_size_x.same_number(other.foveation_center_size_x)
        &&& self.foveation_center_size_y.same_number(other.foveation_center_size_y)
        &&& self.foveation_center_shift_x.same_number(other.foveation_center_shift_x)
        &&& self.foveation_center_shift_y.same_number(other.foveation_center_shift_y)
        &&& self.foveation_edge_ratio_x.same_number(other.foveation_edge_ratio_x)
        &&& self.foveation_edge_ratio_y.same_number(other.foveation_edge_ratio_y)
        &&& self.enable_color_correction == other.enable_color_correction
        &&& self.brightness.same_number(other.brightness)
        &&& self.contrast.same_number(other.contrast)
        &&& self.saturation.same_number(other.saturation)
        &&& self.gamma.same_number(other.gamma)
        &&& self.sharpening.same_number(other.sharpening)
    }

    /// Whether the two configurations are equal field by field: integers and
    /// flags by value, texts by their characters, reals as numbers.
    pub open spec fn matches(self, other: OpenvrConfig) -> bool {
        &&& self.matches_headset(other)
        &&& self.matches_video(other)
        &&& self.matches_bitrate(other)
        &&& self.matches_controllers(other)
        &&& self.matches_image(other)
    }

    fn same_headset(&self, other: &OpenvrConfig) -> (same: bool)
        ensures
            same == self.matches_headset(*other),
    {
        self.universe_id == other.universe_id
        && self.headset_serial_number == other.headset_serial_number
        && self.headset_tracking_system_name == other.headset_tracking_system_name
        && self.headset_model_number == other.headset_model_number
        && self.headset_driver_version == other.headset_driver_version
        && self.headset_manufacturer_name == other.headset_manufacturer_name
        && self.headset_render_model_name == other.headset_render_model_name
        && self.headset_registered_device_type == other.headset_registered_device_type
        && self.position_offset.equals(other.position_offset)
    }

    fn same_video(&self, other: &OpenvrConfig) -> (same: bool)
        ensures
            same == self.matches_video(*other),
    {
        self.eye_resolution_width == other.eye_resolution_width
        && self.eye_resolution_height == other.eye_resolution_height
        && self.target_eye_resolution_width == other.target_eye_resolution_width
        && self.target_eye_resolution_height == other.target_eye_resolution_height
        && self.seconds_from_vsync_to_photons.equals(other.seconds_from_vsync_to_photons)
        && self.force_3dof == other.force_3dof
        && self.tracking_ref_only == other.tracking_ref_only
        && self.enable_vive_tracker_proxy == other.enable_vive_tracker_proxy
        && self.aggressive_keyframe_resend == other.aggressive_keyframe_resend
        && self.adapter_index == other.adapter_index
        && self.codec == other.codec
        && self.refresh_rate == other.refresh_rate
        && self.use_10bit_encoder == other.use_10bit_encoder
        && self.force_sw_encoding == other.force_sw_encoding
        && self.sw_thread_count == other.sw_thread_count
        && self.encode_bitrate_mbs == other.encode_bitrate_mbs
        && self.enable_fec == other.enable_fec
        && self.linux_async_reprojection == other.linux_async_reprojection
    }

    fn same_bitrate(&self, other: &OpenvrConfig) -> (same: bool)
        ensures
            same == self.matches_bitrate(*other),
    {
        self.enable_adaptive_bitrate == other.enable_adaptive_bitrate
        && self.bitrate_maximum == other.bitrate_maximum
        && self.latency_target == other.latency_target
        && self.latency_use_frametime == other.latency_use_frametime
        && self.latency_target_maximum == other.latency_target_maximum
        && self.latency_target_offset == other.latency_target_offset
        && self.latency_threshold == other.latency_threshold
        && self.bitrate_up_rate == other.bitrate_up_rate
        && self.bitrate_down_rate == other.bitrate_down_rate
        && self.bitrate_light_load_threshold.equals(other.bitrate_light_load_threshold)
    }

    fn same_controllers(&self, other: &OpenvrConfig) -> (same: bool)
        ensures
            same == self.matches_controllers(*other),
    {
        self.controllers_enabled == other.controllers_enabled
        && self.steamvr_hmd_prediction_multiplier.equals(other.steamvr_hmd_prediction_multiplier)
        && self.steamvr_ctrl_prediction_multiplier.equals(other.steamvr_ctrl_prediction_multiplier)
        && self.controllers_mode_idx == other.controllers_mode_idx
        && self.controllers_tracking_system_name == other.controllers_tracking_system_name
        && self.controllers_manufacturer_name == other.controllers_manufacturer_name
        && self.controllers_model_number == other.controllers_model_number
        && self.render_model_name_left_controller == other.render_model_name_left_controller
        && self.render_model_name_right_controller == other.render_model_name_right_controller
        && self.controllers_serial_number == other.controllers_serial_number
        && self.controllers_type_left == other.controllers_type_left
        && self.controllers_type_right == other.controllers_type_right
        && self.controllers_registered_device_type == other.controllers_registered_device_type
        && self.controllers_input_profile_path == other.controllers_input_profile_path
        && self.linear_velocity_cutoff.equals(other.linear_velocity_cutoff)
        && self.angular_velocity_cutoff.equals(other.angular_velocity_cutoff)
        && self.position_offset_left.equals(other.position_offset_left)
        && self.rotation_offset_left.equals(other.rotation_offset_left)
        && self.haptics_intensity.equals(other.haptics_intensity)
        && self.haptics_amplitude_curve.equals(other.haptics_amplitude_curve)
        && self.haptics_min_duration.equals(other.haptics_min_duration)
        && self.haptics_low_duration_amplitude_multiplier.equals(other.haptics_low_duration_amplitude_multiplier)
        && self.haptics_low_duration_range.equals(other.haptics_low_duration_range)
        && self.use_headset_tracking_system == other.use_headset_tracking_system
    }

    fn same_image(&self, other: &OpenvrConfig) -> (same: bool)
        ensures
            same == self.matches_image(*other),
    {
        self.enable_foveated_rendering == other.enable_foveated_rendering
        && self.foveation_center_size_x.equals(other.foveation_center_size_x)
        && self.foveation_center_size_y.equals(other.foveation_center_size_y)
        && self.foveation_center_shift_x.equals(other.foveation_center_shift_x)
        && self.foveation_center_shift_y.equals(other.foveation_center_shift_y)
        && self.foveation_edge_ratio_x.equals(other.foveation_edge_ratio_x)
        && self.foveation_edge_ratio_y.equals(other.foveation_edge_ratio_y)
        && self.enable_color_correction == other.enable_color_correction
        && self.brightness.equals(other.brightness)
        && self.contrast.equals(other.contrast)
        && self.saturation.equals(other.saturation)
        && self.gamma.equals(other.gamma)
        && self.sharpening.equals(other.sharpening)
    }

    /// Compares two driver configurations.
    pub fn same_as(&self, other: &OpenvrConfig) -> (same: bool)
        ensures
            same == self.matches(*other),
    {
        self.same_headset(other)
        && self.same_video(other)
        && self.same_bitrate(other)
        && self.same_controllers(other)
        && self.same_image(other)
    }

    /// Builds the driver configuration from the settings and the negotiated
    /// stream parameters.
    pub fn from_settings(settings: &Settings, negotiated: &Negotiated) -> (config: OpenvrConfig)
        ensures
            config.describes(*settings, *negotiated),
    {
        let controllers = flat_controllers(&settings.headset.controllers);
        let bitrate = flat_bitrate(&settings.video.adaptive_bitrate);
        let foveation = flat_foveation(&settings.video.foveated_rendering);
        let color = flat_color(&settings.video.color_correction);
        let config = OpenvrConfig {
            universe_id: settings.headset.universe_id,
            headset_serial_number: settings.headset.serial_number.clone(),
            headset_tracking_system_name: settings.headset.tracking_system_name.clone(),
            headset_model_number: settings.headset.model_number.clone(),
            headset_driver_version: settings.headset.driver_version.clone(),
            headset_manufacturer_name: settings.headset.manufacturer_name.clone(),
            headset_render_model_name: settings.headset.render_model_name.clone(),
            headset_registered_device_type: settings.headset.registered_device_type.clone(),
            eye_resolution_width: negotiated.video_eye_width,
            eye_resolution_height: negotiated.video_eye_height,
            target_eye_resolution_width: negotiated.target_eye_width,
            target_eye_resolution_height: negotiated.target_eye_height,
            seconds_from_vsync_to_photons: settings.video.seconds_from_vsync_to_photons,
            force_3dof: settings.headset.force_3dof,
            tracking_ref_only: settings.headset.tracking_ref_only,
            enable_vive_tracker_proxy: settings.headset.enable_vive_tracker_proxy,
            aggressive_keyframe_resend: settings.connection.aggressive_keyframe_resend,
            adapter_index: settings.video.adapter_index,
            codec: codec_number(settings.video.codec),
            refresh_rate: negotiated.fps.to_u32(),
            use_10bit_encoder: settings.video.use_10bit_encoder,
            force_sw_encoding: settings.video.force_sw_encoding,
            sw_thread_count: settings.video.sw_thread_count,
            encode_bitrate_mbs: settings.video.encode_bitrate_mbs,
            enable_adaptive_bitrate: settings.video.adaptive_bitrate.is_some(),
            bitrate_maximum: bitrate.bitrate_maximum,
            latency_target: bitrate.latency_target,
            latency_use_frametime: bitrate.latency_use_frametime.is_some(),
            latency_target_maximum: match bitrate.latency_use_frametime { Some(f) => f.latency_target_maximum, None => 0 },
            latency_target_offset: match bitrate.latency_use_frametime { Some(f) => f.latency_target_offset, None => 0 },
            latency_threshold: bitrate.latency_threshold,
            bitrate_up_rate: bitrate.bitrate_up_rate,
            bitrate_down_rate: bitrate.bitrate_down_rate,
            bitrate_light_load_threshold: bitrate.bitrate_light_load_threshold,
            position_offset: settings.headset.position_offset,
            controllers_enabled: settings.headset.controllers.is_some(),
            steamvr_hmd_prediction_multiplier: controllers.steamvr_hmd_prediction_multiplier,
            steamvr_ctrl_prediction_multiplier: controllers.steamvr_ctrl_prediction_multiplier,
            controllers_mode_idx: controllers.mode_idx,
            controllers_tracking_system_name: controllers.tracking_system_name,
            controllers_manufacturer_name: controllers.manufacturer_name,
            controllers_model_number: controllers.model_number,
            render_model_name_left_controller: controllers.render_model_name_left,
            render_model_name_right_controller: controllers.render_model_name_right,
            controllers_serial_number: controllers.serial_number,
            controllers_type_left: controllers.ctrl_type_left,
            controllers_type_right: controllers.ctrl_type_right,
            controllers_registered_device_type: controllers.registered_device_type,
            controllers_input_profile_path: controllers.input_profile_path,
            linear_velocity_cutoff: controllers.linear_velocity_cutoff,
            angular_velocity_cutoff: controllers.angular_velocity_cutoff,
            position_offset_left: controllers.position_offset_left,
            rotation_offset_left: controllers.rotation_offset_left,
            haptics_intensity: controllers.haptics_intensity,
            haptics_amplitude_curve: controllers.haptics_amplitude_curve,
            haptics_min_duration: controllers.haptics_min_duration,
            haptics_low_duration_amplitude_multiplier: controllers.haptics_low_duration_amplitude_multiplier,
            haptics_low_duration_range: controllers.haptics_low_duration_range,
            use_headset_tracking_system: controllers.use_headset_tracking_system,
            enable_foveated_rendering: settings.video.foveated_rendering.is_some(),
            foveation_center_size_x: foveation.center_size_x,
            foveation_center_size_y: foveation.center_size_y,
            foveation_center_shift_x: foveation.center_shift_x,
            foveation_center_shift_y: foveation.center_shift_y,
            foveation_edge_ratio_x: foveation.edge_ratio_x,
            foveation_edge_ratio_y: foveation.edge_ratio_y,
            enable_color_correction: settings.video.color_correction.is_some(),
            brightness: color.brightness,
            contrast: color.contrast,
            saturation: color.saturation,
            gamma: color.gamma,
            sharpening: color.sharpening,
            enable_fec: settings.connection.enable_fec,
            linux_async_reprojection: settings.extra.linux_async_reprojection,
        };
        proof {
            assert(config.describes_headset(*settings, *negotiated));
            assert(config.describes_video(*settings, *negotiated));
            assert(config.describes_bitrate(*settings, *negotiated));
            assert(config.describes_controllers(*settings, *negotiated));
            assert(config.describes_image(*settings, *negotiated));
        }
        config
    }
}

impl OpenvrConfig {
    /// Whether every real among the fields on the headset is a number.
    pub open spec fn numbers_headset(self) -> bool {
        &&& !self.position_offset.x.is_nan()
        &&& !self.position_offset.y.is_nan()
        &&& !self.position_offset.z.is_nan()
    }

    /// Whether every real among the fields on the video stream is a number.
    pub open spec fn numbers_video(self) -> bool {
        &&& !self.seconds_from_vsync_to_photons.is_nan()
    }

    /// Whether every real among the fields on the adaptive bitrate is a number.
    pub open spec fn numbers_bitrate(self) -> bool {
        &&& !self.bitrate_light_load_threshold.is_nan()
    }

    /// Whether every real among the fields on the controllers is a number.
    pub open spec fn numbers_controllers(self) -> bool {
        &&& !self.steamvr_hmd_prediction_multiplier.is_nan()
        &&& !self.steamvr_ctrl_prediction_multiplier.is_nan()
        &&& !self.linear_velocity_cutoff.is_nan()
        &&& !self.angular_velocity_cutoff.is_nan()
        &&& !self.position_offset_left.x.is_nan()
        &&& !self.position_offset_left.y.is_nan()
        &&& !self.position_offset_left.z.is_nan()
        &&& !self.rotation_offset_left.x.is_nan()
        &&& !self.rotation_offset_left.y.is_nan()
        &&& !self.rotation_offset_left.z.is_nan()
        &&& !self.haptics_intensity.is_nan()
        &&& !self.haptics_amplitude_curve.is_nan()
        &&& !self.haptics_min_duration.is_nan()
        &&& !self.haptics_low_duration_amplitude_multiplier.is_nan()
        &&& !self.haptics_low_duration_range.is_nan()
    }

    /// Whether every real among the fields on foveation and color correction is a number.
    pub open spec fn numbers_image(self) -> bool {
        &&& !self.foveation_center_size_x.is_nan()
        &&& !self.foveation_center_size_y.is_nan()
        &&& !self.foveation_center_shift_x.is_nan()
        &&& !self.foveation_center_shift_y.is_nan()
        &&& !self.foveation_edge_ratio_x.is_nan()
        &&& !self.foveation_edge_ratio_y.is_nan()
        &&& !self.brightness.is_nan()
        &&& !self.contrast.is_nan()
        &&& !self.saturation.is_nan()
        &&& !self.gamma.is_nan()
        &&& !self.sharpening.is_nan()
    }

    /// Whether every real of the configuration is a number.
    pub open spec fn all_numbers(self) -> bool {
        &&& self.numbers_headset()
        &&& self.numbers_video()
        &&& self.numbers_bitrate()
        &&& self.numbers_controllers()
        &&& self.numbers_image()
    }

    /// Two configurations that the same settings and the same negotiated
    /// parameters call for match, unless one of their reals is no number. So
    /// a configuration that was stored is found unchanged as long as the
    /// settings and the headset stay as they are.
    pub proof fn lemma_same_settings_match(
        self,
        other: OpenvrConfig,
        settings: Settings,
        negotiated: Negotiated,
    )
        requires
            self.describes(settings, negotiated),
            other.describes(settings, negotiated),
            self.all_numbers(),
        ensures
            self.matches(other),
            other.matches(self),
    {
        assert(self.matches_headset(other) && other.matches_headset(self));
        assert(self.matches_video(other) && other.matches_video(self));
        assert(self.matches_bitrate(other) && other.matches_bitrate(self));
        assert(self.matches_controllers(other) && other.matches_controllers(self));
        assert(self.matches_image(other) && other.matches_image(self));
    }
}

} // verus!
