use alvr_core::scalar::Scalar;
use alvr_core::settings::AdaptiveBitrateDesc;
use alvr_core::settings::AudioSection;
use alvr_core::settings::CodecType;
use alvr_core::settings::ConnectionDesc;
use alvr_core::settings::ControllersDesc;
use alvr_core::settings::DiscoveryConfig;
use alvr_core::settings::ExtraDesc;
use alvr_core::settings::FoveatedRenderingDesc;
use alvr_core::settings::FrameSize;
use alvr_core::settings::GameAudioDesc;
use alvr_core::settings::HeadsetDesc;
use alvr_core::settings::LatencyUseFrametimeDesc;
use alvr_core::settings::Settings;
use alvr_core::settings::SocketProtocol;
use alvr_core::settings::Vector3;
use alvr_core::settings::VideoDesc;
use alvr_core::handshake::align32;
use alvr_core::handshake::candidate_ips;
use alvr_core::handshake::choose_refresh_rate;
use alvr_core::handshake::client_handshake;
use alvr_core::handshake::settle_handshake;
use alvr_core::handshake::HandshakeEvent;
use alvr_core::handshake::HandshakeTurn;
use alvr_core::handshake::client_version;
use alvr_core::handshake::closest_refresh_rate;
use alvr_core::handshake::connect_step;
use alvr_core::handshake::dashboard_url;
use alvr_core::handshake::game_audio_sample_rate;
use alvr_core::handshake::mbits_to_bytes;
use alvr_core::handshake::negotiate;
use alvr_core::handshake::negotiate_eye_size;
use alvr_core::handshake::refresh_rate_offered;
use alvr_core::handshake::scale_dimension;
use alvr_core::handshake::AudioProbe;
use alvr_core::handshake::ClientConnectionResult;
use alvr_core::handshake::ConnectStep;
use alvr_core::handshake::HandshakeError;
use alvr_core::handshake::HeadsetInfoPacket;
use alvr_core::handshake::CONTROL_CONNECT_RETRY_PAUSE_MS;
use alvr_core::openvr::Negotiated;
use alvr_core::openvr::OpenvrConfig;
use alvr_core::registry::ClientId;
use alvr_core::registry::ClientRegistry;
use alvr_core::registry::IpAddress;

fn scalar(value: f32) -> Scalar {
    Scalar::from_bits(value.to_bits())
}

fn vector(x: f32, y: f32, z: f32) -> Vector3 {
    Vector3 { x: scalar(x), y: scalar(y), z: scalar(z) }
}

fn controllers() -> ControllersDesc {
    ControllersDesc {
        mode_idx: 1,
        tracking_system_name: "oculus".to_string(),
        manufacturer_name: "Oculus".to_string(),
        model_number: "Miramar (Left Controller)".to_string(),
        render_model_name_left: "left_render".to_string(),
        render_model_name_right: "right_render".to_string(),
        serial_number: "1WMGH000XX0000_Controller".to_string(),
        ctrl_type_left: "oculus_touch".to_string(),
        ctrl_type_right: "oculus_touch".to_string(),
        registered_device_type: "oculus/1WMGH000XX0000_Controller".to_string(),
        input_profile_path: "{oculus}/input/touch_profile.json".to_string(),
        steamvr_hmd_prediction_multiplier: scalar(1.0),
        steamvr_ctrl_prediction_multiplier: scalar(1.2),
        linear_velocity_cutoff: scalar(0.01),
        angular_velocity_cutoff: scalar(10.0),
        position_offset_left: vector(-0.0065, 0.002, -0.051),
        rotation_offset_left: vector(40.0, 0.0, 0.0),
        haptics_intensity: scalar(1.0),
        haptics_amplitude_curve: scalar(0.4),
        haptics_min_duration: scalar(0.01),
        haptics_low_duration_amplitude_multiplier: scalar(2.5),
        haptics_low_duration_range: scalar(0.5),
        use_headset_tracking_system: false,
    }
}

fn settings() -> Settings {
    Settings {
        video: VideoDesc {
            adapter_index: 0,
            render_resolution: FrameSize::Scale(scalar(1.0)),
            recommended_target_resolution: FrameSize::Scale(scalar(1.0)),
            preferred_fps: scalar(72.0),
            codec: CodecType::H264,
            use_10bit_encoder: false,
            force_sw_encoding: false,
            sw_thread_count: 0,
            encode_bitrate_mbs: 30,
            adaptive_bitrate: Some(AdaptiveBitrateDesc {
                bitrate_maximum: 200,
                latency_target: 12000,
                latency_use_frametime: Some(LatencyUseFrametimeDesc {
                    latency_target_maximum: 30000,
                    latency_target_offset: -3,
                }),
                latency_threshold: 3000,
                bitrate_up_rate: 1,
                bitrate_down_rate: 3,
                bitrate_light_load_threshold: scalar(0.7),
            }),
            seconds_from_vsync_to_photons: scalar(0.005),
            foveated_rendering: Some(FoveatedRenderingDesc {
                center_size_x: scalar(0.4),
                center_size_y: scalar(0.35),
                center_shift_x: scalar(0.4),
                center_shift_y: scalar(0.1),
                edge_ratio_x: scalar(4.0),
                edge_ratio_y: scalar(5.0),
            }),
            color_correction: None,
        },
        audio: AudioSection {
            game_audio: Some(GameAudioDesc { mute_when_streaming: true }),
            microphone: false,
        },
        headset: HeadsetDesc {
            universe_id: 2,
            serial_number: "1WMGH000XX0000".to_string(),
            tracking_system_name: "oculus".to_string(),
            model_number: "Miramar".to_string(),
            driver_version: "1.55.0".to_string(),
            manufacturer_name: "Oculus".to_string(),
            render_model_name: "generic_hmd".to_string(),
            registered_device_type: "oculus/1WMGH000XX0000".to_string(),
            tracking_ref_only: false,
            enable_vive_tracker_proxy: false,
            force_3dof: false,
            controllers: Some(controllers()),
            position_offset: vector(0.0, 0.0, 0.0),
        },
        connection: ConnectionDesc {
            client_discovery: Some(DiscoveryConfig { auto_trust_clients: false }),
            web_server_port: 8082,
            stream_port: 9944,
            stream_protocol: SocketProtocol::Udp,
            on_connect_script: String::new(),
            on_disconnect_script: String::new(),
            enable_fec: true,
            aggressive_keyframe_resend: false,
            statistics_history_size: 256,
        },
        extra: ExtraDesc { linux_async_reprojection: false, log_button_presses: false },
    }
}

fn rates(values: &[f32]) -> Vec<Scalar> {
    values.iter().map(|value| scalar(*value)).collect()
}

fn headset(recommended_width: u32, recommended_height: u32, refresh_rates: &[f32]) -> HeadsetInfoPacket {
    HeadsetInfoPacket {
        recommended_eye_width: recommended_width,
        recommended_eye_height: recommended_height,
        available_refresh_rates: rates(refresh_rates),
        preferred_refresh_rate: scalar(*refresh_rates.last().unwrap_or(&60.0)),
        microphone_sample_rate: 44_100,
        reserved: "19.0.0".to_string(),
    }
}

fn working_probe() -> AudioProbe {
    AudioProbe {
        game_audio_device: Ok(()),
        microphone_device: Ok(()),
        same_device: false,
        sample_rate: Ok(48_000),
    }
}

fn negotiated() -> Negotiated {
    Negotiated {
        video_eye_width: 1824,
        video_eye_height: 1920,
        target_eye_width: 1824,
        target_eye_height: 1920,
        fps: scalar(72.0),
    }
}

#[test]
fn align32_rounds_down_to_a_multiple_of_32() {
    assert_eq!(align32(1832), 1824);
    assert_eq!(align32(1920), 1920);
    assert_eq!(align32(0), 0);
    assert_eq!(align32(31), 0);
    assert_eq!(align32(32), 32);
    assert_eq!(align32(63), 32);
}

#[test]
fn align32_stays_a_multiple_of_32_at_the_upper_end() {
    assert_eq!(align32(u32::MAX as u64), 4_294_967_264);
    assert_eq!(align32(u32::MAX as u64 + 1), 4_294_967_264);
    assert_eq!(align32(u64::MAX), 4_294_967_264);
    assert_eq!(align32(u64::MAX) % 32, 0);
}

#[test]
fn mbits_to_bytes_of_common_bitrates() {
    assert_eq!(mbits_to_bytes(0), 0);
    assert_eq!(mbits_to_bytes(1), 131_072);
    assert_eq!(mbits_to_bytes(30), 3_932_160);
    assert_eq!(mbits_to_bytes(40), 5_242_880);
}

#[test]
fn mbits_to_bytes_keeps_the_low_32_bits() {
    assert_eq!(mbits_to_bytes(32_767), 4_294_836_224);
    assert_eq!(mbits_to_bytes(32_768), 0);
    assert_eq!(mbits_to_bytes(32_769), 131_072);
    assert_eq!(mbits_to_bytes(u64::MAX), 4_294_836_224);
}

#[test]
fn tracking_resolution_rounding() {
    let eye = negotiate_eye_size(&FrameSize::Scale(scalar(1.0)), 1832, 1920);
    assert_eq!(eye, (1824, 1920));
}

#[test]
fn eye_size_applies_the_scale_before_rounding() {
    assert_eq!(negotiate_eye_size(&FrameSize::Scale(scalar(0.75)), 1832, 1920), (1344, 1440));
    assert_eq!(negotiate_eye_size(&FrameSize::Scale(scalar(0.7)), 1600, 3200), (1088, 2208));
    assert_eq!(negotiate_eye_size(&FrameSize::Scale(scalar(0.700_000_1)), 1600, 3200), (1120, 2240));
    assert_eq!(negotiate_eye_size(&FrameSize::Scale(scalar(2.0)), 1832, 1920), (3648, 3840));
    assert_eq!(negotiate_eye_size(&FrameSize::Scale(scalar(0.5)), 100, 63), (32, 0));
}

#[test]
fn eye_size_of_an_absolute_frame_is_half_its_width() {
    let size = FrameSize::Absolute { width: 3664, height: 1920 };
    assert_eq!(negotiate_eye_size(&size, 1, 1), (1824, 1920));
    let odd = FrameSize::Absolute { width: 129, height: 95 };
    assert_eq!(negotiate_eye_size(&odd, 5000, 5000), (64, 64));
}

#[test]
fn eye_size_of_a_scale_that_is_no_positive_number_is_zero() {
    assert_eq!(negotiate_eye_size(&FrameSize::Scale(scalar(f32::NAN)), 1832, 1920), (0, 0));
    assert_eq!(negotiate_eye_size(&FrameSize::Scale(scalar(-1.0)), 1832, 1920), (0, 0));
    assert_eq!(negotiate_eye_size(&FrameSize::Scale(scalar(0.0)), 1832, 1920), (0, 0));
}

#[test]
fn eye_size_of_a_huge_scale_is_the_largest_multiple_of_32() {
    let eye = negotiate_eye_size(&FrameSize::Scale(scalar(f32::INFINITY)), 1832, 1920);
    assert_eq!(eye, (4_294_967_264, 4_294_967_264));
    assert_eq!(scale_dimension(u32::MAX, scalar(f32::MAX)), 4_294_967_264);
    assert_eq!(scale_dimension(0, scalar(f32::MAX)), 0);
}

#[test]
fn every_negotiated_dimension_is_a_multiple_of_32() {
    let scales = [0.1_f32, 0.33, 0.5, 0.7, 0.75, 1.0, 1.25, 1.5, 1.77, 2.0, 3.3];
    let sizes = [0_u32, 1, 31, 640, 1440, 1832, 1920, 2064, 2208, 4096];
    for scale in scales {
        for width in sizes {
            let eye = negotiate_eye_size(&FrameSize::Scale(scalar(scale)), width, width + 7);
            assert_eq!(eye.0 % 32, 0);
            assert_eq!(eye.1 % 32, 0);
            assert!(eye.0 as f64 <= width as f64 * scale as f64);
            assert!(eye.0 as f64 > width as f64 * scale as f64 - 32.0);
        }
    }
}

#[test]
fn refresh_rate_negotiation() {
    let available = rates(&[60.0, 72.0, 80.0, 90.0]);
    let fps = choose_refresh_rate(&available, scalar(75.0));
    assert_eq!(fps, scalar(72.0));
    assert!(!refresh_rate_offered(&available, scalar(75.0)));
    assert_eq!(closest_refresh_rate(&available, scalar(75.0)), Some(1));
}

#[test]
fn refresh_rate_that_is_offered_is_chosen() {
    let available = rates(&[60.0, 72.0, 80.0, 90.0]);
    assert_eq!(choose_refresh_rate(&available, scalar(90.0)), scalar(90.0));
    assert!(refresh_rate_offered(&available, scalar(90.0)));
    assert_eq!(choose_refresh_rate(&available, scalar(60.0)), scalar(60.0));
    assert_eq!(choose_refresh_rate(&available, scalar(1000.0)), scalar(90.0));
    assert_eq!(choose_refresh_rate(&available, scalar(1.0)), scalar(60.0));
}

#[test]
fn refresh_rate_ties_go_to_the_first() {
    assert_eq!(choose_refresh_rate(&rates(&[70.0, 80.0]), scalar(75.0)), scalar(70.0));
    assert_eq!(choose_refresh_rate(&rates(&[80.0, 70.0]), scalar(75.0)), scalar(80.0));
    assert_eq!(closest_refresh_rate(&rates(&[90.0, 72.0, 72.0]), scalar(72.0)), Some(1));
}

#[test]
fn refresh_rate_without_a_choice_is_zero() {
    assert_eq!(choose_refresh_rate(&rates(&[]), scalar(72.0)), scalar(0.0));
    assert_eq!(closest_refresh_rate(&rates(&[]), scalar(72.0)), None);
    assert_eq!(choose_refresh_rate(&rates(&[60.0, 72.0]), scalar(f32::NAN)), scalar(0.0));
    assert_eq!(choose_refresh_rate(&rates(&[60.0]), scalar(f32::INFINITY)), scalar(0.0));
    assert_eq!(choose_refresh_rate(&rates(&[f32::NAN, f32::INFINITY]), scalar(72.0)), scalar(0.0));
}

#[test]
fn refresh_rates_that_are_no_numbers_are_passed_over() {
    let available = rates(&[f32::NAN, 120.0, f32::INFINITY, 90.0]);
    assert_eq!(choose_refresh_rate(&available, scalar(80.0)), scalar(90.0));
    assert_eq!(closest_refresh_rate(&available, scalar(80.0)), Some(3));
    assert!(!refresh_rate_offered(&rates(&[f32::NAN]), scalar(f32::NAN)));
}

#[test]
fn chosen_refresh_rate_is_closest_on_a_sweep() {
    let available = [59.94_f32, 60.0, 72.0, 80.0, 90.0, 120.0, 144.0];
    let mut preferred: f32 = 40.0;
    while preferred < 160.0 {
        let fps = choose_refresh_rate(&rates(&available), scalar(preferred));
        let chosen = f32::from_bits(fps.to_bits());
        for rate in available {
            let chosen_distance = (chosen as f64 - preferred as f64).abs();
            assert!(chosen_distance <= (rate as f64 - preferred as f64).abs());
        }
        preferred += 0.37;
    }
}

#[test]
fn negotiate_settles_both_sizes_and_the_rate() {
    let mut video = settings().video;
    video.render_resolution = FrameSize::Scale(scalar(0.75));
    video.recommended_target_resolution = FrameSize::Absolute { width: 4288, height: 2208 };
    video.preferred_fps = scalar(75.0);
    let result = negotiate(&video, &headset(1832, 1920, &[60.0, 72.0, 80.0, 90.0]));
    assert_eq!(result.video_eye_width, 1344);
    assert_eq!(result.video_eye_height, 1440);
    assert_eq!(result.target_eye_width, 2144);
    assert_eq!(result.target_eye_height, 2208);
    assert_eq!(result.fps, scalar(72.0));
}

#[test]
fn candidates_are_the_discovered_client_alone() {
    let mut registry = ClientRegistry::new();
    registry.add_if_missing("1234.client.alvr".to_string(), "Quest".to_string());
    registry.add_manual_ip(&"1234.client.alvr".to_string(), IpAddress::V4(0x0a00_0001));
    let found = Some(ClientId { hostname: "9999.client.alvr".to_string(), ip: IpAddress::V4(0xc0a8_0105) });
    assert_eq!(candidate_ips(&found, &registry), vec![IpAddress::V4(0xc0a8_0105)]);
}

#[test]
fn candidates_are_the_manual_addresses_of_all_clients() {
    let mut registry = ClientRegistry::new();
    let first = "1234.client.alvr".to_string();
    let second = "5678.client.alvr".to_string();
    registry.add_if_missing(first.clone(), "Quest".to_string());
    registry.add_if_missing(second.clone(), "Pico".to_string());
    registry.add_manual_ip(&first, IpAddress::V4(1));
    registry.add_manual_ip(&first, IpAddress::V4(2));
    registry.add_manual_ip(&second, IpAddress::V4(2));
    registry.add_manual_ip(&second, IpAddress::V6(3));
    let ips = candidate_ips(&None, &registry);
    assert_eq!(ips, vec![IpAddress::V4(1), IpAddress::V4(2), IpAddress::V6(3)]);
    assert_eq!(candidate_ips(&None, &ClientRegistry::new()), vec![]);
}

#[test]
fn connect_step_retries_after_silence_and_standby() {
    assert!(matches!(
        connect_step(None),
        ConnectStep::Retry { pause_ms: CONTROL_CONNECT_RETRY_PAUSE_MS }
    ));
    assert_eq!(CONTROL_CONNECT_RETRY_PAUSE_MS, 500);
    let standby = Some((IpAddress::V4(7), Ok(ClientConnectionResult::ClientStandby)));
    assert!(matches!(connect_step(standby), ConnectStep::Retry { pause_ms: 500 }));
}

#[test]
fn connect_step_proceeds_with_an_accepting_client() {
    let accepted = ClientConnectionResult::ServerAccepted {
        headset_info: headset(1832, 1920, &[72.0]),
        server_ip: IpAddress::V4(9),
    };
    match connect_step(Some((IpAddress::V4(7), Ok(accepted)))) {
        ConnectStep::Proceed { headset_info, client_ip, server_ip } => {
            assert_eq!(client_ip, IpAddress::V4(7));
            assert_eq!(server_ip, IpAddress::V4(9));
            assert_eq!(headset_info.recommended_eye_width, 1832);
            assert_eq!(headset_info.reserved, "19.0.0");
        }
        _ => panic!("the handshake should proceed"),
    }
}

#[test]
fn connect_step_fails_with_the_socket() {
    match connect_step(Some((IpAddress::V4(7), Err("reset by peer".to_string())))) {
        ConnectStep::Fail { cause } => assert_eq!(cause, "reset by peer"),
        _ => panic!("the handshake should fail"),
    }
}

#[test]
fn game_audio_rate_is_zero_without_game_audio() {
    let audio = AudioSection { game_audio: None, microphone: true };
    let probe = AudioProbe {
        game_audio_device: Err("no device".to_string()),
        microphone_device: Err("no device".to_string()),
        same_device: true,
        sample_rate: Err("no rate".to_string()),
    };
    assert!(matches!(game_audio_sample_rate(&audio, &probe), Ok(0)));
}

#[test]
fn game_audio_rate_is_that_of_the_device() {
    let audio = AudioSection { game_audio: Some(GameAudioDesc { mute_when_streaming: false }), microphone: true };
    assert!(matches!(game_audio_sample_rate(&audio, &working_probe()), Ok(48_000)));
}

#[test]
fn game_audio_errors_come_in_order() {
    let audio = AudioSection { game_audio: Some(GameAudioDesc { mute_when_streaming: false }), microphone: true };
    let mut probe = AudioProbe {
        game_audio_device: Err("output".to_string()),
        microphone_device: Err("input".to_string()),
        same_device: true,
        sample_rate: Err("rate".to_string()),
    };
    match game_audio_sample_rate(&audio, &probe) {
        Err(HandshakeError::GameAudioDevice(cause)) => assert_eq!(cause, "output"),
        _ => panic!("the output device comes first"),
    }
    probe.game_audio_device = Ok(());
    match game_audio_sample_rate(&audio, &probe) {
        Err(HandshakeError::MicrophoneDevice(cause)) => assert_eq!(cause, "input"),
        _ => panic!("the microphone device comes second"),
    }
    probe.microphone_device = Ok(());
    assert!(matches!(game_audio_sample_rate(&audio, &probe), Err(HandshakeError::SameAudioDevice)));
    probe.same_device = false;
    match game_audio_sample_rate(&audio, &probe) {
        Err(HandshakeError::GameAudioSampleRate(cause)) => assert_eq!(cause, "rate"),
        _ => panic!("the sample rate comes last"),
    }
}

#[test]
fn microphone_is_not_probed_while_it_is_off() {
    let audio = AudioSection { game_audio: Some(GameAudioDesc { mute_when_streaming: false }), microphone: false };
    let probe = AudioProbe {
        game_audio_device: Ok(()),
        microphone_device: Err("input".to_string()),
        same_device: true,
        sample_rate: Ok(44_100),
    };
    assert!(matches!(game_audio_sample_rate(&audio, &probe), Ok(44_100)));
}

#[test]
fn dashboard_url_names_address_and_port() {
    assert_eq!(dashboard_url("192.168.1.5", 8082), "http://192.168.1.5:8082/");
    assert_eq!(dashboard_url("::1", 0), "http://::1:0/");
    assert_eq!(dashboard_url("host", 65_535), "http://host:65535/");
}

#[test]
fn driver_configuration_takes_every_setting() {
    let config = OpenvrConfig::from_settings(&settings(), &negotiated());
    assert_eq!(config.universe_id, 2);
    assert_eq!(config.headset_serial_number, "1WMGH000XX0000");
    assert_eq!(config.headset_tracking_system_name, "oculus");
    assert_eq!(config.headset_model_number, "Miramar");
    assert_eq!(config.headset_driver_version, "1.55.0");
    assert_eq!(config.headset_manufacturer_name, "Oculus");
    assert_eq!(config.headset_render_model_name, "generic_hmd");
    assert_eq!(config.headset_registered_device_type, "oculus/1WMGH000XX0000");
    assert_eq!(config.eye_resolution_width, 1824);
    assert_eq!(config.eye_resolution_height, 1920);
    assert_eq!(config.target_eye_resolution_width, 1824);
    assert_eq!(config.target_eye_resolution_height, 1920);
    assert_eq!(config.seconds_from_vsync_to_photons, scalar(0.005));
    assert_eq!(config.codec, 0);
    assert_eq!(config.refresh_rate, 72);
    assert_eq!(config.encode_bitrate_mbs, 30);
    assert!(config.enable_adaptive_bitrate);
    assert_eq!(config.bitrate_maximum, 200);
    assert_eq!(config.latency_target, 12000);
    assert!(config.latency_use_frametime);
    assert_eq!(config.latency_target_maximum, 30000);
    assert_eq!(config.latency_target_offset, -3);
    assert_eq!(config.latency_threshold, 3000);
    assert_eq!(config.bitrate_up_rate, 1);
    assert_eq!(config.bitrate_down_rate, 3);
    assert_eq!(config.bitrate_light_load_threshold, scalar(0.7));
    assert!(config.controllers_enabled);
    assert_eq!(config.steamvr_hmd_prediction_multiplier, scalar(1.0));
    assert_eq!(config.steamvr_ctrl_prediction_multiplier, scalar(1.2));
    assert_eq!(config.controllers_mode_idx, 1);
    assert_eq!(config.controllers_tracking_system_name, "oculus");
    assert_eq!(config.controllers_manufacturer_name, "Oculus");
    assert_eq!(config.controllers_model_number, "Miramar (Left Controller)");
    assert_eq!(config.render_model_name_left_controller, "left_render");
    assert_eq!(config.render_model_name_right_controller, "right_render");
    assert_eq!(config.controllers_serial_number, "1WMGH000XX0000_Controller");
    assert_eq!(config.controllers_type_left, "oculus_touch");
    assert_eq!(config.controllers_type_right, "oculus_touch");
    assert_eq!(config.controllers_registered_device_type, "oculus/1WMGH000XX0000_Controller");
    assert_eq!(config.controllers_input_profile_path, "{oculus}/input/touch_profile.json");
    assert_eq!(config.position_offset_left, vector(-0.0065, 0.002, -0.051));
    assert_eq!(config.rotation_offset_left, vector(40.0, 0.0, 0.0));
    assert_eq!(config.haptics_low_duration_range, scalar(0.5));
    assert!(config.enable_foveated_rendering);
    assert_eq!(config.foveation_center_size_x, scalar(0.4));
    assert_eq!(config.foveation_edge_ratio_y, scalar(5.0));
    assert!(!config.enable_color_correction);
    assert_eq!(config.brightness, scalar(0.0));
    assert_eq!(config.sharpening, scalar(0.0));
    assert!(config.enable_fec);
    assert!(!config.linux_async_reprojection);
}

#[test]
fn driver_configuration_of_blocks_that_are_off_is_zero() {
    let mut off = settings();
    off.video.adaptive_bitrate = None;
    off.video.foveated_rendering = None;
    off.video.codec = CodecType::HEVC;
    off.headset.controllers = None;
    let config = OpenvrConfig::from_settings(&off, &negotiated());
    assert_eq!(config.codec, 1);
    assert!(!config.enable_adaptive_bitrate);
    assert_eq!(config.bitrate_maximum, 0);
    assert!(!config.latency_use_frametime);
    assert_eq!(config.latency_target_maximum, 0);
    assert_eq!(config.latency_target_offset, 0);
    assert_eq!(config.bitrate_light_load_threshold, scalar(0.0));
    assert!(!config.controllers_enabled);
    assert_eq!(config.controllers_mode_idx, 0);
    assert_eq!(config.controllers_tracking_system_name, "");
    assert_eq!(config.controllers_input_profile_path, "");
    assert_eq!(config.steamvr_hmd_prediction_multiplier, scalar(0.0));
    assert_eq!(config.position_offset_left, vector(0.0, 0.0, 0.0));
    assert!(!config.use_headset_tracking_system);
    assert!(!config.enable_foveated_rendering);
    assert_eq!(config.foveation_center_size_x, scalar(0.0));
}

#[test]
fn frametime_block_counts_only_inside_adaptive_bitrate() {
    let mut plain = settings();
    plain.video.adaptive_bitrate = Some(AdaptiveBitrateDesc {
        bitrate_maximum: 100,
        latency_target: 1,
        latency_use_frametime: None,
        latency_threshold: 2,
        bitrate_up_rate: 3,
        bitrate_down_rate: 4,
        bitrate_light_load_threshold: scalar(0.5),
    });
    let config = OpenvrConfig::from_settings(&plain, &negotiated());
    assert!(config.enable_adaptive_bitrate);
    assert!(!config.latency_use_frametime);
    assert_eq!(config.latency_target_maximum, 0);
    assert_eq!(config.bitrate_maximum, 100);
}

#[test]
fn driver_configurations_compare_field_by_field() {
    let first = OpenvrConfig::from_settings(&settings(), &negotiated());
    let second = OpenvrConfig::from_settings(&settings(), &negotiated());
    assert!(first.same_as(&second));
    let mut changed = settings();
    changed.video.encode_bitrate_mbs = 40;
    assert!(!first.same_as(&OpenvrConfig::from_settings(&changed, &negotiated())));
    let mut renamed = settings();
    renamed.headset.serial_number = "other".to_string();
    assert!(!first.same_as(&OpenvrConfig::from_settings(&renamed, &negotiated())));
    let mut recolored = settings();
    recolored.video.seconds_from_vsync_to_photons = scalar(0.006);
    assert!(!first.same_as(&OpenvrConfig::from_settings(&recolored, &negotiated())));
    let mut other_rate = negotiated();
    other_rate.fps = scalar(90.0);
    assert!(!first.same_as(&OpenvrConfig::from_settings(&settings(), &other_rate)));
}

#[test]
fn driver_configurations_compare_reals_as_numbers() {
    let mut positive = settings();
    positive.headset.position_offset = vector(0.0, 0.0, 0.0);
    let mut negative = settings();
    negative.headset.position_offset = vector(-0.0, 0.0, -0.0);
    let first = OpenvrConfig::from_settings(&positive, &negotiated());
    let second = OpenvrConfig::from_settings(&negative, &negotiated());
    assert!(first.same_as(&second));
    let mut undefined = settings();
    undefined.video.seconds_from_vsync_to_photons = scalar(f32::NAN);
    let third = OpenvrConfig::from_settings(&undefined, &negotiated());
    let fourth = OpenvrConfig::from_settings(&undefined, &negotiated());
    assert!(!third.same_as(&fourth));
}

#[test]
fn config_unchanged_reconnect() {
    let info = headset(1832, 1920, &[60.0, 72.0, 80.0, 90.0]);
    let current = settings();
    let last = OpenvrConfig::from_settings(&current, &negotiate(&current.video, &info));
    let plan = settle_handshake(&info, "192.168.1.5", &current, "{}".to_string(), &last, &working_probe());
    let plan = match plan {
        Ok(plan) => plan,
        Err(_) => panic!("the handshake should succeed"),
    };
    assert!(!plan.restart);
    assert!(plan.refresh_rate_supported);
    assert!(plan.openvr_config.same_as(&last));
    assert_eq!(plan.microphone_sample_rate, 44_100);
}

#[test]
fn config_changed_reconnect() {
    let info = headset(1832, 1920, &[60.0, 72.0, 80.0, 90.0]);
    let before = settings();
    let last = OpenvrConfig::from_settings(&before, &negotiate(&before.video, &info));
    let mut after = settings();
    after.video.encode_bitrate_mbs = 40;
    let plan = settle_handshake(&info, "192.168.1.5", &after, "{}".to_string(), &last, &working_probe());
    let plan = match plan {
        Ok(plan) => plan,
        Err(_) => panic!("the handshake should succeed"),
    };
    assert!(plan.restart);
    assert_eq!(plan.openvr_config.encode_bitrate_mbs, 40);
    assert_eq!(last.encode_bitrate_mbs, 30);
    let again = settle_handshake(
        &info,
        "192.168.1.5",
        &after,
        "{}".to_string(),
        &plan.openvr_config,
        &working_probe(),
    );
    match again {
        Ok(next) => assert!(!next.restart),
        Err(_) => panic!("the handshake should succeed"),
    }
}

#[test]
fn handshake_writes_the_packet_for_the_client() {
    let info = headset(1832, 1920, &[60.0, 72.0, 80.0, 90.0]);
    let mut current = settings();
    current.video.preferred_fps = scalar(75.0);
    let last = OpenvrConfig::from_settings(&settings(), &negotiated());
    let plan = settle_handshake(
        &info,
        "10.0.0.2",
        &current,
        "{\"session\":1}".to_string(),
        &last,
        &working_probe(),
    );
    let plan = match plan {
        Ok(plan) => plan,
        Err(_) => panic!("the handshake should succeed"),
    };
    assert_eq!(plan.client_config.fps, scalar(72.0));
    assert!(!plan.refresh_rate_supported);
    assert_eq!(plan.client_config.view_resolution_width, 1824);
    assert_eq!(plan.client_config.view_resolution_height, 1920);
    assert_eq!(plan.client_config.session_desc, "{\"session\":1}");
    assert_eq!(plan.client_config.dashboard_url, "http://10.0.0.2:8082/");
    assert_eq!(plan.client_config.game_audio_sample_rate, 48_000);
    assert_eq!(plan.client_config.reserved, "");
    assert_eq!(plan.openvr_config.refresh_rate, 72);
    assert_eq!(plan.openvr_config.eye_resolution_width, 1824);
}

#[test]
fn handshake_ends_where_audio_cannot_be_set_up() {
    let info = headset(1832, 1920, &[72.0]);
    let mut current = settings();
    current.audio.microphone = true;
    let last = OpenvrConfig::from_settings(&settings(), &negotiated());
    let mut probe = working_probe();
    probe.same_device = true;
    let result = settle_handshake(&info, "10.0.0.2", &current, String::new(), &last, &probe);
    assert!(matches!(result, Err(HandshakeError::SameAudioDevice)));
    current.audio.game_audio = None;
    let quiet = settle_handshake(&info, "10.0.0.2", &current, String::new(), &last, &probe);
    match quiet {
        Ok(plan) => assert_eq!(plan.client_config.game_audio_sample_rate, 0),
        Err(_) => panic!("without game audio nothing is probed"),
    }
}

#[test]
fn handshake_errors_have_their_texts() {
    assert_eq!(HandshakeError::GameAudioDevice("no output".to_string()).message(), "no output");
    assert_eq!(HandshakeError::MicrophoneDevice("no input".to_string()).message(), "no input");
    assert_eq!(HandshakeError::GameAudioSampleRate("no rate".to_string()).message(), "no rate");
    assert_eq!(
        HandshakeError::SameAudioDevice.message(),
        "Game audio and microphone cannot point to the same device!"
    );
}

#[test]
fn versions_are_read_by_their_parts() {
    let plain = client_version("19.0.0").unwrap();
    assert_eq!((plain.major, plain.minor, plain.patch), (19, 0, 0));
    assert_eq!(plain.pre, "");
    assert_eq!(plain.build, "");
    let full = client_version("1.2.3-beta.1+build.5").unwrap();
    assert_eq!((full.major, full.minor, full.patch), (1, 2, 3));
    assert_eq!(full.pre, "beta.1");
    assert_eq!(full.build, "build.5");
}

#[test]
fn texts_that_are_no_versions_are_none() {
    for text in ["", "19", "19.0", "19.0.01", "v19.0.0", "19.0.0-", "1.0.unknown", "99999999999999999999.0.0"] {
        assert!(client_version(text).is_none());
    }
}

#[test]
fn handshake_hands_on_the_version_of_the_client() {
    let last = OpenvrConfig::from_settings(&settings(), &negotiated());
    let mut info = headset(1832, 1920, &[72.0]);
    info.reserved = "20.1.0-dev02".to_string();
    let plan = settle_handshake(&info, "10.0.0.2", &settings(), String::new(), &last, &working_probe());
    let version = match plan {
        Ok(plan) => plan.client_config.server_version,
        Err(_) => panic!("the handshake should succeed"),
    };
    let version = version.unwrap();
    assert_eq!((version.major, version.minor, version.patch), (20, 1, 0));
    assert_eq!(version.pre, "dev02");
    info.reserved = "unknown".to_string();
    let plan = settle_handshake(&info, "10.0.0.2", &settings(), String::new(), &last, &working_probe());
    match plan {
        Ok(plan) => assert!(plan.client_config.server_version.is_none()),
        Err(_) => panic!("the handshake should succeed"),
    }
}

#[test]
fn a_scale_below_one_never_gives_the_full_size() {
    let scale = Scalar::from_bits(0x3f7f_ff58);
    assert_eq!(negotiate_eye_size(&FrameSize::Scale(scale), 1856, 1856), (1824, 1824));
    assert_eq!(negotiate_eye_size(&FrameSize::Scale(scalar(1.0)), 1856, 1856), (1856, 1856));
    let below = Scalar::from_bits(0x3f7f_ffff);
    assert_eq!(negotiate_eye_size(&FrameSize::Scale(below), 32, 4_294_967_264), (0, 4_294_967_008));
}

#[test]
fn rates_that_differ_are_never_equally_close() {
    let near = Scalar::from_bits(0x4295_ffcc);
    let available = vec![near, scalar(75.0)];
    assert_eq!(choose_refresh_rate(&available, scalar(75.0)), scalar(75.0));
    assert_eq!(closest_refresh_rate(&available, scalar(75.0)), Some(1));
    assert!(refresh_rate_offered(&available, scalar(75.0)));
    let next = Scalar::from_bits(75.0_f32.to_bits() + 1);
    let before = Scalar::from_bits(75.0_f32.to_bits() - 2);
    assert_eq!(choose_refresh_rate(&vec![before, next], scalar(75.0)), next);
    assert_eq!(choose_refresh_rate(&vec![next, before], scalar(75.0)), next);
    let as_far = Scalar::from_bits(75.0_f32.to_bits() - 1);
    assert_eq!(choose_refresh_rate(&vec![as_far, next], scalar(75.0)), as_far);
    assert_eq!(choose_refresh_rate(&vec![next, as_far], scalar(75.0)), next);
}

#[test]
fn rates_are_compared_over_the_whole_range() {
    let available = rates(&[f32::MAX, -f32::MAX, 1.0e-45, -1.0e-45, 3.0e38]);
    assert_eq!(choose_refresh_rate(&available, scalar(0.0)), scalar(1.0e-45));
    assert_eq!(choose_refresh_rate(&available, scalar(-0.0)), scalar(1.0e-45));
    assert_eq!(choose_refresh_rate(&available, scalar(f32::MAX)), scalar(f32::MAX));
    assert_eq!(choose_refresh_rate(&available, scalar(3.2e38)), scalar(3.0e38));
    assert_eq!(choose_refresh_rate(&available, scalar(-1.0e30)), scalar(-1.0e-45));
    assert_eq!(choose_refresh_rate(&rates(&[-2.0, 2.0]), scalar(0.0)), scalar(-2.0));
    assert_eq!(choose_refresh_rate(&rates(&[-2.0, 2.0]), scalar(1.0e-45)), scalar(2.0));
    assert_eq!(choose_refresh_rate(&rates(&[f32::MAX, -f32::MAX]), scalar(-1.0e-45)), scalar(-f32::MAX));
}

fn registry_with_manual_ips() -> ClientRegistry {
    let mut registry = ClientRegistry::new();
    let first = "1234.client.alvr".to_string();
    let second = "5678.client.alvr".to_string();
    registry.add_if_missing(first.clone(), "Quest".to_string());
    registry.add_if_missing(second.clone(), "Pico".to_string());
    registry.add_manual_ip(&first, IpAddress::V4(1));
    registry.add_manual_ip(&second, IpAddress::V4(2));
    registry.add_manual_ip(&second, IpAddress::V4(1));
    registry
}

fn turn(trusted: &Option<ClientId>, registry: &ClientRegistry, event: HandshakeEvent) -> HandshakeTurn {
    let last = OpenvrConfig::from_settings(&settings(), &negotiated());
    client_handshake(trusted, registry, event, "10.0.0.2", &settings(), "{}".to_string(), &last, &working_probe())
}

#[test]
fn the_handshake_begins_at_the_manual_addresses() {
    let registry = registry_with_manual_ips();
    match turn(&None, &registry, HandshakeEvent::Begin) {
        HandshakeTurn::Connect { candidates, pause_ms } => {
            assert_eq!(candidates, vec![IpAddress::V4(1), IpAddress::V4(2)]);
            assert_eq!(pause_ms, 0);
        }
        _ => panic!("the handshake begins by connecting"),
    }
    assert_eq!(registry.len(), 2);
}

#[test]
fn the_handshake_begins_at_the_discovered_client() {
    let registry = registry_with_manual_ips();
    let found = Some(ClientId { hostname: "9999.client.alvr".to_string(), ip: IpAddress::V4(9) });
    match turn(&found, &registry, HandshakeEvent::Begin) {
        HandshakeTurn::Connect { candidates, pause_ms } => {
            assert_eq!(candidates, vec![IpAddress::V4(9)]);
            assert_eq!(pause_ms, 0);
        }
        _ => panic!("the handshake begins by connecting"),
    }
}

#[test]
fn silence_and_standby_lead_to_a_retry_after_half_a_second() {
    let registry = registry_with_manual_ips();
    let attempts = vec![
        None,
        Some((IpAddress::V4(1), Ok(ClientConnectionResult::ClientStandby))),
    ];
    for attempt in attempts {
        match turn(&None, &registry, HandshakeEvent::Attempted { attempt }) {
            HandshakeTurn::Connect { candidates, pause_ms } => {
                assert_eq!(candidates, vec![IpAddress::V4(1), IpAddress::V4(2)]);
                assert_eq!(pause_ms, 500);
            }
            _ => panic!("the handshake tries again"),
        }
    }
}

#[test]
fn a_failing_control_socket_ends_the_handshake() {
    let registry = registry_with_manual_ips();
    let attempt = Some((IpAddress::V4(1), Err("reset by peer".to_string())));
    match turn(&None, &registry, HandshakeEvent::Attempted { attempt }) {
        HandshakeTurn::Failed { cause } => assert_eq!(cause, "reset by peer"),
        _ => panic!("the handshake fails"),
    }
}

#[test]
fn an_accepting_client_has_the_handshake_settled() {
    let registry = registry_with_manual_ips();
    let accepted = ClientConnectionResult::ServerAccepted {
        headset_info: headset(1832, 1920, &[60.0, 72.0, 90.0]),
        server_ip: IpAddress::V4(0x0a00_0002),
    };
    let attempt = Some((IpAddress::V4(2), Ok(accepted)));
    match turn(&None, &registry, HandshakeEvent::Attempted { attempt }) {
        HandshakeTurn::Settled { client_ip, result: Ok(plan) } => {
            assert_eq!(client_ip, IpAddress::V4(2));
            assert_eq!(plan.client_config.fps, scalar(72.0));
            assert_eq!(plan.client_config.view_resolution_width, 1824);
            assert_eq!(plan.client_config.dashboard_url, "http://10.0.0.2:8082/");
            assert_eq!(plan.client_config.session_desc, "{}");
            assert!(!plan.restart);
            assert_eq!(plan.microphone_sample_rate, 44_100);
        }
        _ => panic!("the handshake is settled"),
    }
}

#[test]
fn an_accepting_client_is_refused_where_audio_cannot_be_set_up() {
    let registry = registry_with_manual_ips();
    let accepted = ClientConnectionResult::ServerAccepted {
        headset_info: headset(1832, 1920, &[72.0]),
        server_ip: IpAddress::V4(0x0a00_0002),
    };
    let last = OpenvrConfig::from_settings(&settings(), &negotiated());
    let mut probe = working_probe();
    probe.game_audio_device = Err("no output".to_string());
    let result = client_handshake(
        &None,
        &registry,
        HandshakeEvent::Attempted { attempt: Some((IpAddress::V4(2), Ok(accepted))) },
        "10.0.0.2",
        &settings(),
        String::new(),
        &last,
        &probe,
    );
    match result {
        HandshakeTurn::Settled { client_ip, result: Err(HandshakeError::GameAudioDevice(cause)) } => {
            assert_eq!(client_ip, IpAddress::V4(2));
            assert_eq!(cause, "no output");
        }
        _ => panic!("the handshake is refused"),
    }
}
