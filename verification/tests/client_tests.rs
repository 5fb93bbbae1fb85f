use alvr_core::client::alvr_destroy;
use alvr_core::client::alvr_get_prediction_offset_ns;
use alvr_core::client::alvr_initialize;
use alvr_core::client::alvr_log;
use alvr_core::client::alvr_log_time;
use alvr_core::client::alvr_pause;
use alvr_core::client::alvr_poll_event;
use alvr_core::client::alvr_render_lobby;
use alvr_core::client::alvr_report_frame_decoded;
use alvr_core::client::alvr_report_submit;
use alvr_core::client::alvr_request_idr;
use alvr_core::client::alvr_resume;
use alvr_core::client::alvr_send_battery;
use alvr_core::client::alvr_send_button;
use alvr_core::client::alvr_send_playspace;
use alvr_core::client::alvr_send_tracking;
use alvr_core::client::alvr_send_views_config;
use alvr_core::client::from_oculus_hand;
use alvr_core::client::AlvrButtonValue;
use alvr_core::client::AlvrCodec;
use alvr_core::client::AlvrDeviceMotion;
use alvr_core::client::AlvrEvent;
use alvr_core::client::AlvrEyeInput;
use alvr_core::client::AlvrLogLevel;
use alvr_core::client::ClientCore;
use alvr_core::client::EyeFov;
use alvr_core::client::EyeInput;
use alvr_core::client::SubmitOutcome;
use alvr_core::control::BatteryPacket;
use alvr_core::control::ButtonValue;
use alvr_core::control::ClientControlPacket;
use alvr_core::control::Fov;
use alvr_core::control::ViewsConfig;
use alvr_core::scalar::Scalar;
use alvr_core::settings::Vector3;
use alvr_core::statistics::ClientStatistics;
use alvr_core::storage::Config;
use alvr_core::statistics::StatisticsManager;
use alvr_core::streams::tracking_receive;
use alvr_core::streams::AlvrQuat;
use alvr_core::streams::DeviceMotion;
use alvr_core::streams::OculusHand;
use alvr_core::streams::TrackedDevice;

fn scalar(value: f32) -> Scalar {
    Scalar::from_bits(value.to_bits())
}

fn vector(x: f32, y: f32, z: f32) -> Vector3 {
    Vector3 { x: scalar(x), y: scalar(y), z: scalar(z) }
}

fn quat(value: f32) -> AlvrQuat {
    AlvrQuat { x: scalar(value), y: scalar(0.0), z: scalar(-value), w: scalar(1.0) }
}

fn started(use_opengl: bool) -> ClientCore {
    let rates = vec![scalar(72.0), scalar(90.0)];
    alvr_initialize(None, 7, 1832, 1920, rates, use_opengl, false, 48_000, "19.0.0".to_string()).0
}

fn connected() -> ClientCore {
    let mut core = started(true);
    core.control_sender = true;
    core.tracking_sender = true;
    core.statistics_sender = true;
    core.is_streaming = true;
    core.statistics = Some(StatisticsManager::new(16));
    core
}

fn hand(enabled: bool) -> OculusHand {
    let mut bone_rotations = [quat(0.0); 19];
    for (place, rotation) in bone_rotations.iter_mut().enumerate() {
        *rotation = quat(place as f32 + 0.5);
    }
    OculusHand { enabled, bone_rotations }
}

fn device(device_id: u64, seed: f32) -> AlvrDeviceMotion {
    AlvrDeviceMotion {
        device_id,
        orientation: quat(seed),
        position: vector(seed, 1.0, 2.0),
        linear_velocity: vector(3.0, seed, 4.0),
        angular_velocity: vector(5.0, 6.0, seed),
    }
}

#[test]
fn initialize_describes_the_headset() {
    let rates = vec![scalar(60.0), scalar(72.0), scalar(90.0)];
    let (core, info, _, _) =
        alvr_initialize(None, 7, 1832, 1920, rates.clone(), true, true, 44_100, "19.0.0".to_string());
    assert_eq!(info.recommended_eye_width, 1832);
    assert_eq!(info.recommended_eye_height, 1920);
    assert_eq!(info.available_refresh_rates, rates);
    assert_eq!(info.preferred_refresh_rate, scalar(90.0));
    assert_eq!(info.microphone_sample_rate, 44_100);
    assert_eq!(info.reserved, "19.0.0");
    assert!(core.running);
    assert!(core.use_opengl);
    assert!(core.external_decoder);
    assert_eq!((core.preferred_width, core.preferred_height), (1832, 1920));
}

#[test]
fn initialize_prefers_sixty_without_rates() {
    let (_, info, _, _) = alvr_initialize(None, 7, 100, 200, vec![], false, false, 0, String::new());
    assert_eq!(info.preferred_refresh_rate, scalar(60.0));
    assert!(info.available_refresh_rates.is_empty());
}

#[test]
fn initialize_starts_clean() {
    let core = started(false);
    assert!(core.statistics.is_none());
    assert!(core.events.is_empty());
    assert!(!core.is_resumed);
    assert!(!core.is_streaming);
    assert!(!core.control_sender);
    assert!(!core.tracking_sender);
    assert!(!core.statistics_sender);
}

#[test]
fn destroy_silences_the_client() {
    let mut core = connected();
    assert!(alvr_destroy(&mut core));
    assert!(!core.running);
    assert!(core.statistics.is_none());
    assert!(!core.is_streaming);
    assert_eq!(alvr_request_idr(&core), None);
    assert_eq!(alvr_send_battery(&core, 1, scalar(0.5), false), None);
    assert_eq!(alvr_send_playspace(&core, scalar(3.0), scalar(3.0)), None);
    assert_eq!(alvr_send_button(&core, 1, AlvrButtonValue::Binary(true)), None);
    assert!(alvr_send_tracking(&core, 1, &vec![device(1, 0.0)], &hand(true), &hand(true)).is_none());
    assert_eq!(alvr_report_submit(&mut core, 1, 0, 0), SubmitOutcome::Idle);
    assert_eq!(alvr_get_prediction_offset_ns(&core), 0);
}

#[test]
fn destroy_is_idempotent() {
    let mut core = connected();
    core.push_event(AlvrEvent::NalReady);
    alvr_destroy(&mut core);
    let once = (
        core.running,
        core.statistics.is_none(),
        core.is_streaming,
        core.control_sender,
        core.tracking_sender,
        core.statistics_sender,
        core.events.len(),
        core.use_opengl,
    );
    alvr_destroy(&mut core);
    let twice = (
        core.running,
        core.statistics.is_none(),
        core.is_streaming,
        core.control_sender,
        core.tracking_sender,
        core.statistics_sender,
        core.events.len(),
        core.use_opengl,
    );
    assert_eq!(once, twice);
    assert_eq!(once, (false, true, false, false, false, false, 1, true));
}

#[test]
fn initialize_after_destroy_starts_clean() {
    let mut core = connected();
    core.push_event(AlvrEvent::StreamingStopped);
    alvr_destroy(&mut core);
    let core = started(true);
    assert!(core.running);
    assert!(core.events.is_empty());
    assert!(core.statistics.is_none());
    assert!(!core.control_sender && !core.tracking_sender && !core.statistics_sender);
}

#[test]
fn resume_and_pause_follow_the_host() {
    let mut core = started(true);
    assert_eq!(alvr_resume(&mut core), Some((1832, 1920)));
    assert!(core.is_resumed);
    assert!(alvr_pause(&mut core));
    assert!(!core.is_resumed);
    let mut plain = started(false);
    assert_eq!(alvr_resume(&mut plain), None);
    assert!(plain.is_resumed);
    assert!(!alvr_pause(&mut plain));
    assert!(!alvr_destroy(&mut plain));
}

#[test]
fn events_are_polled_in_order() {
    let mut core = started(false);
    assert_eq!(alvr_poll_event(&mut core), None);
    let first = AlvrEvent::CreateDecoder { codec: AlvrCodec::H265 };
    let second = AlvrEvent::StreamingStarted {
        view_width: 1824,
        view_height: 1920,
        fps: scalar(72.0),
        oculus_foveation_level: 2,
        dynamic_oculus_foveation: true,
        extra_latency: false,
        controller_prediction_multiplier: scalar(1.0),
    };
    let third = AlvrEvent::Haptics {
        device_id: 3,
        duration_s: scalar(0.1),
        frequency: scalar(200.0),
        amplitude: scalar(0.7),
    };
    core.push_event(first);
    core.push_event(second);
    core.push_event(third);
    core.push_event(AlvrEvent::NalReady);
    assert_eq!(alvr_poll_event(&mut core), Some(first));
    assert_eq!(alvr_poll_event(&mut core), Some(second));
    core.push_event(AlvrEvent::StreamingStopped);
    assert_eq!(alvr_poll_event(&mut core), Some(third));
    assert_eq!(alvr_poll_event(&mut core), Some(AlvrEvent::NalReady));
    assert_eq!(alvr_poll_event(&mut core), Some(AlvrEvent::StreamingStopped));
    assert_eq!(alvr_poll_event(&mut core), None);
}

#[test]
fn control_packets_need_a_sender() {
    let core = started(false);
    let fov = EyeFov { left: scalar(-1.0), right: scalar(1.0), top: scalar(0.9), bottom: scalar(-0.9) };
    assert_eq!(alvr_send_views_config(&core, fov, fov, scalar(0.063)), None);
    assert_eq!(alvr_send_battery(&core, 1, scalar(0.5), true), None);
    assert_eq!(alvr_send_playspace(&core, scalar(2.0), scalar(3.0)), None);
    assert_eq!(alvr_send_button(&core, 9, AlvrButtonValue::Scalar(scalar(0.3))), None);
    assert_eq!(alvr_request_idr(&core), None);
}

#[test]
fn control_packets_carry_what_the_host_gave() {
    let core = connected();
    let left = EyeFov { left: scalar(-1.0), right: scalar(0.8), top: scalar(0.9), bottom: scalar(-0.95) };
    let right = EyeFov { left: scalar(-0.8), right: scalar(1.0), top: scalar(0.91), bottom: scalar(-0.96) };
    assert_eq!(
        alvr_send_views_config(&core, left, right, scalar(0.063)),
        Some(ClientControlPacket::ViewsConfig(ViewsConfig {
            left_fov: Fov { left: scalar(-1.0), right: scalar(0.8), top: scalar(0.9), bottom: scalar(-0.95) },
            right_fov: Fov { left: scalar(-0.8), right: scalar(1.0), top: scalar(0.91), bottom: scalar(-0.96) },
            ipd_m: scalar(0.063),
        }))
    );
    assert_eq!(
        alvr_send_battery(&core, 7, scalar(0.25), true),
        Some(ClientControlPacket::Battery(BatteryPacket {
            device_id: 7,
            gauge_value: scalar(0.25),
            is_plugged: true,
        }))
    );
    assert_eq!(
        alvr_send_playspace(&core, scalar(2.5), scalar(3.5)),
        Some(ClientControlPacket::PlayspaceSync { width: scalar(2.5), height: scalar(3.5) })
    );
    assert_eq!(
        alvr_send_button(&core, 9, AlvrButtonValue::Binary(true)),
        Some(ClientControlPacket::Button { path_id: 9, value: ButtonValue::Binary(true) })
    );
    assert_eq!(
        alvr_send_button(&core, 10, AlvrButtonValue::Scalar(scalar(0.3))),
        Some(ClientControlPacket::Button { path_id: 10, value: ButtonValue::Scalar(scalar(0.3)) })
    );
    assert_eq!(alvr_request_idr(&core), Some(ClientControlPacket::RequestIdr));
}

#[test]
fn lobby_eyes_are_handed_on() {
    let fov = EyeFov { left: scalar(-1.0), right: scalar(0.8), top: scalar(0.9), bottom: scalar(-0.95) };
    let left = AlvrEyeInput { orientation: quat(0.1), position: vector(-0.03, 1.6, 0.0), fov };
    let right = AlvrEyeInput { orientation: quat(0.2), position: vector(0.03, 1.6, 0.0), fov };
    let (first, second) = alvr_render_lobby(left, right);
    assert_eq!(
        first,
        EyeInput {
            orientation: quat(0.1),
            position: vector(-0.03, 1.6, 0.0),
            fov_left: scalar(-1.0),
            fov_right: scalar(0.8),
            fov_top: scalar(0.9),
            fov_bottom: scalar(-0.95),
        }
    );
    assert_eq!(second.orientation, quat(0.2));
    assert_eq!(second.position, vector(0.03, 1.6, 0.0));
}

#[test]
fn tracking_needs_a_sender() {
    let core = started(false);
    assert!(alvr_send_tracking(&core, 5, &vec![device(1, 0.0)], &hand(true), &hand(false)).is_none());
}

#[test]
fn tracking_carries_motions_and_hands() {
    let core = connected();
    let motions = vec![device(0x10, 0.5), device(0x20, 1.5), device(0x30, 2.5)];
    let frame = alvr_send_tracking(&core, 987_654_321, &motions, &hand(true), &hand(false)).unwrap();
    assert_eq!(frame.target_timestamp_ns, 987_654_321);
    assert_eq!(frame.device_motions.len(), 3);
    assert_eq!(
        frame.device_motions[1],
        TrackedDevice {
            device_id: 0x20,
            motion: DeviceMotion {
                orientation: quat(1.5),
                position: vector(1.5, 1.0, 2.0),
                linear_velocity: vector(3.0, 1.5, 4.0),
                angular_velocity: vector(5.0, 6.0, 1.5),
            },
        }
    );
    assert_eq!(frame.device_motions[0].device_id, 0x10);
    assert_eq!(frame.device_motions[2].device_id, 0x30);
    assert_eq!(frame.left_hand_skeleton, Some(hand(true).bone_rotations));
    assert_eq!(frame.right_hand_skeleton, None);
    assert_eq!(from_oculus_hand(&hand(false)), None);
    assert_eq!(from_oculus_hand(&hand(true)), Some(hand(true).bone_rotations));
}

#[test]
fn tracking_reaches_the_driver_with_timestamp_and_count() {
    let core = connected();
    let head: u64 = 0x10;
    let motions = vec![device(0x20, 0.5), device(head, 1.5), device(0x30, 2.5)];
    let frame = alvr_send_tracking(&core, 555, &motions, &hand(false), &hand(true)).unwrap();

    let mut server = StatisticsManager::new(8);
    let both = alvr_core::settings::HeadsetDesc {
        universe_id: 2,
        serial_number: String::new(),
        tracking_system_name: String::new(),
        model_number: String::new(),
        driver_version: String::new(),
        manufacturer_name: String::new(),
        render_model_name: String::new(),
        registered_device_type: String::new(),
        tracking_ref_only: true,
        enable_vive_tracker_proxy: false,
        force_3dof: false,
        controllers: None,
        position_offset: vector(0.0, 0.0, 0.0),
    };
    let call = tracking_receive(&mut server, &frame, head, &both, 1);
    assert_eq!(call.target_timestamp_ns, 555);
    assert_eq!(call.motions.len(), 1);
    assert_eq!(call.motions[0].device_id, head);
    assert!(call.motions[0].is_head);
    assert!(!call.left_hand.enabled);
    assert!(call.right_hand.enabled);
    assert_eq!(call.right_hand.bone_rotations, hand(true).bone_rotations);
}

#[test]
fn prediction_offset_is_zero_without_frames() {
    let mut core = started(false);
    assert_eq!(alvr_get_prediction_offset_ns(&core), 0);
    core.statistics = Some(StatisticsManager::new(16));
    assert_eq!(alvr_get_prediction_offset_ns(&core), 0);
    alvr_report_frame_decoded(&mut core, 1, 100);
    assert_eq!(alvr_get_prediction_offset_ns(&core), 0);
}

#[test]
fn prediction_offset_is_the_mean_latency() {
    let mut core = connected();
    alvr_report_frame_decoded(&mut core, 1, 1_000);
    alvr_report_submit(&mut core, 1, 500, 4_000);
    assert_eq!(alvr_get_prediction_offset_ns(&core), 3_500);
    alvr_report_frame_decoded(&mut core, 2, 10_000);
    alvr_report_submit(&mut core, 2, 500, 15_000);
    assert_eq!(alvr_get_prediction_offset_ns(&core), 4_500);
}

#[test]
fn submit_makes_up_the_report() {
    let mut core = connected();
    alvr_report_frame_decoded(&mut core, 42, 1_000);
    let outcome = alvr_report_submit(&mut core, 42, 500, 4_000);
    assert_eq!(
        outcome,
        SubmitOutcome::Send {
            report: ClientStatistics {
                target_timestamp_ns: 42,
                frame_interval_ns: 4_500,
                vsync_queue_ns: 500,
                total_pipeline_latency_ns: 3_500,
                average_total_pipeline_latency_ns: 3_500,
            },
        }
    );
}

#[test]
fn submit_of_an_unknown_frame_is_not_ready() {
    let mut core = connected();
    assert_eq!(alvr_report_submit(&mut core, 42, 500, 4_000), SubmitOutcome::NotReady);
    core.statistics_sender = false;
    assert_eq!(alvr_report_submit(&mut core, 42, 500, 4_000), SubmitOutcome::Recorded);
    alvr_report_frame_decoded(&mut core, 42, 1_000);
    assert_eq!(alvr_report_submit(&mut core, 42, 500, 4_000), SubmitOutcome::Recorded);
    assert_eq!(alvr_get_prediction_offset_ns(&core), 3_500);
}

#[test]
fn reports_without_statistics_do_nothing() {
    let mut core = started(false);
    core.statistics_sender = true;
    alvr_report_frame_decoded(&mut core, 1, 10);
    assert!(core.statistics.is_none());
    assert_eq!(alvr_report_submit(&mut core, 1, 0, 20), SubmitOutcome::Idle);
    assert!(core.statistics.is_none());
}

#[test]
fn the_client_window_is_bounded() {
    let mut core = connected();
    core.statistics = Some(StatisticsManager::new(3));
    for frame in 0..20_u64 {
        alvr_report_frame_decoded(&mut core, frame, frame * 10);
        alvr_report_submit(&mut core, frame, 0, frame * 10 + 5);
        assert!(core.statistics.as_ref().unwrap().len() <= 3);
    }
    assert_eq!(alvr_get_prediction_offset_ns(&core), 5);
}

#[test]
fn log_lines_name_their_origin() {
    let (level, line) = alvr_log(AlvrLogLevel::Warn, "decoder stalled");
    assert_eq!(level, AlvrLogLevel::Warn);
    assert_eq!(line, "[ALVR NATIVE] decoder stalled");
    let (level, line) = alvr_log(AlvrLogLevel::Debug, "");
    assert_eq!(level, AlvrLogLevel::Debug);
    assert_eq!(line, "[ALVR NATIVE] ");
    let (level, line) = alvr_log_time("frame", "Instant { tv_sec: 5, tv_nsec: 7 }");
    assert_eq!(level, AlvrLogLevel::Error);
    assert_eq!(line, "[ALVR NATIVE] frame: Instant { tv_sec: 5, tv_nsec: 7 }");
}

fn initialize_with(file: Option<&str>, protocol_id: u64) -> (Config, bool) {
    let (_, _, config, store) =
        alvr_initialize(file, protocol_id, 1832, 1920, vec![], false, false, 0, String::new());
    (config, store)
}

#[test]
fn initialize_keeps_a_configuration_of_this_protocol() {
    let file = Config { protocol_id: 7, hostname: "1234.client.alvr".to_string() }.store();
    let (config, store) = initialize_with(Some(&file), 7);
    assert!(!store);
    assert_eq!(config.protocol_id, 7);
    assert_eq!(config.hostname, "1234.client.alvr");
    let (again, store_again) = initialize_with(Some(&config.store()), 7);
    assert!(!store_again);
    assert_eq!(again.hostname, "1234.client.alvr");
}

#[test]
fn initialize_keeps_a_configuration_with_more_members() {
    let file = "{\"x\":0,\"protocol_id\":7,\"hostname\":\"1234.client.alvr\"}";
    let (config, store) = initialize_with(Some(file), 7);
    assert!(!store);
    assert_eq!(config.hostname, "1234.client.alvr");
}

#[test]
fn initialize_replaces_a_configuration_of_another_protocol() {
    let file = Config { protocol_id: 6, hostname: "1234.client.alvr".to_string() }.store();
    let (config, store) = initialize_with(Some(&file), 7);
    assert!(store);
    assert_eq!(config.protocol_id, 7);
    assert_eq!(config.hostname.len(), 16);
    assert!(config.hostname.ends_with(".client.alvr"));
    assert!(config.hostname.chars().take(4).all(|c| c.is_ascii_digit()));
}

#[test]
fn initialize_makes_a_configuration_where_there_is_none() {
    for file in [None, Some(""), Some("not json"), Some("{\"protocol_id\":7}")] {
        let (config, store) = initialize_with(file, 7);
        assert!(store);
        assert_eq!(config.protocol_id, 7);
        assert!(config.hostname.ends_with(".client.alvr"));
    }
}
