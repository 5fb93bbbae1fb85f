//! The client's interface to its host application.
//!
//! The host owns the sockets and the decoder. A [`ClientCore`] holds what
//! the interface has to remember between two calls: which senders are
//! installed, the statistics of the connection, and the events waiting for
//! the host. Each call says what is to be sent, if anything.

use vstd::prelude::*;
use vstd::string::StringExecFns;
use std::collections::VecDeque;
use crate::control::BatteryPacket;
use crate::control::ButtonValue;
use crate::control::ClientControlPacket;
use crate::control::Fov;
use crate::control::ViewsConfig;
use crate::handshake::HeadsetInfoPacket;
use crate::scalar::Scalar;
use crate::scalar::SIXTY_BITS;
use crate::settings::Vector3;
use crate::statistics::average_latency;
use crate::statistics::frame_index;
use crate::statistics::has_frame;
use crate::statistics::latency_count;
use crate::statistics::opened;
use crate::statistics::plus;
use crate::statistics::submitted;
use crate::statistics::ClientStatistics;
use crate::statistics::StatisticsManager;
use crate::storage::is_start_of;
use crate::storage::Config;
use crate::streams::forwarded;
use crate::streams::lemma_forwarded_count;
use crate::streams::AlvrQuat;
use crate::streams::DeviceMotion;
use crate::streams::OculusHand;
use crate::streams::TrackedDevice;
use crate::streams::Tracking;

verus! {

/// The codec that a decoder is to be made for.
#[derive(Clone, Copy, Debug, PartialEq, Eq, Structural)]
pub enum AlvrCodec {
    H264,
    H265,
}

/// What the host learns by polling.
#[derive(Clone, Copy, Debug, PartialEq, Eq, Structural)]
pub enum AlvrEvent {
    StreamingStarted {
        view_width: u32,
        view_height: u32,
        fps: Scalar,
        oculus_foveation_level: i32,
        dynamic_oculus_foveation: bool,
        extra_latency: bool,
        controller_prediction_multiplier: Scalar,
    },
    StreamingStopped,
    Haptics { device_id: u64, duration_s: Scalar, frequency: Scalar, amplitude: Scalar },
    CreateDecoder { codec: AlvrCodec },
    NalReady,
}

/// Field of view of one eye as the host gives it.
#[derive(Clone, Copy, Debug, PartialEq, Eq, Structural)]
pub struct EyeFov {
    pub left: Scalar,
    pub right: Scalar,
    pub top: Scalar,
    pub bottom: Scalar,
}

/// The motion of one device as the host gives it.
#[derive(Clone, Copy, Debug, PartialEq, Eq, Structural)]
pub struct AlvrDeviceMotion {
    pub device_id: u64,
    pub orientation: AlvrQuat,
    pub position: Vector3,
    pub linear_velocity: Vector3,
    pub angular_velocity: Vector3,
}

/// Where one eye looks from, for the lobby.
#[derive(Clone, Copy, Debug, PartialEq, Eq, Structural)]
pub struct AlvrEyeInput {
    pub orientation: AlvrQuat,
    pub position: Vector3,
    pub fov: EyeFov,
}

/// Where one eye looks from, as the lobby renderer takes it.
#[derive(Clone, Copy, Debug, PartialEq, Eq, Structural)]
pub struct EyeInput {
    pub orientation: AlvrQuat,
    pub position: Vector3,
    pub fov_left: Scalar,
    pub fov_right: Scalar,
    pub fov_top: Scalar,
    pub fov_bottom: Scalar,
}

/// The state of a button as the host gives it.
#[derive(Clone, Copy, Debug, PartialEq, Eq, Structural)]
pub enum AlvrButtonValue {
    Binary(bool),
    Scalar(Scalar),
}

/// How grave a log line of the host is.
#[derive(Clone, Copy, Debug, PartialEq, Eq, Structural)]
pub enum AlvrLogLevel {
    Error,
    Warn,
    Info,
    Debug,
}

/// What became of a submitted frame.
#[derive(Clone, Copy, Debug, PartialEq, Eq, Structural)]
pub enum SubmitOutcome {
    /// No statistics are kept: nothing happened.
    Idle,
    /// The frame is recorded; no statistics sender is installed.
    Recorded,
    /// The frame is recorded, and this report is to be sent.
    Send { report: ClientStatistics },
    /// The frame is not in the window: the summary is not ready.
    NotReady,
}

/// What the client's interface remembers between two calls.
pub struct ClientCore {
    /// The statistics of the connection, while there is one.
    pub statistics: Option<StatisticsManager>,
    /// The events that wait for the host, oldest first.
    pub events: VecDeque<AlvrEvent>,
    /// Whether the connection task runs.
    pub running: bool,
    /// Whether the host is in the foreground.
    pub is_resumed: bool,
    /// Whether a stream is on.
    pub is_streaming: bool,
    /// Whether the built-in renderer is used.
    pub use_opengl: bool,
    /// Whether the host decodes by itself.
    pub external_decoder: bool,
    /// The view size that the headset recommends.
    pub preferred_width: u32,
    pub preferred_height: u32,
    /// Whether a sender for control packets is installed.
    pub control_sender: bool,
    /// Whether a sender for tracking frames is installed.
    pub tracking_sender: bool,
    /// Whether a sender for statistics is installed.
    pub statistics_sender: bool,
}

/// The first words of every log line of the host.
pub open spec fn log_prefix() -> Seq<char> {
    "[ALVR NATIVE] "@
}

/// The field of view as it travels.
pub open spec fn fov_of(fov: EyeFov) -> Fov {
    Fov { left: fov.left, right: fov.right, top: fov.top, bottom: fov.bottom }
}

/// The state of a button as it travels.
pub open spec fn button_value_of(value: AlvrButtonValue) -> ButtonValue {
    match value {
        AlvrButtonValue::Binary(pressed) => ButtonValue::Binary(pressed),
        AlvrButtonValue::Scalar(amount) => ButtonValue::Scalar(amount),
    }
}

/// The motion of a device as it travels.
pub open spec fn tracked_device_of(motion: AlvrDeviceMotion) -> TrackedDevice {
    TrackedDevice {
        device_id: motion.device_id,
        motion: DeviceMotion {
            orientation: motion.orientation,
            position: motion.position,
            linear_velocity: motion.linear_velocity,
            angular_velocity: motion.angular_velocity,
        },
    }
}

/// The skeleton of a hand as it travels: none for a hand that is not
/// tracked.
pub open spec fn skeleton_of(hand: OculusHand) -> Option<[AlvrQuat; 19]> {
    if hand.enabled {
        Some(hand.bone_rotations)
    } else {
        None
    }
}

/// The eye as the lobby renderer takes it.
pub open spec fn eye_input_of(eye: AlvrEyeInput) -> EyeInput {
    EyeInput {
        orientation: eye.orientation,
        position: eye.position,
        fov_left: eye.fov.left,
        fov_right: eye.fov.right,
        fov_top: eye.fov.top,
        fov_bottom: eye.fov.bottom,
    }
}

/// The state after the client was stopped: the connection task is gone,
/// and with it the senders, the statistics and the stream.
pub open spec fn destroyed(core: ClientCore) -> ClientCore {
    ClientCore {
        statistics: None,
        running: false,
        is_streaming: false,
        control_sender: false,
        tracking_sender: false,
        statistics_sender: false,
        ..core
    }
}

/// Stopping a stopped client changes nothing, and a stopped client is
/// silent.
pub proof fn lemma_destroy_is_idempotent(core: ClientCore)
    ensures
        destroyed(destroyed(core)) == destroyed(core),
        destroyed(core).is_silent(),
        destroyed(core).wf(),
{
}

impl ClientCore {
    /// The statistics, where there are any, are well formed.
    pub open spec fn wf(&self) -> bool {
        self.statistics matches Some(stats) ==> stats.wf()
    }

    /// Nothing is left of an earlier connection: no sender, no statistics,
    /// no event, no stream.
    pub open spec fn is_clean(&self) -> bool {
        &&& self.statistics is None
        &&& self.events@ == Seq::<AlvrEvent>::empty()
        &&& !self.is_resumed
        &&& !self.is_streaming
        &&& !self.control_sender
        &&& !self.tracking_sender
        &&& !self.statistics_sender
    }

    /// Nothing can be sent and nothing is recorded: no sender is installed
    /// and no statistics are kept.
    pub open spec fn is_silent(&self) -> bool {
        &&& !self.running
        &&& self.statistics is None
        &&& !self.is_streaming
        &&& !self.control_sender
        &&& !self.tracking_sender
        &&& !self.statistics_sender
    }

    /// Adds an event for the host.
    pub fn push_event(&mut self, event: AlvrEvent)
        ensures
            final(self).events@ == old(self).events@.push(event),
            final(self).statistics == old(self).statistics,
            final(self).running == old(self).running,
            final(self).is_resumed == old(self).is_resumed,
            final(self).is_streaming == old(self).is_streaming,
            final(self).use_opengl == old(self).use_opengl,
            final(self).external_decoder == old(self).external_decoder,
            final(self).preferred_width == old(self).preferred_width,
            final(self).preferred_height == old(self).preferred_height,
            final(self).control_sender == old(self).control_sender,
            final(self).tracking_sender == old(self).tracking_sender,
            final(self).statistics_sender == old(self).statistics_sender,
    {
        self.events.push_back(event);
    }
}

/// Makes up a log line of the host.
pub fn alvr_log(level: AlvrLogLevel, message: &str) -> (line: (AlvrLogLevel, String))
    ensures
        line.0 == level,
        line.1@ == log_prefix() + message@,
{
    let mut text = String::from_str("[ALVR NATIVE] ");
    text.append(message);
    (level, text)
}

/// Makes up the log line that marks a point in time; it is logged as an
/// error.
pub fn alvr_log_time(tag: &str, time: &str) -> (line: (AlvrLogLevel, String))
    ensures
        line.0 == AlvrLogLevel::Error,
        line.1@ == log_prefix() + tag@ + ": "@ + time@,
{
    let mut text = String::from_str("[ALVR NATIVE] ");
    text.append(tag);
    text.append(": ");
    text.append(time);
    (AlvrLogLevel::Error, text)
}

/// Starts the client: the state is clean, the headset is described for the
/// server, and the configuration is settled from what the configuration
/// file holds (`None` for a file that is absent or cannot be read). A file
/// that holds a configuration of this protocol is kept; else a new
/// configuration is returned with the flag that it is to be stored. The
/// preferred refresh rate is the last of the available ones, or sixty
/// where there is none.
pub fn alvr_initialize(
    config_file: Option<&str>,
    protocol_id: u64,
    recommended_view_width: u32,
    recommended_view_height: u32,
    refresh_rates: Vec<Scalar>,
    use_opengl: bool,
    external_decoder: bool,
    microphone_sample_rate: u32,
    version: String,
) -> (started: (ClientCore, HeadsetInfoPacket, Config, bool))
    ensures
        is_start_of(started.2, started.3, config_file, protocol_id),
        started.0.wf(),
        started.0.is_clean(),
        started.0.running,
        started.0.use_opengl == use_opengl,
        started.0.external_decoder == external_decoder,
        started.0.preferred_width == recommended_view_width,
        started.0.preferred_height == recommended_view_height,
        started.1.recommended_eye_width == recommended_view_width,
        started.1.recommended_eye_height == recommended_view_height,
        started.1.available_refresh_rates@ == refresh_rates@,
        started.1.preferred_refresh_rate == (if refresh_rates@.len() == 0 {
            (Scalar { bits: SIXTY_BITS })
        } else {
            refresh_rates@.last()
        }),
        started.1.microphone_sample_rate == microphone_sample_rate,
        started.1.reserved@ == version@,
{
    let preferred_refresh_rate = if refresh_rates.len() == 0 {
        Scalar { bits: SIXTY_BITS }
    } else {
        refresh_rates[refresh_rates.len() - 1]
    };
    let core = ClientCore {
        statistics: None,
        events: VecDeque::new(),
        running: true,
        is_resumed: false,
        is_streaming: false,
        use_opengl,
        external_decoder,
        preferred_width: recommended_view_width,
        preferred_height: recommended_view_height,
        control_sender: false,
        tracking_sender: false,
        statistics_sender: false,
    };
    let headset_info = HeadsetInfoPacket {
        recommended_eye_width: recommended_view_width,
        recommended_eye_height: recommended_view_height,
        available_refresh_rates: refresh_rates,
        preferred_refresh_rate,
        microphone_sample_rate,
        reserved: version,
    };
    let (config, store) = Config::startup(config_file, protocol_id);
    (core, headset_info, config, store)
}

/// Stops the client: the connection task ends, the senders and the
/// statistics leave. Returns whether the graphics have to be destroyed.
/// Stopping a stopped client changes nothing.
pub fn alvr_destroy(core: &mut ClientCore) -> (destroy_graphics: bool)
    ensures
        *final(core) == destroyed(*old(core)),
        final(core).is_silent(),
        final(core).wf(),
        destroy_graphics == old(core).use_opengl,
{
    core.running = false;
    core.statistics = None;
    core.is_streaming = false;
    core.control_sender = false;
    core.tracking_sender = false;
    core.statistics_sender = false;
    core.use_opengl
}

/// The host came to the foreground. Returns the view size for which the
/// lobby is to be prepared, where the built-in renderer is used.
pub fn alvr_resume(core: &mut ClientCore) -> (lobby: Option<(u32, u32)>)
    ensures
        final(core).is_resumed,
        lobby == (if old(core).use_opengl {
            Some((old(core).preferred_width, old(core).preferred_height))
        } else {
            None
        }),
        final(core).statistics == old(core).statistics,
        final(core).events@ == old(core).events@,
        final(core).running == old(core).running,
        final(core).is_streaming == old(core).is_streaming,
        final(core).use_opengl == old(core).use_opengl,
        final(core).external_decoder == old(core).external_decoder,
        final(core).preferred_width == old(core).preferred_width,
        final(core).preferred_height == old(core).preferred_height,
        final(core).control_sender == old(core).control_sender,
        final(core).tracking_sender == old(core).tracking_sender,
        final(core).statistics_sender == old(core).statistics_sender,
{
    core.is_resumed = true;
    if core.use_opengl {
        Some((core.preferred_width, core.preferred_height))
    } else {
        None
    }
}

/// The host left the foreground. Returns whether the renderers have to be
/// destroyed.
pub fn alvr_pause(core: &mut ClientCore) -> (destroy_renderers: bool)
    ensures
        !final(core).is_resumed,
        destroy_renderers == old(core).use_opengl,
        final(core).statistics == old(core).statistics,
        final(core).events@ == old(core).events@,
        final(core).running == old(core).running,
        final(core).is_streaming == old(core).is_streaming,
        final(core).use_opengl == old(core).use_opengl,
        final(core).external_decoder == old(core).external_decoder,
        final(core).preferred_width == old(core).preferred_width,
        final(core).preferred_height == old(core).preferred_height,
        final(core).control_sender == old(core).control_sender,
        final(core).tracking_sender == old(core).tracking_sender,
        final(core).statistics_sender == old(core).statistics_sender,
{
    core.is_resumed = false;
    core.use_opengl
}

/// Takes the oldest event that waits for the host, if there is one.
pub fn alvr_poll_event(core: &mut ClientCore) -> (event: Option<AlvrEvent>)
    ensures
        old(core).events@.len() == 0 ==> event is None && final(core).events@ == old(core).events@,
        old(core).events@.len() > 0 ==> event == Some(old(core).events@[0]) && final(core).events@
            == old(core).events@.subrange(1, old(core).events@.len() as int),
        final(core).statistics == old(core).statistics,
        final(core).running == old(core).running,
        final(core).is_resumed == old(core).is_resumed,
        final(core).is_streaming == old(core).is_streaming,
        final(core).use_opengl == old(core).use_opengl,
        final(core).external_decoder == old(core).external_decoder,
        final(core).preferred_width == old(core).preferred_width,
        final(core).preferred_height == old(core).preferred_height,
        final(core).control_sender == old(core).control_sender,
        final(core).tracking_sender == old(core).tracking_sender,
        final(core).statistics_sender == old(core).statistics_sender,
{
    core.events.pop_front()
}

/// The packet that tells the server the fields of view and the distance
/// between the eyes; none while no control sender is installed.
pub fn alvr_send_views_config(core: &ClientCore, left_fov: EyeFov, right_fov: EyeFov, ipd_m: Scalar) -> (packet:
    Option<ClientControlPacket>)
    ensures
        packet == (if core.control_sender {
            Some(
                ClientControlPacket::ViewsConfig(
                    ViewsConfig { left_fov: fov_of(left_fov), right_fov: fov_of(right_fov), ipd_m },
                ),
            )
        } else {
            None
        }),
{
    if core.control_sender {
        Some(
            ClientControlPacket::ViewsConfig(
                ViewsConfig {
                    left_fov: Fov {
                        left: left_fov.left,
                        right: left_fov.right,
                        top: left_fov.top,
                        bottom: left_fov.bottom,
                    },
                    right_fov: Fov {
                        left: right_fov.left,
                        right: right_fov.right,
                        top: right_fov.top,
                        bottom: right_fov.bottom,
                    },
                    ipd_m,
                },
            ),
        )
    } else {
        None
    }
}

/// The packet that tells the server the charge of a device; none while no
/// control sender is installed.
pub fn alvr_send_battery(core: &ClientCore, device_id: u64, gauge_value: Scalar, is_plugged: bool) -> (packet:
    Option<ClientControlPacket>)
    ensures
        packet == (if core.control_sender {
            Some(ClientControlPacket::Battery(BatteryPacket { device_id, gauge_value, is_plugged }))
        } else {
            None
        }),
{
    if core.control_sender {
        Some(ClientControlPacket::Battery(BatteryPacket { device_id, gauge_value, is_plugged }))
    } else {
        None
    }
}

/// The packet that tells the server the size of the playspace; none while
/// no control sender is installed.
pub fn alvr_send_playspace(core: &ClientCore, width: Scalar, height: Scalar) -> (packet: Option<
    ClientControlPacket,
>)
    ensures
        packet == (if core.control_sender {
            Some(ClientControlPacket::PlayspaceSync { width, height })
        } else {
            None
        }),
{
    if core.control_sender {
        Some(ClientControlPacket::PlayspaceSync { width, height })
    } else {
        None
    }
}

/// The two eyes as the lobby renderer takes them.
pub fn alvr_render_lobby(left: AlvrEyeInput, right: AlvrEyeInput) -> (eyes: (EyeInput, EyeInput))
    ensures
        eyes.0 == eye_input_of(left),
        eyes.1 == eye_input_of(right),
{
    (
        EyeInput {
            orientation: left.orientation,
            position: left.position,
            fov_left: left.fov.left,
            fov_right: left.fov.right,
            fov_top: left.fov.top,
            fov_bottom: left.fov.bottom,
        },
        EyeInput {
            orientation: right.orientation,
            position: right.position,
            fov_left: right.fov.left,
            fov_right: right.fov.right,
            fov_top: right.fov.top,
            fov_bottom: right.fov.bottom,
        },
    )
}

/// The packet that tells the server the state of a button; none while no
/// control sender is installed.
pub fn alvr_send_button(core: &ClientCore, path_id: u64, value: AlvrButtonValue) -> (packet: Option<
    ClientControlPacket,
>)
    ensures
        packet == (if core.control_sender {
            Some(ClientControlPacket::Button { path_id, value: button_value_of(value) })
        } else {
            None
        }),
{
    if core.control_sender {
        let value = match value {
            AlvrButtonValue::Binary(pressed) => ButtonValue::Binary(pressed),
            AlvrButtonValue::Scalar(amount) => ButtonValue::Scalar(amount),
        };
        Some(ClientControlPacket::Button { path_id, value })
    } else {
        None
    }
}

/// The skeleton of a hand as it travels.
pub fn from_oculus_hand(hand: &OculusHand) -> (skeleton: Option<[AlvrQuat; 19]>)
    ensures
        skeleton == skeleton_of(*hand),
{
    if hand.enabled {
        Some(hand.bone_rotations)
    } else {
        None
    }
}

/// The tracking frame to send: the motions of all devices in the order
/// given, under the timestamp given, with the skeletons of the hands that
/// are tracked. None while no tracking sender is installed.
pub fn alvr_send_tracking(
    core: &ClientCore,
    target_timestamp_ns: u64,
    device_motions: &Vec<AlvrDeviceMotion>,
    left_oculus_hand: &OculusHand,
    right_oculus_hand: &OculusHand,
) -> (frame: Option<Tracking>)
    ensures
        frame is Some <==> core.tracking_sender,
        frame matches Some(tracking) ==> {
            &&& tracking.target_timestamp_ns == target_timestamp_ns
            &&& tracking.device_motions@ == device_motions@.map_values(
                |motion: AlvrDeviceMotion| tracked_device_of(motion),
            )
            &&& tracking.left_hand_skeleton == skeleton_of(*left_oculus_hand)
            &&& tracking.right_hand_skeleton == skeleton_of(*right_oculus_hand)
        },
{
    if !core.tracking_sender {
        return None;
    }
    let mut motions: Vec<TrackedDevice> = Vec::new();
    let mut i: usize = 0;
    while i < device_motions.len()
        invariant
            i <= device_motions@.len(),
            motions@.len() == i,
            forall|k: int|
                0 <= k < i ==> #[trigger] motions@[k] == tracked_device_of(device_motions@[k]),
        decreases device_motions@.len() - i,
    {
        let motion = device_motions[i];
        motions.push(
            TrackedDevice {
                device_id: motion.device_id,
                motion: DeviceMotion {
                    orientation: motion.orientation,
                    position: motion.position,
                    linear_velocity: motion.linear_velocity,
                    angular_velocity: motion.angular_velocity,
                },
            },
        );
        i = i + 1;
    }
    assert(motions@ =~= device_motions@.map_values(
        |motion: AlvrDeviceMotion| tracked_device_of(motion),
    ));
    Some(
        Tracking {
            target_timestamp_ns,
            device_motions: motions,
            left_hand_skeleton: from_oculus_hand(left_oculus_hand),
            right_hand_skeleton: from_oculus_hand(right_oculus_hand),
        },
    )
}

/// What the client sends of a tracking frame reaches the driver: of the
/// motions that the host gave, the server hands on no more than all, all of
/// them where controllers are tracked, and the head's in any case.
pub proof fn lemma_tracking_reaches_driver(
    device_motions: Seq<AlvrDeviceMotion>,
    head_id: u64,
    controllers: bool,
)
    ensures
        ({
            let sent = device_motions.map_values(
                |motion: AlvrDeviceMotion| tracked_device_of(motion),
            );
            let handed_on = forwarded(sent, head_id, controllers);
            &&& handed_on.len() <= device_motions.len()
            &&& (controllers ==> handed_on.len() == device_motions.len())
            &&& (forall|i: int|
                0 <= i < device_motions.len() && (#[trigger] device_motions[i]).device_id
                    == head_id ==> handed_on.len() > 0)
        }),
{
    let sent = device_motions.map_values(|motion: AlvrDeviceMotion| tracked_device_of(motion));
    lemma_forwarded_count(sent, head_id, controllers);
    assert forall|i: int|
        0 <= i < device_motions.len() && (#[trigger] device_motions[i]).device_id
            == head_id implies forwarded(sent, head_id, controllers).len() > 0 by {
        assert(sent[i].device_id == head_id);
    }
}

/// How far ahead the host should predict, in nanoseconds: the mean pipeline
/// latency, and zero while no statistics are kept or no frame has been
/// submitted.
pub fn alvr_get_prediction_offset_ns(core: &ClientCore) -> (offset_ns: u64)
    requires
        core.wf(),
    ensures
        offset_ns == (match core.statistics {
            Some(stats) => average_latency(stats.samples()),
            None => 0,
        }),
        (core.statistics matches Some(stats) ==> latency_count(stats.samples()) == 0)
            ==> offset_ns == 0,
{
    match &core.statistics {
        Some(stats) => stats.average_total_pipeline_latency(),
        None => 0,
    }
}

/// Records that a frame was handed to the display, which shows it
/// `vsync_queue_ns` later, and makes up the report for the server.
pub fn alvr_report_submit(
    core: &mut ClientCore,
    target_timestamp_ns: u64,
    vsync_queue_ns: u64,
    now_ns: u64,
) -> (outcome: SubmitOutcome)
    requires
        old(core).wf(),
    ensures
        final(core).wf(),
        final(core).events@ == old(core).events@,
        final(core).running == old(core).running,
        final(core).is_resumed == old(core).is_resumed,
        final(core).is_streaming == old(core).is_streaming,
        final(core).use_opengl == old(core).use_opengl,
        final(core).external_decoder == old(core).external_decoder,
        final(core).preferred_width == old(core).preferred_width,
        final(core).preferred_height == old(core).preferred_height,
        final(core).control_sender == old(core).control_sender,
        final(core).tracking_sender == old(core).tracking_sender,
        final(core).statistics_sender == old(core).statistics_sender,
        old(core).statistics is None ==> outcome == SubmitOutcome::Idle && final(core).statistics
            is None,
        old(core).statistics matches Some(before) ==> {
            &&& final(core).statistics matches Some(after)
            &&& after.capacity() == before.capacity()
            &&& after.gauges() == before.gauges()
            &&& after.last_average() == before.last_average()
            &&& if has_frame(before.samples(), target_timestamp_ns) {
                let i = frame_index(before.samples(), target_timestamp_ns);
                let sample = submitted(
                    before.samples()[i],
                    vsync_queue_ns,
                    now_ns,
                    before.prev_vsync(),
                );
                &&& after.samples() == before.samples().update(i, sample)
                &&& after.prev_vsync() == plus(now_ns as int, vsync_queue_ns as int)
                &&& outcome == (if old(core).statistics_sender {
                    (SubmitOutcome::Send {
                        report: ClientStatistics {
                            target_timestamp_ns,
                            frame_interval_ns: sample.frame_interval_ns,
                            vsync_queue_ns,
                            total_pipeline_latency_ns: sample.total_pipeline_latency_ns->Some_0,
                            average_total_pipeline_latency_ns: average_latency(
                                after.samples(),
                            ) as u64,
                        },
                    })
                } else {
                    SubmitOutcome::Recorded
                })
            } else {
                &&& after.samples() == before.samples()
                &&& after.prev_vsync() == before.prev_vsync()
                &&& outcome == (if old(core).statistics_sender {
                    SubmitOutcome::NotReady
                } else {
                    SubmitOutcome::Recorded
                })
            }
        },
{
    let sender = core.statistics_sender;
    match core.statistics.take() {
        None => SubmitOutcome::Idle,
        Some(mut stats) => {
            let ghost before = stats.samples();
            stats.report_submit(target_timestamp_ns, vsync_queue_ns, now_ns);
            let outcome = if sender {
                proof {
                    if has_frame(before, target_timestamp_ns) {
                        let i = frame_index(before, target_timestamp_ns);
                        let after = stats.samples();
                        assert(after[i].target_timestamp_ns == target_timestamp_ns);
                        stats.lemma_window_bounded();
                        let j = frame_index(after, target_timestamp_ns);
                        assert(0 <= j < after.len() && after[j].target_timestamp_ns
                            == target_timestamp_ns);
                        assert(i == j);
                    } else {
                        let after = stats.samples();
                        assert(after == before);
                    }
                }
                match stats.summary(target_timestamp_ns) {
                    Some(report) => SubmitOutcome::Send { report },
                    None => SubmitOutcome::NotReady,
                }
            } else {
                SubmitOutcome::Recorded
            };
            core.statistics = Some(stats);
            outcome
        },
    }
}

/// The packet that asks the server for a key frame; none while no control
/// sender is installed.
pub fn alvr_request_idr(core: &ClientCore) -> (packet: Option<ClientControlPacket>)
    ensures
        packet == (if core.control_sender {
            Some(ClientControlPacket::RequestIdr)
        } else {
            None
        }),
{
    if core.control_sender {
        Some(ClientControlPacket::RequestIdr)
    } else {
        None
    }
}

/// Records that a frame was decoded; nothing happens while no statistics
/// are kept.
pub fn alvr_report_frame_decoded(core: &mut ClientCore, timestamp_ns: u64, now_ns: u64)
    requires
        old(core).wf(),
    ensures
        final(core).wf(),
        final(core).events@ == old(core).events@,
        final(core).running == old(core).running,
        final(core).is_resumed == old(core).is_resumed,
        final(core).is_streaming == old(core).is_streaming,
        final(core).use_opengl == old(core).use_opengl,
        final(core).external_decoder == old(core).external_decoder,
        final(core).preferred_width == old(core).preferred_width,
        final(core).preferred_height == old(core).preferred_height,
        final(core).control_sender == old(core).control_sender,
        final(core).tracking_sender == old(core).tracking_sender,
        final(core).statistics_sender == old(core).statistics_sender,
        old(core).statistics is None ==> final(core).statistics is None,
        old(core).statistics matches Some(before) ==> {
            &&& final(core).statistics matches Some(after)
            &&& after.samples() == opened(
                before.samples(),
                before.capacity(),
                timestamp_ns,
                now_ns,
            )
            &&& after.samples().len() <= after.capacity()
            &&& after.capacity() == before.capacity()
            &&& after.gauges() == before.gauges()
            &&& after.last_average() == before.last_average()
            &&& after.prev_vsync() == before.prev_vsync()
        },
{
    match core.statistics.take() {
        None => {},
        Some(mut stats) => {
            stats.report_frame_decoded(timestamp_ns, now_ns);
            core.statistics = Some(stats);
        },
    }
}

} // verus!
