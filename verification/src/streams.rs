//! One turn of each loop that decides something while a client is connected:
//! keepalive, statistics and tracking.

use vstd::prelude::*;
use crate::scalar::Scalar;
use crate::settings::HeadsetDesc;
use crate::settings::Settings;
use crate::settings::Vector3;
use crate::statistics::has_frame;
use crate::statistics::frame_index;
use crate::statistics::network_latency_of;
use crate::statistics::opened;
use crate::statistics::ClientStatistics;
use crate::statistics::FrameSample;
use crate::statistics::StatisticsManager;

verus! {

/// Time between two keepalive packets, in milliseconds.
pub const NETWORK_KEEPALIVE_INTERVAL_MS: u64 = 1000;

/// A rotation.
#[derive(Clone, Copy, Debug, PartialEq, Eq, Structural)]
pub struct AlvrQuat {
    pub x: Scalar,
    pub y: Scalar,
    pub z: Scalar,
    pub w: Scalar,
}

/// Where a device is and how it moves.
#[derive(Clone, Copy, Debug, PartialEq, Eq, Structural)]
pub struct DeviceMotion {
    pub orientation: AlvrQuat,
    pub position: Vector3,
    pub linear_velocity: Vector3,
    pub angular_velocity: Vector3,
}

/// The motion of one device, by the id of the device.
#[derive(Clone, Copy, Debug, PartialEq, Eq, Structural)]
pub struct TrackedDevice {
    pub device_id: u64,
    pub motion: DeviceMotion,
}

/// One tracking frame as it travels from the client to the server.
pub struct Tracking {
    pub target_timestamp_ns: u64,
    pub device_motions: Vec<TrackedDevice>,
    pub left_hand_skeleton: Option<[AlvrQuat; 19]>,
    pub right_hand_skeleton: Option<[AlvrQuat; 19]>,
}

/// A hand as the driver takes it: whether it is tracked, and the rotations
/// of its nineteen bones.
pub struct OculusHand {
    pub enabled: bool,
    pub bone_rotations: [AlvrQuat; 19],
}

/// A motion to hand to the driver, after the head's or the controllers'
/// mapping.
#[derive(Clone, Copy, Debug, PartialEq, Eq, Structural)]
pub struct DriverMotion {
    pub device_id: u64,
    pub is_head: bool,
    pub motion: DeviceMotion,
}

/// The tracking call on the driver. The two predictions say how far the
/// driver is to look ahead for the head and for the controllers, in
/// nanoseconds.
pub struct TrackingCall {
    pub target_timestamp_ns: u64,
    pub head_prediction_ns: i64,
    pub controllers_prediction_ns: i64,
    pub motions: Vec<DriverMotion>,
    pub left_hand: OculusHand,
    pub right_hand: OculusHand,
}

/// What the driver is told about the bitrate after each keepalive.
#[derive(Clone, Copy, Debug, PartialEq, Eq, Structural)]
pub struct BitrateParameters {
    pub encode_bitrate_mbs: u64,
    pub adaptive_bitrate_enabled: bool,
    pub bitrate_maximum: u64,
}

/// What follows a keepalive packet.
#[derive(Clone, Copy, Debug, PartialEq, Eq, Structural)]
pub enum KeepaliveStep {
    /// The packet could not be sent: the disconnection is announced and the
    /// loop ends without error.
    Disconnected,
    /// The packet is sent: wait, tell the driver the bitrate, send again.
    Continue { pause_ms: u64, bitrate: BitrateParameters },
}

/// The bitrate settings as the driver takes them.
pub open spec fn bitrate_of(settings: Settings) -> BitrateParameters {
    BitrateParameters {
        encode_bitrate_mbs: settings.video.encode_bitrate_mbs,
        adaptive_bitrate_enabled: settings.video.adaptive_bitrate is Some,
        bitrate_maximum: match settings.video.adaptive_bitrate {
            Some(desc) => desc.bitrate_maximum,
            None => 0,
        },
    }
}

/// A prediction: the latency times the number that the multiplier encodes
/// times minus one, the fraction of a nanosecond dropped. What does not fit
/// in 64 bits gives the largest number that does, and a multiplier that is
/// no number gives zero.
pub open spec fn prediction_of(latency_ns: u64, multiplier: Scalar) -> int {
    let magnitude = multiplier.times(latency_ns as nat) as int;
    let capped = if magnitude > i64::MAX {
        i64::MAX as int
    } else {
        magnitude
    };
    if multiplier.is_negative() {
        capped
    } else {
        -capped
    }
}

/// The multipliers of the predictions for the head and for the controllers:
/// those of the controllers' settings, and zero where controllers are off.
pub open spec fn multipliers_of(headset: HeadsetDesc) -> (Scalar, Scalar) {
    match headset.controllers {
        Some(desc) => (
            desc.steamvr_hmd_prediction_multiplier,
            desc.steamvr_ctrl_prediction_multiplier,
        ),
        None => (Scalar { bits: 0 }, Scalar { bits: 0 }),
    }
}

/// Whether the motions of controllers go to the driver: the controllers are
/// switched on and the server is more than a tracking reference.
pub open spec fn controllers_tracked(headset: HeadsetDesc) -> bool {
    headset.controllers is Some && !headset.tracking_ref_only
}

/// The motions that go to the driver, in the order of the frame: that of
/// the head always, the others where controllers are tracked.
pub open spec fn forwarded(motions: Seq<TrackedDevice>, head_id: u64, controllers: bool) -> Seq<
    DriverMotion,
>
    decreases motions.len(),
{
    if motions.len() == 0 {
        Seq::empty()
    } else {
        let last = motions.last();
        let before = forwarded(motions.drop_last(), head_id, controllers);
        if last.device_id == head_id || controllers {
            before.push(
                DriverMotion {
                    device_id: last.device_id,
                    is_head: last.device_id == head_id,
                    motion: last.motion,
                },
            )
        } else {
            before
        }
    }
}

/// The rotation with four zeros.
pub open spec fn zero_quat() -> AlvrQuat {
    AlvrQuat {
        x: Scalar { bits: 0 },
        y: Scalar { bits: 0 },
        z: Scalar { bits: 0 },
        w: Scalar { bits: 0 },
    }
}

/// Whether a hand for the driver stands for a skeleton of the frame: it is
/// enabled with the skeleton's rotations, or disabled with zeros.
pub open spec fn is_hand_of(hand: OculusHand, skeleton: Option<[AlvrQuat; 19]>) -> bool {
    match skeleton {
        Some(rotations) => hand.enabled && hand.bone_rotations == rotations,
        None => !hand.enabled && forall|i: int|
            0 <= i < 19 ==> #[trigger] hand.bone_rotations[i] == zero_quat(),
    }
}

/// No more motions are forwarded than the frame holds; all of them where
/// controllers are tracked; and the head's motion is never dropped.
pub proof fn lemma_forwarded_count(motions: Seq<TrackedDevice>, head_id: u64, controllers: bool)
    ensures
        forwarded(motions, head_id, controllers).len() <= motions.len(),
        controllers ==> forwarded(motions, head_id, controllers).len() == motions.len(),
        forall|i: int|
            0 <= i < motions.len() && (#[trigger] motions[i]).device_id == head_id ==> forwarded(
                motions,
                head_id,
                controllers,
            ).len() > 0,
    decreases motions.len(),
{
    if motions.len() > 0 {
        lemma_forwarded_count(motions.drop_last(), head_id, controllers);
        assert forall|i: int|
            0 <= i < motions.len() && (#[trigger] motions[i]).device_id == head_id implies forwarded(
            motions,
            head_id,
            controllers,
        ).len() > 0 by {
            if i < motions.len() - 1 {
                assert(motions.drop_last()[i] == motions[i]);
            }
        }
    }
}

/// Decides what follows a keepalive packet.
pub fn keepalive_step(send_failed: bool, settings: &Settings) -> (step: KeepaliveStep)
    ensures
        step == (if send_failed {
            KeepaliveStep::Disconnected
        } else {
            (KeepaliveStep::Continue {
                pause_ms: NETWORK_KEEPALIVE_INTERVAL_MS,
                bitrate: bitrate_of(*settings),
            })
        }),
{
    if send_failed {
        KeepaliveStep::Disconnected
    } else {
        let bitrate = BitrateParameters {
            encode_bitrate_mbs: settings.video.encode_bitrate_mbs,
            adaptive_bitrate_enabled: settings.video.adaptive_bitrate.is_some(),
            bitrate_maximum: match settings.video.adaptive_bitrate {
                Some(desc) => desc.bitrate_maximum,
                None => 0,
            },
        };
        KeepaliveStep::Continue { pause_ms: NETWORK_KEEPALIVE_INTERVAL_MS, bitrate }
    }
}

/// Takes in a statistics packet of the client and returns the network
/// latency to report to the driver, in microseconds.
pub fn statistics_receive(
    stats: &mut StatisticsManager,
    client_stats: ClientStatistics,
    game_frame_interval_ns: u64,
) -> (network_latency_us: u64)
    requires
        old(stats).wf(),
    ensures
        final(stats).wf(),
        network_latency_us == network_latency_of(client_stats, game_frame_interval_ns) / 1000,
        final(stats).last_average() == client_stats.average_total_pipeline_latency_ns,
        final(stats).capacity() == old(stats).capacity(),
        final(stats).samples().len() == old(stats).samples().len(),
        final(stats).gauges() == old(stats).gauges(),
        final(stats).prev_vsync() == old(stats).prev_vsync(),
        !has_frame(old(stats).samples(), client_stats.target_timestamp_ns) ==> final(stats).samples() == old(stats).samples(),
        has_frame(old(stats).samples(), client_stats.target_timestamp_ns) ==> {
            let i = frame_index(old(stats).samples(), client_stats.target_timestamp_ns);
            final(stats).samples() == old(stats).samples().update(
                i,
                FrameSample {
                    vsync_queue_ns: client_stats.vsync_queue_ns,
                    frame_interval_ns: client_stats.frame_interval_ns,
                    total_pipeline_latency_ns: Some(client_stats.total_pipeline_latency_ns),
                    ..old(stats).samples()[i]
                },
            )
        },
{
    let network_latency_ns: u64 = stats.report_statistics(client_stats, game_frame_interval_ns);
    network_latency_ns / 1000
}

/// The hand for the driver that stands for a skeleton of the frame.
pub fn to_oculus_hand(skeleton: &Option<[AlvrQuat; 19]>) -> (hand: OculusHand)
    ensures
        is_hand_of(hand, *skeleton),
{
    match skeleton {
        Some(rotations) => OculusHand { enabled: true, bone_rotations: *rotations },
        None => {
            let zero = AlvrQuat {
                x: Scalar { bits: 0 },
                y: Scalar { bits: 0 },
                z: Scalar { bits: 0 },
                w: Scalar { bits: 0 },
            };
            OculusHand {
                enabled: false,
                bone_rotations: [
                    zero,
                    zero,
                    zero,
                    zero,
                    zero,
                    zero,
                    zero,
                    zero,
                    zero,
                    zero,
                    zero,
                    zero,
                    zero,
                    zero,
                    zero,
                    zero,
                    zero,
                    zero,
                    zero,
                ],
            }
        },
    }
}

/// Computes a prediction from the latency that the client reported last.
pub fn prediction_ns(latency_ns: u64, multiplier: Scalar) -> (prediction: i64)
    ensures
        prediction == prediction_of(latency_ns, multiplier),
{
    let magnitude: u128 = multiplier.multiply(latency_ns);
    let capped: i64 = if magnitude > 0x7fff_ffff_ffff_ffff {
        0x7fff_ffff_ffff_ffff
    } else {
        magnitude as i64
    };
    if multiplier.check_negative() {
        capped
    } else {
        -capped
    }
}

/// Whether the motions of controllers go to the driver.
pub fn tracks_controllers(headset: &HeadsetDesc) -> (forward: bool)
    ensures
        forward == controllers_tracked(*headset),
{
    headset.controllers.is_some() && !headset.tracking_ref_only
}

/// Takes in a tracking frame: the statistics learn of the frame, and the
/// call on the driver is made up. The head's motion and, where controllers
/// are tracked, the others are handed on in the order of the frame, under
/// the frame's timestamp.
pub fn tracking_receive(
    stats: &mut StatisticsManager,
    tracking: &Tracking,
    head_id: u64,
    headset: &HeadsetDesc,
    now_ns: u64,
) -> (call: TrackingCall)
    requires
        old(stats).wf(),
    ensures
        final(stats).wf(),
        final(stats).samples() == opened(
            old(stats).samples(),
            old(stats).capacity(),
            tracking.target_timestamp_ns,
            now_ns,
        ),
        final(stats).capacity() == old(stats).capacity(),
        final(stats).gauges() == old(stats).gauges(),
        final(stats).last_average() == old(stats).last_average(),
        final(stats).prev_vsync() == old(stats).prev_vsync(),
        call.target_timestamp_ns == tracking.target_timestamp_ns,
        call.head_prediction_ns == prediction_of(
            old(stats).last_average(),
            multipliers_of(*headset).0,
        ),
        call.controllers_prediction_ns == prediction_of(
            old(stats).last_average(),
            multipliers_of(*headset).1,
        ),
        call.motions@ == forwarded(tracking.device_motions@, head_id, controllers_tracked(*headset)),
        is_hand_of(call.left_hand, tracking.left_hand_skeleton),
        is_hand_of(call.right_hand, tracking.right_hand_skeleton),
{
    let controllers = tracks_controllers(headset);
    let mut motions: Vec<DriverMotion> = Vec::new();
    let mut i: usize = 0;
    assert(tracking.device_motions@.take(0) =~= Seq::<TrackedDevice>::empty());
    while i < tracking.device_motions.len()
        invariant
            i <= tracking.device_motions@.len(),
            motions@ == forwarded(tracking.device_motions@.take(i as int), head_id, controllers),
        decreases tracking.device_motions@.len() - i,
    {
        let device = tracking.device_motions[i];
        proof {
            let next = tracking.device_motions@.take(i + 1);
            assert(next.drop_last() =~= tracking.device_motions@.take(i as int));
            assert(next.last() == device);
        }
        if device.device_id == head_id || controllers {
            motions.push(
                DriverMotion {
                    device_id: device.device_id,
                    is_head: device.device_id == head_id,
                    motion: device.motion,
                },
            );
        }
        i = i + 1;
    }
    assert(tracking.device_motions@.take(tracking.device_motions@.len() as int)
        =~= tracking.device_motions@);
    stats.report_tracking_received(tracking.target_timestamp_ns, now_ns);
    let latency_ns: u64 = stats.last_average_total_latency();
    let (head, hands) = match &headset.controllers {
        Some(desc) => (
            desc.steamvr_hmd_prediction_multiplier,
            desc.steamvr_ctrl_prediction_multiplier,
        ),
        None => (Scalar { bits: 0 }, Scalar { bits: 0 }),
    };
    TrackingCall {
        target_timestamp_ns: tracking.target_timestamp_ns,
        head_prediction_ns: prediction_ns(latency_ns, head),
        controllers_prediction_ns: prediction_ns(latency_ns, hands),
        motions,
        left_hand: to_oculus_hand(&tracking.left_hand_skeleton),
        right_hand: to_oculus_hand(&tracking.right_hand_skeleton),
    }
}

} // verus!
