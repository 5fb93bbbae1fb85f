//! The server's side of the handshake: where to look for the client, what to
//! answer to its first reply, which stream parameters to settle on, and
//! whether the VR driver has to be restarted before streaming.
//! [`client_handshake`] takes the handshake turn by turn.

use vstd::prelude::*;
use vstd::string::StringExecFns;
use crate::openvr::Negotiated;
use crate::openvr::OpenvrConfig;
use crate::registry::is_manual_ip;
use crate::registry::ClientDescView;
use crate::registry::ClientId;
use crate::registry::ClientRegistry;
use crate::registry::IpAddress;
use crate::scalar::Scalar;
use crate::wide::Wide;
use crate::settings::AudioSection;
use crate::settings::FrameSize;
use crate::settings::Settings;
use crate::settings::VideoDesc;
use crate::text::append_decimal;
use crate::text::decimal;

verus! {

/// Pause before the next attempt to reach a client, in milliseconds.
pub const CONTROL_CONNECT_RETRY_PAUSE_MS: u64 = 500;

/// What the headset says of itself once the server is accepted.
pub struct HeadsetInfoPacket {
    pub recommended_eye_width: u32,
    pub recommended_eye_height: u32,
    pub available_refresh_rates: Vec<Scalar>,
    pub preferred_refresh_rate: Scalar,
    pub microphone_sample_rate: u32,
    pub reserved: String,
}

/// The client's first reply on the control socket.
pub enum ClientConnectionResult {
    ServerAccepted { headset_info: HeadsetInfoPacket, server_ip: IpAddress },
    ClientStandby,
}

/// A version number by its parts: three numbers, and the texts of the
/// pre-release and of the build, each empty where the version has none.
pub struct Version {
    pub major: u64,
    pub minor: u64,
    pub patch: u64,
    pub pre: String,
    pub build: String,
}

impl Version {
    /// The parts as plain values.
    pub open spec fn parts(self) -> (u64, u64, u64, Seq<char>, Seq<char>) {
        (self.major, self.minor, self.patch, self.pre@, self.build@)
    }
}

/// The parts of the version that a text stands for under the rules of
/// Semantic Versioning, as `semver::Version::parse` reads them; `None` where
/// the text is no version.
pub uninterp spec fn semver_parts(text: Seq<char>) -> Option<(u64, u64, u64, Seq<char>, Seq<char>)>;

/// What the server sends back: the session, the negotiated parameters and
/// the version that the client reported, where it reported one.
pub struct ClientConfigPacket {
    pub session_desc: String,
    pub dashboard_url: String,
    pub view_resolution_width: u32,
    pub view_resolution_height: u32,
    pub fps: Scalar,
    pub game_audio_sample_rate: u32,
    pub reserved: String,
    pub server_version: Option<Version>,
}

/// Why a handshake was given up.
pub enum HandshakeError {
    /// The output device for game audio could not be opened.
    GameAudioDevice(String),
    /// The virtual microphone device could not be opened.
    MicrophoneDevice(String),
    /// Game audio and microphone are set to one device.
    SameAudioDevice,
    /// The output device did not tell its sample rate.
    GameAudioSampleRate(String),
}

/// What was found out about the audio devices that the settings name. A
/// field is read only where the settings switch its device on.
pub struct AudioProbe {
    pub game_audio_device: Result<(), String>,
    pub microphone_device: Result<(), String>,
    pub same_device: bool,
    pub sample_rate: Result<u32, String>,
}

/// What to do after an attempt to reach a client.
pub enum ConnectStep {
    /// The client accepted the server: go on with the handshake.
    Proceed { headset_info: HeadsetInfoPacket, client_ip: IpAddress, server_ip: IpAddress },
    /// Nobody answered, or the client is in standby: pause, then try again.
    Retry { pause_ms: u64 },
    /// The control socket failed while the reply was awaited.
    Fail { cause: String },
}

/// What a completed handshake settles.
pub struct HandshakePlan {
    /// The packet for the client.
    pub client_config: ClientConfigPacket,
    /// The driver configuration for this connection.
    pub openvr_config: OpenvrConfig,
    /// Whether the driver configuration differs from the last one: it is then
    /// stored, the client is told that the server restarts, and the driver is
    /// restarted in place of streaming.
    pub restart: bool,
    /// Whether the headset offers the preferred refresh rate.
    pub refresh_rate_supported: bool,
    /// The sample rate of the headset's microphone.
    pub microphone_sample_rate: u32,
}

/// The largest multiple of 32 that `value` reaches and that fits in 32 bits.
pub open spec fn align32_of(value: int) -> int {
    if value > u32::MAX {
        (u32::MAX / 32) * 32
    } else {
        (value / 32) * 32
    }
}

/// The bytes per second of a bitrate in binary megabits, in the low 32 bits.
pub open spec fn mbits_to_bytes_of(value: int) -> int {
    (value * 1024 * 1024 / 8) % 0x1_0000_0000
}

/// A size recommended by the headset times the number that the scale
/// encodes, fraction dropped, and no more than `2^64`. A scale that is no
/// number or negative gives zero.
pub open spec fn scaled_dimension(recommended: u32, scale: Scalar) -> int {
    if scale.is_negative() {
        0
    } else {
        scale.times(recommended as nat) as int
    }
}

/// The size of one eye's frame for a configured frame size: the scaled
/// recommendation, or half the absolute width and the absolute height, each
/// rounded down to a multiple of 32.
pub open spec fn eye_size_of(size: FrameSize, recommended_width: u32, recommended_height: u32) -> (
    int,
    int,
) {
    match size {
        FrameSize::Scale(scale) => (
            align32_of(scaled_dimension(recommended_width, scale)),
            align32_of(scaled_dimension(recommended_height, scale)),
        ),
        FrameSize::Absolute { width, height } => (
            align32_of(width as int / 2),
            align32_of(height as int),
        ),
    }
}

/// Whether a refresh rate can be chosen at all for this preference: both are
/// finite numbers.
pub open spec fn rate_eligible(rate: Scalar, preferred: Scalar) -> bool {
    rate.is_finite() && preferred.is_finite()
}

/// `|rate - preferred|` of the two numbers encoded, in units of `2^-149`.
pub open spec fn rate_distance(rate: Scalar, preferred: Scalar) -> int {
    let d = rate.units() - preferred.units();
    if d < 0 {
        -d
    } else {
        d
    }
}

/// Whether `i` is the place of the refresh rate to choose: the first among
/// the eligible rates that are closest to the preferred one.
pub open spec fn is_closest_rate(available: Seq<Scalar>, preferred: Scalar, i: int) -> bool {
    &&& 0 <= i < available.len()
    &&& rate_eligible(available[i], preferred)
    &&& forall|j: int|
        0 <= j < available.len() && rate_eligible(#[trigger] available[j], preferred)
            ==> rate_distance(available[i], preferred) <= rate_distance(available[j], preferred)
    &&& forall|j: int|
        0 <= j < i && rate_eligible(#[trigger] available[j], preferred) ==> rate_distance(
            available[i],
            preferred,
        ) < rate_distance(available[j], preferred)
}

/// Whether no rate of the list can be chosen.
pub open spec fn no_rate_eligible(available: Seq<Scalar>, preferred: Scalar) -> bool {
    forall|j: int| 0 <= j < available.len() ==> !rate_eligible(#[trigger] available[j], preferred)
}

/// Whether `fps` is the refresh rate to stream at: the offered rate closest to
/// the preferred one, the first of them where several are as close, and zero
/// where none can be chosen.
pub open spec fn is_chosen_rate(available: Seq<Scalar>, preferred: Scalar, fps: Scalar) -> bool {
    if no_rate_eligible(available, preferred) {
        fps == (Scalar { bits: 0 })
    } else {
        exists|i: int| is_closest_rate(available, preferred, i) && fps == #[trigger] available[i]
    }
}

/// Whether the list offers the preferred rate itself.
pub open spec fn rate_offered(available: Seq<Scalar>, preferred: Scalar) -> bool {
    exists|j: int| 0 <= j < available.len() && (#[trigger] available[j]).same_number(preferred)
}

/// The stream parameters for these video settings and this headset.
pub open spec fn is_negotiated(
    negotiated: Negotiated,
    video: VideoDesc,
    headset_info: HeadsetInfoPacket,
) -> bool {
    let eye = eye_size_of(
        video.render_resolution,
        headset_info.recommended_eye_width,
        headset_info.recommended_eye_height,
    );
    let target = eye_size_of(
        video.recommended_target_resolution,
        headset_info.recommended_eye_width,
        headset_info.recommended_eye_height,
    );
    let rates = headset_info.available_refresh_rates@;
    &&& negotiated.video_eye_width == eye.0
    &&& negotiated.video_eye_height == eye.1
    &&& negotiated.target_eye_width == target.0
    &&& negotiated.target_eye_height == target.1
    &&& is_chosen_rate(rates, video.preferred_fps, negotiated.fps)
}

/// The sample rate of game audio, or the reason why the handshake ends: zero
/// where game audio is off; else the rate of the output device, unless a
/// device could not be opened or both streams name one device.
pub open spec fn audio_outcome(audio: AudioSection, probe: AudioProbe) -> Result<
    u32,
    HandshakeError,
> {
    if audio.game_audio is None {
        Ok(0)
    } else if probe.game_audio_device is Err {
        Err(HandshakeError::GameAudioDevice(probe.game_audio_device->Err_0))
    } else if audio.microphone && probe.microphone_device is Err {
        Err(HandshakeError::MicrophoneDevice(probe.microphone_device->Err_0))
    } else if audio.microphone && probe.same_device {
        Err(HandshakeError::SameAudioDevice)
    } else {
        match probe.sample_rate {
            Ok(rate) => Ok(rate),
            Err(cause) => Err(HandshakeError::GameAudioSampleRate(cause)),
        }
    }
}

/// The address of the dashboard as the client sees it.
pub open spec fn dashboard_url_of(server_ip: Seq<char>, port: u16) -> Seq<char> {
    "http://"@ + server_ip + ":"@ + decimal(port as nat) + "/"@
}

/// What is shown of an error: the cause that the audio device gave, or a
/// fixed text where both streams name one device.
pub open spec fn handshake_error_text_of(error: HandshakeError) -> Seq<char> {
    match error {
        HandshakeError::GameAudioDevice(cause) => cause@,
        HandshakeError::MicrophoneDevice(cause) => cause@,
        HandshakeError::SameAudioDevice =>
            "Game audio and microphone cannot point to the same device!"@,
        HandshakeError::GameAudioSampleRate(cause) => cause@,
    }
}

impl HandshakeError {
    /// Writes what is shown of the error.
    pub fn message(&self) -> (text: String)
        ensures
            text@ == handshake_error_text_of(*self),
    {
        match self {
            HandshakeError::GameAudioDevice(cause) => cause.clone(),
            HandshakeError::MicrophoneDevice(cause) => cause.clone(),
            HandshakeError::SameAudioDevice => String::from_str(
                "Game audio and microphone cannot point to the same device!",
            ),
            HandshakeError::GameAudioSampleRate(cause) => cause.clone(),
        }
    }
}

/// Reads a version. Trusted: `semver::Version::parse` reads a version from
/// its text and fails on a text that is none; what it returns depends on
/// the text alone. The parts are handed on as they are.
#[verifier::external_body]
fn parse_version(text: &str) -> (version: Option<Version>)
    ensures
        version is Some <==> semver_parts(text@) is Some,
        version matches Some(v) ==> semver_parts(text@) == Some(v.parts()),
{
    match semver::Version::parse(text) {
        Ok(v) => Some(
            Version {
                major: v.major,
                minor: v.minor,
                patch: v.patch,
                pre: v.pre.as_str().to_string(),
                build: v.build.as_str().to_string(),
            },
        ),
        Err(_) => None,
    }
}

/// The version that a client reports of itself, where what it reports is
/// one.
pub fn client_version(reported: &str) -> (version: Option<Version>)
    ensures
        version is Some <==> semver_parts(reported@) is Some,
        version matches Some(v) ==> semver_parts(reported@) == Some(v.parts()),
{
    parse_version(reported)
}

/// Rounds a pixel count down to a multiple of 32.
pub fn align32(value: u64) -> (aligned: u32)
    ensures
        aligned == align32_of(value as int),
        aligned % 32 == 0,
        aligned <= value,
        value <= u32::MAX ==> value - aligned < 32,
{
    if value > 0xffff_ffff {
        0xffff_ffe0
    } else {
        ((value / 32) * 32) as u32
    }
}

/// Converts a bitrate in binary megabits per second to bytes per second,
/// keeping the low 32 bits.
pub fn mbits_to_bytes(value: u64) -> (bytes: u32)
    ensures
        bytes == mbits_to_bytes_of(value as int),
{
    let low: u64 = value % 0x8000;
    proof {
        let v = value as int;
        assert(v * 1024 * 1024 / 8 == v * 0x2_0000);
        assert(v == 0x8000 * (v / 0x8000) + v % 0x8000);
        assert(v * 0x2_0000 == 0x1_0000_0000 * (v / 0x8000) + (v % 0x8000) * 0x2_0000);
        vstd::arithmetic::div_mod::lemma_fundamental_div_mod_converse(
            v * 0x2_0000,
            0x1_0000_0000,
            v / 0x8000,
            (v % 0x8000) * 0x2_0000,
        );
    }
    (low * 0x2_0000) as u32
}

/// Applies a scale to a recommended size and rounds down to a multiple of 32.
pub fn scale_dimension(recommended: u32, scale: Scalar) -> (pixels: u32)
    ensures
        pixels == align32_of(scaled_dimension(recommended, scale)),
        pixels % 32 == 0,
{
    if scale.check_negative() {
        0
    } else {
        let scaled: u128 = scale.multiply(recommended as u64);
        if scaled > 0xffff_ffff {
            0xffff_ffe0
        } else {
            align32(scaled as u64)
        }
    }
}

/// Settles the size of one eye's frame.
pub fn negotiate_eye_size(size: &FrameSize, recommended_width: u32, recommended_height: u32) -> (eye:
    (u32, u32))
    ensures
        (eye.0 as int, eye.1 as int) == eye_size_of(*size, recommended_width, recommended_height),
        eye.0 % 32 == 0,
        eye.1 % 32 == 0,
{
    match size {
        FrameSize::Scale(scale) => (
            scale_dimension(recommended_width, *scale),
            scale_dimension(recommended_height, *scale),
        ),
        FrameSize::Absolute { width, height } => (
            align32((*width / 2) as u64),
            align32(*height as u64),
        ),
    }
}

/// What is known of the best place after the first `i` rates were looked at.
spec fn scanned(
    available: Seq<Scalar>,
    preferred: Scalar,
    i: int,
    best: Option<usize>,
    best_distance: int,
) -> bool {
    match best {
        None => forall|j: int| 0 <= j < i ==> !rate_eligible(#[trigger] available[j], preferred),
        Some(b) => {
            &&& b < i
            &&& rate_eligible(available[b as int], preferred)
            &&& best_distance == rate_distance(available[b as int], preferred)
            &&& forall|j: int|
                0 <= j < i && rate_eligible(#[trigger] available[j], preferred) ==> best_distance
                    <= rate_distance(available[j], preferred)
            &&& forall|j: int|
                0 <= j < b && rate_eligible(#[trigger] available[j], preferred) ==> best_distance
                    < rate_distance(available[j], preferred)
        },
    }
}

fn distance(rate: Scalar, preferred: Scalar) -> (d: Wide)
    requires
        rate.is_finite(),
        preferred.is_finite(),
    ensures
        d.value() == rate_distance(rate, preferred),
{
    let a = Wide::from_scalar(rate);
    let b = Wide::from_scalar(preferred);
    if rate.check_negative() == preferred.check_negative() {
        a.distance(&b)
    } else {
        a.add(&b)
    }
}

/// Finds the place of the refresh rate that is closest to the preferred one,
/// the first of them where several are as close.
pub fn closest_refresh_rate(available: &Vec<Scalar>, preferred: Scalar) -> (place: Option<usize>)
    ensures
        place matches Some(i) ==> is_closest_rate(available@, preferred, i as int),
        place is None <==> no_rate_eligible(available@, preferred),
{
    if !preferred.check_finite() {
        return None;
    }
    let mut best: Option<usize> = None;
    let mut best_distance: Wide = Wide::from_scalar(Scalar { bits: 0 });
    let mut i: usize = 0;
    while i < available.len()
        invariant
            i <= available@.len(),
            preferred.is_finite(),
            scanned(available@, preferred, i as int, best, best_distance.value()),
        decreases available@.len() - i,
    {
        let rate = available[i];
        if rate.check_finite() {
            let d: Wide = distance(rate, preferred);
            let better = match best {
                None => true,
                Some(_) => d.less(&best_distance),
            };
            if better {
                best = Some(i);
                best_distance = d;
            }
        }
        i = i + 1;
    }
    best
}

/// Chooses the refresh rate of the stream: the offered rate closest to the
/// preferred one, the first of them where several are as close, and zero
/// where none can be chosen.
pub fn choose_refresh_rate(available: &Vec<Scalar>, preferred: Scalar) -> (fps: Scalar)
    ensures
        is_chosen_rate(available@, preferred, fps),
{
    match closest_refresh_rate(available, preferred) {
        Some(i) => available[i],
        None => Scalar { bits: 0 },
    }
}

/// Whether the headset offers the preferred refresh rate itself.
pub fn refresh_rate_offered(available: &Vec<Scalar>, preferred: Scalar) -> (offered: bool)
    ensures
        offered == rate_offered(available@, preferred),
{
    let mut i: usize = 0;
    while i < available.len()
        invariant
            i <= available@.len(),
            forall|j: int| 0 <= j < i ==> !(#[trigger] available@[j]).same_number(preferred),
        decreases available@.len() - i,
    {
        if available[i].equals(preferred) {
            return true;
        }
        i = i + 1;
    }
    false
}

/// Settles the stream parameters.
pub fn negotiate(video: &VideoDesc, headset_info: &HeadsetInfoPacket) -> (negotiated: Negotiated)
    ensures
        is_negotiated(negotiated, *video, *headset_info),
        negotiated.video_eye_width % 32 == 0,
        negotiated.video_eye_height % 32 == 0,
        negotiated.target_eye_width % 32 == 0,
        negotiated.target_eye_height % 32 == 0,
{
    let eye = negotiate_eye_size(
        &video.render_resolution,
        headset_info.recommended_eye_width,
        headset_info.recommended_eye_height,
    );
    let target = negotiate_eye_size(
        &video.recommended_target_resolution,
        headset_info.recommended_eye_width,
        headset_info.recommended_eye_height,
    );
    let fps = choose_refresh_rate(&headset_info.available_refresh_rates, video.preferred_fps);
    Negotiated {
        video_eye_width: eye.0,
        video_eye_height: eye.1,
        target_eye_width: target.0,
        target_eye_height: target.1,
        fps,
    }
}

/// The addresses at which to look for the client: that of a discovered and
/// trusted client alone, else every manual address of the registry, once.
pub fn candidate_ips(trusted_discovered_client_id: &Option<ClientId>, registry: &ClientRegistry) -> (ips:
    Vec<IpAddress>)
    requires
        registry.wf(),
    ensures
        is_candidate_list(ips@, *trusted_discovered_client_id, registry@),
{
    match trusted_discovered_client_id {
        Some(id) => {
            let mut ips: Vec<IpAddress> = Vec::new();
            ips.push(id.ip);
            assert(ips@ =~= seq![id.ip]);
            ips
        },
        None => registry.manual_ips(),
    }
}

/// Decides what follows an attempt to reach a client. `attempt` is `None`
/// where no candidate answered in time; else it holds the address of the
/// client that did and what was received from it.
pub fn connect_step(attempt: Option<(IpAddress, Result<ClientConnectionResult, String>)>) -> (step:
    ConnectStep)
    ensures
        match attempt {
            None => step == (ConnectStep::Retry { pause_ms: CONTROL_CONNECT_RETRY_PAUSE_MS }),
            Some((_, Err(cause))) => step == (ConnectStep::Fail { cause }),
            Some((_, Ok(ClientConnectionResult::ClientStandby))) => step == (ConnectStep::Retry {
                pause_ms: CONTROL_CONNECT_RETRY_PAUSE_MS,
            }),
            Some((client_ip, Ok(ClientConnectionResult::ServerAccepted { headset_info, server_ip }))) =>
                step == (ConnectStep::Proceed { headset_info, client_ip, server_ip }),
        },
{
    match attempt {
        None => ConnectStep::Retry { pause_ms: CONTROL_CONNECT_RETRY_PAUSE_MS },
        Some((_, Err(cause))) => ConnectStep::Fail { cause },
        Some((_, Ok(ClientConnectionResult::ClientStandby))) => ConnectStep::Retry {
            pause_ms: CONTROL_CONNECT_RETRY_PAUSE_MS,
        },
        Some((client_ip, Ok(ClientConnectionResult::ServerAccepted { headset_info, server_ip }))) =>
            ConnectStep::Proceed { headset_info, client_ip, server_ip },
    }
}

/// Settles the sample rate of game audio from what was found out about the
/// audio devices.
pub fn game_audio_sample_rate(audio: &AudioSection, probe: &AudioProbe) -> (outcome: Result<
    u32,
    HandshakeError,
>)
    ensures
        outcome == audio_outcome(*audio, *probe),
{
    if audio.game_audio.is_none() {
        return Ok(0);
    }
    if let Err(cause) = &probe.game_audio_device {
        return Err(HandshakeError::GameAudioDevice(cause.clone()));
    }
    if audio.microphone {
        if let Err(cause) = &probe.microphone_device {
            return Err(HandshakeError::MicrophoneDevice(cause.clone()));
        }
        if probe.same_device {
            return Err(HandshakeError::SameAudioDevice);
        }
    }
    match &probe.sample_rate {
        Ok(rate) => Ok(*rate),
        Err(cause) => Err(HandshakeError::GameAudioSampleRate(cause.clone())),
    }
}

/// Writes the address of the dashboard as the client sees it.
pub fn dashboard_url(server_ip: &str, web_server_port: u16) -> (url: String)
    ensures
        url@ == dashboard_url_of(server_ip@, web_server_port),
{
    let mut url = String::from_str("http://");
    url.append(server_ip);
    url.append(":");
    append_decimal(&mut url, web_server_port as u64);
    url.append("/");
    url
}

/// Whether a result is what settles a handshake with a client that has
/// accepted the server. The handshake fails where the audio devices say
/// so. Else the stream parameters are negotiated, the packet for the
/// client carries them with the session, the address of the dashboard and
/// the client's version, the driver configuration is the one that the
/// settings and the negotiated parameters call for, and `restart` says
/// whether it differs from the last one.
pub open spec fn is_settled(
    result: Result<HandshakePlan, HandshakeError>,
    headset_info: HeadsetInfoPacket,
    server_ip: Seq<char>,
    settings: Settings,
    session_desc: Seq<char>,
    last_config: OpenvrConfig,
    probe: AudioProbe,
) -> bool {
    match result {
        Err(e) => audio_outcome(settings.audio, probe) == Err::<u32, HandshakeError>(e),
        Ok(plan) => {
            &&& audio_outcome(settings.audio, probe) == Ok::<u32, HandshakeError>(
                plan.client_config.game_audio_sample_rate,
            )
            &&& exists|negotiated: Negotiated|
                {
                    &&& is_negotiated(negotiated, settings.video, headset_info)
                    &&& #[trigger] plan.openvr_config.describes(settings, negotiated)
                    &&& plan.client_config.view_resolution_width == negotiated.video_eye_width
                    &&& plan.client_config.view_resolution_height
                        == negotiated.video_eye_height
                    &&& plan.client_config.fps == negotiated.fps
                }
            &&& plan.client_config.view_resolution_width % 32 == 0
            &&& plan.client_config.view_resolution_height % 32 == 0
            &&& plan.openvr_config.target_eye_resolution_width % 32 == 0
            &&& plan.openvr_config.target_eye_resolution_height % 32 == 0
            &&& plan.client_config.session_desc@ == session_desc
            &&& plan.client_config.dashboard_url@ == dashboard_url_of(
                server_ip,
                settings.connection.web_server_port,
            )
            &&& plan.client_config.reserved@ == Seq::<char>::empty()
            &&& (plan.client_config.server_version is Some <==> semver_parts(
                headset_info.reserved@,
            ) is Some)
            &&& (plan.client_config.server_version matches Some(v) ==> semver_parts(
                headset_info.reserved@,
            ) == Some(v.parts()))
            &&& plan.restart == !last_config.matches(plan.openvr_config)
            &&& plan.refresh_rate_supported == rate_offered(
                headset_info.available_refresh_rates@,
                settings.video.preferred_fps,
            )
            &&& plan.microphone_sample_rate == headset_info.microphone_sample_rate
        },
    }
}

/// Whether a list holds the addresses at which to look for the client: that
/// of a discovered and trusted client alone, else every manual address of
/// the registry, once.
pub open spec fn is_candidate_list(
    ips: Seq<IpAddress>,
    trusted_discovered_client_id: Option<ClientId>,
    clients: Map<Seq<char>, ClientDescView>,
) -> bool {
    match trusted_discovered_client_id {
        Some(id) => ips == seq![id.ip],
        None => {
            &&& ips.no_duplicates()
            &&& forall|ip: IpAddress| #[trigger] ips.contains(ip) <==> is_manual_ip(clients, ip)
        },
    }
}

/// What the handshake has seen last.
pub enum HandshakeEvent {
    /// Nothing yet: the handshake begins.
    Begin,
    /// An attempt to reach a client has ended: `None` where no candidate
    /// answered in time, else the address of the client that did and what
    /// was received from it.
    Attempted { attempt: Option<(IpAddress, Result<ClientConnectionResult, String>)> },
}

/// What the handshake does next.
pub enum HandshakeTurn {
    /// Wait for `pause_ms`, then try to reach a client at the candidates.
    Connect { candidates: Vec<IpAddress>, pause_ms: u64 },
    /// The control socket failed while the reply was awaited.
    Failed { cause: String },
    /// The client has accepted the server, and the handshake is settled.
    Settled { client_ip: IpAddress, result: Result<HandshakePlan, HandshakeError> },
}

/// Whether a turn is what the handshake does next. It begins by trying the
/// candidates at once. Silence and a client in standby lead to another try
/// at the same candidates after the retry pause, a failure of the control
/// socket ends the handshake, and a client that accepts the server has the
/// handshake settled as [`is_settled`] says.
pub open spec fn is_turn_of(
    turn: HandshakeTurn,
    trusted_discovered_client_id: Option<ClientId>,
    clients: Map<Seq<char>, ClientDescView>,
    event: HandshakeEvent,
    server_ip: Seq<char>,
    settings: Settings,
    session_desc: Seq<char>,
    last_config: OpenvrConfig,
    probe: AudioProbe,
) -> bool {
    match event {
        HandshakeEvent::Begin => turn matches HandshakeTurn::Connect { candidates, pause_ms }
            && pause_ms == 0 && is_candidate_list(
            candidates@,
            trusted_discovered_client_id,
            clients,
        ),
        HandshakeEvent::Attempted { attempt } => match attempt {
            None => turn matches HandshakeTurn::Connect { candidates, pause_ms } && pause_ms
                == CONTROL_CONNECT_RETRY_PAUSE_MS && is_candidate_list(
                candidates@,
                trusted_discovered_client_id,
                clients,
            ),
            Some((_, Ok(ClientConnectionResult::ClientStandby))) => turn matches HandshakeTurn::Connect {
                candidates,
                pause_ms,
            } && pause_ms == CONTROL_CONNECT_RETRY_PAUSE_MS && is_candidate_list(
                candidates@,
                trusted_discovered_client_id,
                clients,
            ),
            Some((_, Err(cause))) => turn == (HandshakeTurn::Failed { cause }),
            Some((client_ip, Ok(ClientConnectionResult::ServerAccepted { headset_info, server_ip: _ }))) =>
                turn matches HandshakeTurn::Settled { client_ip: ip, result } && ip == client_ip
                    && is_settled(
                    result,
                    headset_info,
                    server_ip,
                    settings,
                    session_desc,
                    last_config,
                    probe,
                ),
        },
    }
}

/// Settles a handshake with a client that has accepted the server.
pub fn settle_handshake(
    headset_info: &HeadsetInfoPacket,
    server_ip: &str,
    settings: &Settings,
    session_desc: String,
    last_config: &OpenvrConfig,
    probe: &AudioProbe,
) -> (result: Result<HandshakePlan, HandshakeError>)
    ensures
        is_settled(
            result,
            *headset_info,
            server_ip@,
            *settings,
            session_desc@,
            *last_config,
            *probe,
        ),
{
    let negotiated = negotiate(&settings.video, headset_info);
    let refresh_rate_supported = refresh_rate_offered(
        &headset_info.available_refresh_rates,
        settings.video.preferred_fps,
    );
    let url = dashboard_url(server_ip, settings.connection.web_server_port);
    let game_audio_sample_rate = match game_audio_sample_rate(&settings.audio, probe) {
        Ok(rate) => rate,
        Err(e) => {
            return Err(e);
        },
    };
    let client_config = ClientConfigPacket {
        session_desc,
        dashboard_url: url,
        view_resolution_width: negotiated.video_eye_width,
        view_resolution_height: negotiated.video_eye_height,
        fps: negotiated.fps,
        game_audio_sample_rate,
        reserved: String::new(),
        server_version: client_version(headset_info.reserved.as_str()),
    };
    let openvr_config = OpenvrConfig::from_settings(settings, &negotiated);
    let restart = !last_config.same_as(&openvr_config);
    let plan = HandshakePlan {
        client_config,
        openvr_config,
        restart,
        refresh_rate_supported,
        microphone_sample_rate: headset_info.microphone_sample_rate,
    };
    proof {
        assert(is_negotiated(negotiated, settings.video, *headset_info));
        assert(plan.openvr_config.describes(*settings, negotiated));
        assert(plan.client_config.view_resolution_width == negotiated.video_eye_width);
        assert(plan.client_config.fps == negotiated.fps);
    }
    Ok(plan)
}

proof fn lemma_chosen_rate_unique(available: Seq<Scalar>, preferred: Scalar, a: Scalar, b: Scalar)
    requires
        is_chosen_rate(available, preferred, a),
        is_chosen_rate(available, preferred, b),
    ensures
        a == b,
{
    if !no_rate_eligible(available, preferred) {
        let i = choose|i: int| is_closest_rate(available, preferred, i) && a == #[trigger] available[i];
        let j = choose|j: int| is_closest_rate(available, preferred, j) && b == #[trigger] available[j];
        if i < j {
            assert(rate_eligible(available[i], preferred));
            assert(rate_distance(available[j], preferred) < rate_distance(available[i], preferred));
            assert(rate_eligible(available[j], preferred));
            assert(rate_distance(available[i], preferred) <= rate_distance(available[j], preferred));
        } else if j < i {
            assert(rate_eligible(available[j], preferred));
            assert(rate_distance(available[i], preferred) < rate_distance(available[j], preferred));
            assert(rate_eligible(available[i], preferred));
            assert(rate_distance(available[j], preferred) <= rate_distance(available[i], preferred));
        }
    }
}

/// The settings and the headset determine what is negotiated.
pub proof fn lemma_negotiated_unique(
    a: Negotiated,
    b: Negotiated,
    video: VideoDesc,
    headset_info: HeadsetInfoPacket,
)
    requires
        is_negotiated(a, video, headset_info),
        is_negotiated(b, video, headset_info),
    ensures
        a == b,
{
    lemma_chosen_rate_unique(
        headset_info.available_refresh_rates@,
        video.preferred_fps,
        a.fps,
        b.fps,
    );
}

/// A driver configuration that a handshake has stored is found unchanged by
/// the next: where the settings and the headset stay as they are and every
/// real of the configuration is a number, the handshake that finds the
/// stored configuration as the last one asks for no restart.
pub proof fn lemma_stored_config_is_kept(
    first: HandshakePlan,
    second: HandshakePlan,
    headset_info: HeadsetInfoPacket,
    settings: Settings,
    last_config: OpenvrConfig,
    first_server_ip: Seq<char>,
    second_server_ip: Seq<char>,
    first_session: Seq<char>,
    second_session: Seq<char>,
    first_probe: AudioProbe,
    second_probe: AudioProbe,
)
    requires
        is_settled(
            Ok(first),
            headset_info,
            first_server_ip,
            settings,
            first_session,
            last_config,
            first_probe,
        ),
        is_settled(
            Ok(second),
            headset_info,
            second_server_ip,
            settings,
            second_session,
            first.openvr_config,
            second_probe,
        ),
        first.openvr_config.all_numbers(),
    ensures
        !second.restart,
{
    let n1 = choose|n: Negotiated|
        is_negotiated(n, settings.video, headset_info) && #[trigger] first.openvr_config.describes(
            settings,
            n,
        );
    let n2 = choose|n: Negotiated|
        is_negotiated(n, settings.video, headset_info)
            && #[trigger] second.openvr_config.describes(settings, n);
    lemma_negotiated_unique(n1, n2, settings.video, headset_info);
    first.openvr_config.lemma_same_settings_match(second.openvr_config, settings, n1);
}

/// Takes one turn of the server's handshake: it says at which addresses to
/// look for the client, what follows each attempt to reach it, and how the
/// handshake is settled once the client has accepted the server.
/// `server_ip` is the server's address as the client sees it, written out.
pub fn client_handshake(
    trusted_discovered_client_id: &Option<ClientId>,
    registry: &ClientRegistry,
    event: HandshakeEvent,
    server_ip: &str,
    settings: &Settings,
    session_desc: String,
    last_config: &OpenvrConfig,
    probe: &AudioProbe,
) -> (turn: HandshakeTurn)
    requires
        registry.wf(),
    ensures
        is_turn_of(
            turn,
            *trusted_discovered_client_id,
            registry@,
            event,
            server_ip@,
            *settings,
            session_desc@,
            *last_config,
            *probe,
        ),
{
    match event {
        HandshakeEvent::Begin => HandshakeTurn::Connect {
            candidates: candidate_ips(trusted_discovered_client_id, registry),
            pause_ms: 0,
        },
        HandshakeEvent::Attempted { attempt } => match connect_step(attempt) {
            ConnectStep::Retry { pause_ms } => HandshakeTurn::Connect {
                candidates: candidate_ips(trusted_discovered_client_id, registry),
                pause_ms,
            },
            ConnectStep::Fail { cause } => HandshakeTurn::Failed { cause },
            ConnectStep::Proceed { headset_info, client_ip, server_ip: _ } => HandshakeTurn::Settled {
                client_ip,
                result: settle_handshake(
                    &headset_info,
                    server_ip,
                    settings,
                    session_desc,
                    last_config,
                    probe,
                ),
            },
        },
    }
}

} // verus!
