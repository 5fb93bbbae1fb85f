//! The life of one connection on the server, as a state machine.
//!
//! The caller owns the sockets, timers and the VR driver. It reports what
//! happened as a [`PipelineEvent`]; [`step`] answers with the next state and
//! the [`Action`]s to carry out, in order. A pipeline starts with
//! [`start`], looks for a client, claims the streams step by step,
//! supervises the stream loops and ends when the first of them ends.
//! [`connection_lifecycle_loop`] says how long to wait before the next
//! pipeline.

use vstd::prelude::*;
use vstd::string::StringExecFns;
use crate::control::ClientControlPacket;
use crate::control::ServerControlPacket;
use crate::handshake::mbits_to_bytes;
use crate::handshake::mbits_to_bytes_of;
use crate::registry::IpAddress;
use crate::settings::DiscoveryConfig;
use crate::settings::Settings;
use crate::settings::SocketProtocol;

verus! {

/// Least time between the starts of two pipelines, in milliseconds.
pub const RETRY_CONNECT_MIN_INTERVAL_MS: u64 = 1000;

/// Pause that lets tasks and sockets shut down, in milliseconds.
pub const CLEANUP_PAUSE_MS: u64 = 500;

/// Time allowed for setting up the stream socket, in milliseconds.
pub const STREAM_SETUP_TIMEOUT_MS: u64 = 5000;

/// The streams that share the stream socket.
#[derive(Clone, Copy, Debug, PartialEq, Eq, Structural)]
pub enum StreamId {
    Video,
    Audio,
    Haptics,
    Tracking,
    Statistics,
}

/// The loops that run while a client is connected.
#[derive(Clone, Copy, Debug, PartialEq, Eq, Structural)]
pub enum StreamLoop {
    Receive,
    GameAudio,
    Microphone,
    VideoSend,
    HapticsSend,
    TrackingReceive,
    StatisticsReceive,
    Keepalive,
    Control,
}

/// What the server announces to its user interface.
#[derive(Clone, Copy, Debug, PartialEq, Eq, Structural)]
pub enum ServerEvent {
    ClientConnected,
    ClientDisconnected,
}

/// The two scripts, named by the value of `ACTION` that each is run with.
#[derive(Clone, Copy, Debug, PartialEq, Eq, Structural)]
pub enum ScriptAction {
    Connect,
    Disconnect,
}

/// Why a pipeline ended in failure.
#[derive(Clone, Copy, Debug, PartialEq, Eq, Structural)]
pub enum PipelineError {
    /// `StartStream` could not be sent.
    StartStreamSend,
    /// The client answered `StartStream` with another packet than
    /// `StreamReady`.
    UnexpectedStreamAck,
    /// The control socket failed while `StreamReady` was awaited.
    StreamAckReceive,
    /// The stream socket could not be set up.
    StreamSocket,
    /// The stream socket was not set up in time.
    StreamSetupTimeout,
    /// A stream could not be claimed, or the microphone device not opened.
    StreamClaim,
    /// A stream loop ended with an error.
    Loop(StreamLoop),
}

/// Where a pipeline stands.
#[derive(Clone, Copy, Debug, PartialEq, Eq, Structural)]
pub enum PipelineState {
    /// Looking for a client; `trusted` is the address of a client that
    /// discovery has found.
    Searching { trusted: Option<IpAddress> },
    /// `StartStream` is sent and `StreamReady` awaited.
    AwaitingStreamReady { client_ip: IpAddress },
    /// The stream socket is being set up.
    ConnectingStreams { client_ip: IpAddress },
    /// The client is connected and the streams are claimed one by one;
    /// `done` of the steps of [`setup_steps_of`] have succeeded. The
    /// streaming state of the driver is initialized and has to be closed
    /// again.
    SettingUp { done: usize },
    /// The client is connected and the stream loops run. The streaming state
    /// of the driver is initialized and has to be closed again.
    Streaming,
    /// The driver restarts; nothing happens until the server starts anew.
    Suspended,
    /// The pipeline has ended.
    Finished { error: Option<PipelineError> },
}

/// What happened.
#[derive(Clone, Copy, Debug, PartialEq, Eq, Structural)]
pub enum PipelineEvent {
    /// Discovery found a client that is trusted.
    DiscoveryResolved { ip: IpAddress },
    /// Discovery failed.
    DiscoveryFailed,
    /// The handshake is complete; `restart` says that the driver
    /// configuration has changed.
    HandshakeCompleted { client_ip: IpAddress, restart: bool },
    /// The handshake failed.
    HandshakeFailed,
    /// The list of clients was changed.
    ClientsUpdated,
    /// A packet could not be sent on the control socket.
    ControlSendFailed,
    /// A packet arrived on the control socket.
    ControlReceived { packet: ClientControlPacket },
    /// The control socket failed on receiving.
    ControlReceiveFailed,
    /// The stream socket is set up.
    StreamSocketReady,
    /// The stream socket could not be set up.
    StreamSocketFailed,
    /// The time for setting up the stream socket is over.
    StreamSetupTimeout,
    /// The step of the setup that was asked for last has succeeded.
    SetupStepDone,
    /// A stream could not be claimed, or the microphone device not opened.
    StreamClaimFailed,
    /// A stream loop ended.
    LoopEnded { which: StreamLoop, failed: bool },
    /// The user asked to disconnect the client.
    DisconnectRequested,
    /// The driver is about to restart.
    RestartRequested,
}

/// What to do.
#[derive(Clone, Copy, Debug, PartialEq, Eq, Structural)]
pub enum Action {
    /// Look for a client until the first of both ends: discovery, where
    /// `discovery` is set, and a handshake with the given address, or with
    /// the manual addresses of the registry where none is given.
    Search { discovery: Option<DiscoveryConfig>, handshake_with: Option<IpAddress> },
    /// Wait.
    Sleep { ms: u64 },
    /// Send a packet on the control socket.
    SendControl { packet: ServerControlPacket },
    /// Await a packet on the control socket.
    ReceiveControl,
    /// Store the driver configuration of the handshake in the session.
    StoreOpenvrConfig,
    /// Restart the driver.
    RestartDriver,
    /// Set up the stream socket within `timeout_ms`.
    ConnectStreamSocket {
        client_ip: IpAddress,
        port: u16,
        protocol: SocketProtocol,
        bandwidth_bytes: u32,
        timeout_ms: u64,
    },
    /// Replace the statistics engine by a new one.
    InstallStatistics { history_size: u64 },
    /// Announce to the user interface.
    Emit { event: ServerEvent },
    /// Run the script that the settings name for this action.
    RunScript { action: ScriptAction },
    /// Initialize the streaming state of the driver.
    InitializeStreaming,
    /// Claim a stream of the stream socket, to send on (`outbound`) or to
    /// receive from. A step of the setup: it is answered by
    /// [`PipelineEvent::SetupStepDone`] or
    /// [`PipelineEvent::StreamClaimFailed`].
    ClaimStream { stream: StreamId, outbound: bool },
    /// Open the virtual microphone device. A step of the setup.
    OpenMicrophoneDevice,
    /// Start the thread that hands the playspace to the driver. A step of
    /// the setup, which cannot fail.
    StartPlayspaceThread,
    /// Start a stream loop.
    Spawn { which: StreamLoop },
    /// Stop all stream loops.
    CancelLoops,
    /// Empty the slots that the connection has filled: the senders for video
    /// and haptics and the statistics engine. What is handed to an empty
    /// slot is dropped.
    ClearSlots,
    /// Close the streaming state of the driver.
    DeinitializeStreaming,
}

/// The search for a client: discovery takes part while it is switched on
/// and has found nobody yet.
pub open spec fn search_of(trusted: Option<IpAddress>, settings: Settings) -> Action {
    Action::Search {
        discovery: if trusted is None {
            settings.connection.client_discovery
        } else {
            None
        },
        handshake_with: trusted,
    }
}

/// The script to run for an action: none where the settings name none.
pub open spec fn script_of(action: ScriptAction, settings: Settings) -> Seq<Action> {
    let path = match action {
        ScriptAction::Connect => settings.connection.on_connect_script@,
        ScriptAction::Disconnect => settings.connection.on_disconnect_script@,
    };
    if path.len() == 0 {
        Seq::empty()
    } else {
        seq![Action::RunScript { action }]
    }
}

/// What releases a connection: the loops stop, the slots are emptied, the
/// streaming state of the driver is closed and the disconnect script runs.
pub open spec fn teardown_of(settings: Settings) -> Seq<Action> {
    seq![Action::CancelLoops, Action::ClearSlots, Action::DeinitializeStreaming] + script_of(
        ScriptAction::Disconnect,
        settings,
    )
}

/// The claims and loops of the audio streams that are switched on.
pub open spec fn audio_claims_of(settings: Settings) -> Seq<Action> {
    (if settings.audio.game_audio is Some {
        seq![Action::ClaimStream { stream: StreamId::Audio, outbound: true }]
    } else {
        Seq::empty()
    }) + (if settings.audio.microphone {
        seq![
            Action::OpenMicrophoneDevice,
            Action::ClaimStream { stream: StreamId::Audio, outbound: false },
        ]
    } else {
        Seq::empty()
    })
}

/// The stream loops to start, in order.
pub open spec fn spawns_of(settings: Settings) -> Seq<Action> {
    seq![Action::Spawn { which: StreamLoop::Receive }] + (if settings.audio.game_audio is Some {
        seq![Action::Spawn { which: StreamLoop::GameAudio }]
    } else {
        Seq::empty()
    }) + (if settings.audio.microphone {
        seq![Action::Spawn { which: StreamLoop::Microphone }]
    } else {
        Seq::empty()
    }) + seq![
        Action::Spawn { which: StreamLoop::VideoSend },
        Action::Spawn { which: StreamLoop::StatisticsReceive },
        Action::Spawn { which: StreamLoop::HapticsSend },
        Action::Spawn { which: StreamLoop::TrackingReceive },
        Action::Spawn { which: StreamLoop::Keepalive },
        Action::Spawn { which: StreamLoop::Control },
    ]
}

/// The steps that claim the streams, in order. Each is carried out alone,
/// and the next follows once it has succeeded.
pub open spec fn setup_steps_of(settings: Settings) -> Seq<Action> {
    audio_claims_of(settings) + seq![
        Action::ClaimStream { stream: StreamId::Video, outbound: true },
        Action::ClaimStream { stream: StreamId::Haptics, outbound: true },
    ] + (if settings.headset.tracking_ref_only {
        Seq::empty()
    } else {
        seq![Action::StartPlayspaceThread]
    }) + seq![
        Action::ClaimStream { stream: StreamId::Tracking, outbound: false },
        Action::ClaimStream { stream: StreamId::Statistics, outbound: false },
    ]
}

/// What the server does once the stream socket is set up: the client
/// counts as connected, the streaming state of the driver is initialized,
/// and the first step of the setup is taken.
pub open spec fn stream_start_of(settings: Settings) -> Seq<Action> {
    seq![
        Action::InstallStatistics { history_size: settings.connection.statistics_history_size },
        Action::Emit { event: ServerEvent::ClientConnected },
    ] + script_of(ScriptAction::Connect, settings) + seq![
        Action::InitializeStreaming,
        setup_steps_of(settings)[0],
    ]
}

/// What follows a step of the setup that has succeeded: the next step, or
/// the start of the stream loops after the last.
pub open spec fn after_step_of(done: usize, settings: Settings) -> (PipelineState, Seq<Action>) {
    if done + 1 < setup_steps_of(settings).len() {
        (
            PipelineState::SettingUp { done: (done + 1) as usize },
            seq![setup_steps_of(settings)[done + 1]],
        )
    } else {
        (PipelineState::Streaming, spawns_of(settings))
    }
}

/// How a pipeline ends when a stream loop has ended: the receive loop ends
/// the connection without error, whatever its own result.
pub open spec fn loop_outcome_of(which: StreamLoop, failed: bool) -> Option<PipelineError> {
    if failed && which != StreamLoop::Receive {
        Some(PipelineError::Loop(which))
    } else {
        None
    }
}

/// The state after an event and the actions that the event calls for. An
/// event that has no meaning in a state changes nothing.
pub open spec fn next(state: PipelineState, event: PipelineEvent, settings: Settings) -> (
    PipelineState,
    Seq<Action>,
) {
    match state {
        PipelineState::Searching { trusted } => match event {
            PipelineEvent::DiscoveryResolved { ip } => if trusted is None {
                (
                    PipelineState::Searching { trusted: Some(ip) },
                    seq![Action::Sleep { ms: CLEANUP_PAUSE_MS }, search_of(Some(ip), settings)],
                )
            } else {
                (state, Seq::empty())
            },
            PipelineEvent::DiscoveryFailed => (
                PipelineState::Finished { error: None },
                Seq::empty(),
            ),
            PipelineEvent::HandshakeFailed => (
                PipelineState::Finished { error: None },
                Seq::empty(),
            ),
            PipelineEvent::ClientsUpdated => (
                PipelineState::Finished { error: None },
                Seq::empty(),
            ),
            PipelineEvent::HandshakeCompleted { client_ip, restart } => if restart {
                (
                    PipelineState::Suspended,
                    seq![
                        Action::StoreOpenvrConfig,
                        Action::SendControl { packet: ServerControlPacket::Restarting },
                        Action::RestartDriver,
                    ],
                )
            } else {
                (
                    PipelineState::AwaitingStreamReady { client_ip },
                    seq![
                        Action::SendControl { packet: ServerControlPacket::StartStream },
                        Action::ReceiveControl,
                    ],
                )
            },
            _ => (state, Seq::empty()),
        },
        PipelineState::AwaitingStreamReady { client_ip } => match event {
            PipelineEvent::ControlSendFailed => (
                PipelineState::Finished { error: Some(PipelineError::StartStreamSend) },
                Seq::empty(),
            ),
            PipelineEvent::ControlReceiveFailed => (
                PipelineState::Finished { error: Some(PipelineError::StreamAckReceive) },
                Seq::empty(),
            ),
            PipelineEvent::ControlReceived { packet } => if packet
                == ClientControlPacket::StreamReady {
                (
                    PipelineState::ConnectingStreams { client_ip },
                    seq![
                        Action::ConnectStreamSocket {
                            client_ip,
                            port: settings.connection.stream_port,
                            protocol: settings.connection.stream_protocol,
                            bandwidth_bytes: mbits_to_bytes_of(
                                settings.video.encode_bitrate_mbs as int,
                            ) as u32,
                            timeout_ms: STREAM_SETUP_TIMEOUT_MS,
                        },
                    ],
                )
            } else {
                (
                    PipelineState::Finished { error: Some(PipelineError::UnexpectedStreamAck) },
                    Seq::empty(),
                )
            },
            _ => (state, Seq::empty()),
        },
        PipelineState::ConnectingStreams { client_ip } => match event {
            PipelineEvent::StreamSocketReady => (
                PipelineState::SettingUp { done: 0 },
                stream_start_of(settings),
            ),
            PipelineEvent::StreamSocketFailed => (
                PipelineState::Finished { error: Some(PipelineError::StreamSocket) },
                Seq::empty(),
            ),
            PipelineEvent::StreamSetupTimeout => (
                PipelineState::Finished { error: Some(PipelineError::StreamSetupTimeout) },
                Seq::empty(),
            ),
            _ => (state, Seq::empty()),
        },
        PipelineState::SettingUp { done } => match event {
            PipelineEvent::SetupStepDone => after_step_of(done, settings),
            PipelineEvent::StreamClaimFailed => (
                PipelineState::Finished { error: Some(PipelineError::StreamClaim) },
                teardown_of(settings),
            ),
            _ => (state, Seq::empty()),
        },
        PipelineState::Streaming => match event {
            PipelineEvent::LoopEnded { which, failed } => (
                PipelineState::Finished { error: loop_outcome_of(which, failed) },
                (if which == StreamLoop::Receive {
                    seq![Action::Emit { event: ServerEvent::ClientDisconnected }]
                } else {
                    Seq::empty()
                }) + teardown_of(settings),
            ),
            PipelineEvent::DisconnectRequested => (
                PipelineState::Finished { error: None },
                teardown_of(settings),
            ),
            PipelineEvent::RestartRequested => (
                PipelineState::Finished { error: None },
                seq![Action::SendControl { packet: ServerControlPacket::Restarting }]
                    + teardown_of(settings),
            ),
            _ => (state, Seq::empty()),
        },
        PipelineState::Suspended => (state, Seq::empty()),
        PipelineState::Finished { error } => (state, Seq::empty()),
    }
}

/// The state and the actions after a sequence of events.
pub open spec fn run(state: PipelineState, events: Seq<PipelineEvent>, settings: Settings) -> (
    PipelineState,
    Seq<Action>,
)
    decreases events.len(),
{
    if events.len() == 0 {
        (state, Seq::empty())
    } else {
        let before = run(state, events.drop_last(), settings);
        let last = next(before.0, events.last(), settings);
        (last.0, before.1 + last.1)
    }
}

/// How often an action occurs.
pub open spec fn occurrences(actions: Seq<Action>, action: Action) -> nat
    decreases actions.len(),
{
    if actions.len() == 0 {
        0
    } else {
        occurrences(actions.drop_last(), action) + (if actions.last() == action {
            1nat
        } else {
            0nat
        })
    }
}

proof fn lemma_occurrences_add(a: Seq<Action>, b: Seq<Action>, action: Action)
    ensures
        occurrences(a + b, action) == occurrences(a, action) + occurrences(b, action),
    decreases b.len(),
{
    if b.len() == 0 {
        assert(a + b =~= a);
    } else {
        assert((a + b).drop_last() =~= a + b.drop_last());
        assert((a + b).last() == b.last());
        lemma_occurrences_add(a, b.drop_last(), action);
    }
}

proof fn lemma_occurrences_one(x: Action, action: Action)
    ensures
        occurrences(seq![x], action) == (if x == action {
            1nat
        } else {
            0nat
        }),
{
    assert(seq![x].drop_last() =~= Seq::<Action>::empty());
    assert(seq![x].last() == x);
    reveal_with_fuel(occurrences, 2);
}

proof fn lemma_teardown_counts(settings: Settings)
    ensures
        occurrences(teardown_of(settings), Action::InitializeStreaming) == 0,
        occurrences(teardown_of(settings), Action::DeinitializeStreaming) == 1,
        occurrences(teardown_of(settings), Action::RunScript { action: ScriptAction::Disconnect })
            == (if settings.connection.on_disconnect_script@.len() == 0 {
            0nat
        } else {
            1nat
        }),
{
    let init = Action::InitializeStreaming;
    let deinit = Action::DeinitializeStreaming;
    let script = Action::RunScript { action: ScriptAction::Disconnect };
    let head = seq![Action::CancelLoops, Action::ClearSlots, Action::DeinitializeStreaming];
    let lead = seq![Action::CancelLoops, Action::ClearSlots];
    let tail = script_of(ScriptAction::Disconnect, settings);
    assert(head =~= lead + seq![Action::DeinitializeStreaming]);
    lemma_occurrences_add(lead, seq![Action::DeinitializeStreaming], init);
    lemma_occurrences_add(lead, seq![Action::DeinitializeStreaming], deinit);
    lemma_occurrences_add(lead, seq![Action::DeinitializeStreaming], script);
    lemma_no_occurrence(lead, init);
    lemma_no_occurrence(lead, deinit);
    lemma_no_occurrence(lead, script);
    lemma_occurrences_one(Action::DeinitializeStreaming, init);
    lemma_occurrences_one(Action::DeinitializeStreaming, deinit);
    lemma_occurrences_one(Action::DeinitializeStreaming, script);
    lemma_occurrences_add(head, tail, init);
    lemma_occurrences_add(head, tail, deinit);
    lemma_occurrences_add(head, tail, script);
    if settings.connection.on_disconnect_script@.len() != 0 {
        lemma_occurrences_one(script, init);
        lemma_occurrences_one(script, deinit);
        lemma_occurrences_one(script, script);
    }
}

/// Whether an action initializes or closes the streaming state of the
/// driver, or runs the disconnect script.
spec fn is_guard_action(action: Action) -> bool {
    action == Action::InitializeStreaming || action == Action::DeinitializeStreaming || action
        == (Action::RunScript { action: ScriptAction::Disconnect })
}

/// Whether none of the actions is one of [`is_guard_action`].
spec fn guard_free(actions: Seq<Action>) -> bool {
    &&& occurrences(actions, Action::InitializeStreaming) == 0
    &&& occurrences(actions, Action::DeinitializeStreaming) == 0
    &&& occurrences(actions, Action::RunScript { action: ScriptAction::Disconnect }) == 0
}

proof fn lemma_no_occurrence(actions: Seq<Action>, action: Action)
    requires
        forall|i: int| 0 <= i < actions.len() ==> #[trigger] actions[i] != action,
    ensures
        occurrences(actions, action) == 0,
    decreases actions.len(),
{
    if actions.len() > 0 {
        assert(actions.last() == actions[actions.len() - 1]);
        assert forall|i: int| 0 <= i < actions.drop_last().len() implies #[trigger] actions.drop_last()[i]
            != action by {
            assert(actions.drop_last()[i] == actions[i]);
        }
        lemma_no_occurrence(actions.drop_last(), action);
    }
}

proof fn lemma_guard_free(actions: Seq<Action>)
    requires
        forall|i: int| 0 <= i < actions.len() ==> !is_guard_action(#[trigger] actions[i]),
    ensures
        guard_free(actions),
{
    lemma_no_occurrence(actions, Action::InitializeStreaming);
    lemma_no_occurrence(actions, Action::DeinitializeStreaming);
    lemma_no_occurrence(actions, Action::RunScript { action: ScriptAction::Disconnect });
}

proof fn lemma_guard_free_add(a: Seq<Action>, b: Seq<Action>)
    requires
        guard_free(a),
        guard_free(b),
    ensures
        guard_free(a + b),
{
    lemma_occurrences_add(a, b, Action::InitializeStreaming);
    lemma_occurrences_add(a, b, Action::DeinitializeStreaming);
    lemma_occurrences_add(a, b, Action::RunScript { action: ScriptAction::Disconnect });
}

proof fn lemma_spawns_guard_free(settings: Settings)
    ensures
        guard_free(spawns_of(settings)),
{
    let s1 = seq![Action::Spawn { which: StreamLoop::Receive }];
    let s2 = if settings.audio.game_audio is Some {
        seq![Action::Spawn { which: StreamLoop::GameAudio }]
    } else {
        Seq::empty()
    };
    let s3 = if settings.audio.microphone {
        seq![Action::Spawn { which: StreamLoop::Microphone }]
    } else {
        Seq::empty()
    };
    let s4 = seq![
        Action::Spawn { which: StreamLoop::VideoSend },
        Action::Spawn { which: StreamLoop::StatisticsReceive },
        Action::Spawn { which: StreamLoop::HapticsSend },
        Action::Spawn { which: StreamLoop::TrackingReceive },
        Action::Spawn { which: StreamLoop::Keepalive },
        Action::Spawn { which: StreamLoop::Control },
    ];
    lemma_guard_free(s1);
    lemma_guard_free(s2);
    lemma_guard_free(s3);
    lemma_guard_free(s4);
    lemma_guard_free_add(s1, s2);
    lemma_guard_free_add(s1 + s2, s3);
    lemma_guard_free_add(s1 + s2 + s3, s4);
}

/// Whether none of the actions is one of [`is_guard_action`], one by one.
spec fn all_plain(actions: Seq<Action>) -> bool {
    forall|i: int| 0 <= i < actions.len() ==> !is_guard_action(#[trigger] actions[i])
}

proof fn lemma_all_plain_add(a: Seq<Action>, b: Seq<Action>)
    requires
        all_plain(a),
        all_plain(b),
    ensures
        all_plain(a + b),
{
    assert forall|i: int| 0 <= i < (a + b).len() implies !is_guard_action(#[trigger] (a + b)[i]) by {
        if i < a.len() {
            assert((a + b)[i] == a[i]);
        } else {
            assert((a + b)[i] == b[i - a.len()]);
        }
    }
}

/// The pieces that the steps of the setup are made of.
spec fn setup_pieces(settings: Settings) -> (
    Seq<Action>,
    Seq<Action>,
    Seq<Action>,
    Seq<Action>,
    Seq<Action>,
) {
    (
        if settings.audio.game_audio is Some {
            seq![Action::ClaimStream { stream: StreamId::Audio, outbound: true }]
        } else {
            Seq::empty()
        },
        if settings.audio.microphone {
            seq![
                Action::OpenMicrophoneDevice,
                Action::ClaimStream { stream: StreamId::Audio, outbound: false },
            ]
        } else {
            Seq::empty()
        },
        seq![
            Action::ClaimStream { stream: StreamId::Video, outbound: true },
            Action::ClaimStream { stream: StreamId::Haptics, outbound: true },
        ],
        if settings.headset.tracking_ref_only {
            Seq::empty()
        } else {
            seq![Action::StartPlayspaceThread]
        },
        seq![
            Action::ClaimStream { stream: StreamId::Tracking, outbound: false },
            Action::ClaimStream { stream: StreamId::Statistics, outbound: false },
        ],
    )
}

proof fn lemma_setup_steps(settings: Settings)
    ensures
        setup_steps_of(settings).len() >= 4,
        all_plain(setup_steps_of(settings)),
        ({
            let p = setup_pieces(settings);
            setup_steps_of(settings) == p.0 + p.1 + p.2 + p.3 + p.4
        }),
{
    let p = setup_pieces(settings);
    assert(all_plain(p.0));
    assert(all_plain(p.1));
    assert(all_plain(p.2));
    assert(all_plain(p.3));
    assert(all_plain(p.4));
    lemma_all_plain_add(p.0, p.1);
    lemma_all_plain_add(p.0 + p.1, p.2);
    lemma_all_plain_add(p.0 + p.1 + p.2, p.3);
    lemma_all_plain_add(p.0 + p.1 + p.2 + p.3, p.4);
    assert(audio_claims_of(settings) == p.0 + p.1);
    assert(setup_steps_of(settings) =~= p.0 + p.1 + p.2 + p.3 + p.4);
}

proof fn lemma_stream_start_counts(settings: Settings)
    ensures
        occurrences(stream_start_of(settings), Action::InitializeStreaming) == 1,
        occurrences(stream_start_of(settings), Action::DeinitializeStreaming) == 0,
        occurrences(
            stream_start_of(settings),
            Action::RunScript { action: ScriptAction::Disconnect },
        ) == 0,
{
    let init = Action::InitializeStreaming;
    let deinit = Action::DeinitializeStreaming;
    let script = Action::RunScript { action: ScriptAction::Disconnect };
    let h1 = seq![
        Action::InstallStatistics { history_size: settings.connection.statistics_history_size },
        Action::Emit { event: ServerEvent::ClientConnected },
    ];
    let h2 = script_of(ScriptAction::Connect, settings);
    lemma_setup_steps(settings);
    let first = setup_steps_of(settings)[0];
    assert(!is_guard_action(first));
    let tail = seq![first];
    lemma_guard_free(h1);
    lemma_guard_free(h2);
    lemma_guard_free_add(h1, h2);
    lemma_guard_free(tail);
    let head = h1 + h2;
    assert(stream_start_of(settings) =~= head + seq![init] + tail);
    lemma_occurrences_one(init, init);
    lemma_occurrences_one(init, deinit);
    lemma_occurrences_one(init, script);
    lemma_occurrences_add(head, seq![init], init);
    lemma_occurrences_add(head, seq![init], deinit);
    lemma_occurrences_add(head, seq![init], script);
    lemma_occurrences_add(head + seq![init], tail, init);
    lemma_occurrences_add(head + seq![init], tail, deinit);
    lemma_occurrences_add(head + seq![init], tail, script);
}

/// No stream is claimed twice: among the steps of the setup, each of which
/// is taken at most once for a connection, a claim of a stream in one
/// direction occurs at most once.
pub proof fn lemma_streams_claimed_once(settings: Settings, stream: StreamId, outbound: bool)
    ensures
        occurrences(setup_steps_of(settings), Action::ClaimStream { stream, outbound }) <= 1,
{
    let claim = Action::ClaimStream { stream, outbound };
    let p = setup_pieces(settings);
    lemma_setup_steps(settings);
    lemma_no_occurrence(p.3, claim);
    lemma_at_most_once(p.0, claim);
    lemma_at_most_once(p.1, claim);
    lemma_at_most_once(p.2, claim);
    lemma_at_most_once(p.4, claim);
    if stream != StreamId::Audio || !outbound {
        lemma_no_occurrence(p.0, claim);
    }
    if stream != StreamId::Audio || outbound {
        lemma_no_occurrence(p.1, claim);
    }
    if !outbound || (stream != StreamId::Video && stream != StreamId::Haptics) {
        lemma_no_occurrence(p.2, claim);
    }
    if outbound || (stream != StreamId::Tracking && stream != StreamId::Statistics) {
        lemma_no_occurrence(p.4, claim);
    }
    lemma_occurrences_add(p.0, p.1, claim);
    lemma_occurrences_add(p.0 + p.1, p.2, claim);
    lemma_occurrences_add(p.0 + p.1 + p.2, p.3, claim);
    lemma_occurrences_add(p.0 + p.1 + p.2 + p.3, p.4, claim);
}

proof fn lemma_at_most_once(actions: Seq<Action>, action: Action)
    requires
        forall|i: int, j: int|
            0 <= i < j < actions.len() ==> !(#[trigger] actions[i] == action
                && #[trigger] actions[j] == action),
    ensures
        occurrences(actions, action) <= 1,
    decreases actions.len(),
{
    if actions.len() > 0 {
        let rest = actions.drop_last();
        assert forall|i: int, j: int| 0 <= i < j < rest.len() implies !(#[trigger] rest[i]
            == action && #[trigger] rest[j] == action) by {
            assert(rest[i] == actions[i] && rest[j] == actions[j]);
        }
        lemma_at_most_once(rest, action);
        if actions.last() == action {
            assert forall|i: int| 0 <= i < rest.len() implies #[trigger] rest[i] != action by {
                assert(rest[i] == actions[i]);
                assert(actions[actions.len() - 1] == action);
            }
            lemma_no_occurrence(rest, action);
        }
    }
}

/// Every way out of a connection empties the slots: whatever ends a
/// connection that was set up or streaming, the actions of that step hold
/// [`Action::ClearSlots`] once, behind the stop of the loops and before the
/// streaming state of the driver is closed.
pub proof fn lemma_teardown_clears_slots(
    state: PipelineState,
    event: PipelineEvent,
    settings: Settings,
)
    requires
        is_connected(state),
        next(state, event, settings).0 is Finished,
    ensures
        ({
            let actions = next(state, event, settings).1;
            exists|i: int|
                0 <= i && i + 2 < actions.len() && #[trigger] actions[i] == Action::CancelLoops
                    && actions[i + 1] == Action::ClearSlots && actions[i + 2]
                    == Action::DeinitializeStreaming
        }),
{
    let actions = next(state, event, settings).1;
    let teardown = teardown_of(settings);
    assert(teardown[0] == Action::CancelLoops && teardown[1] == Action::ClearSlots && teardown[2]
        == Action::DeinitializeStreaming);
    let lead = match event {
        PipelineEvent::LoopEnded { which, failed } => if which == StreamLoop::Receive {
            seq![Action::Emit { event: ServerEvent::ClientDisconnected }]
        } else {
            Seq::empty()
        },
        PipelineEvent::RestartRequested => seq![
            Action::SendControl { packet: ServerControlPacket::Restarting },
        ],
        _ => Seq::empty(),
    };
    assert(actions =~= lead + teardown);
    let i = lead.len() as int;
    assert(actions[i] == teardown[0] && actions[i + 1] == teardown[1] && actions[i + 2]
        == teardown[2]);
}

/// Whether the streaming state of the driver is initialized and not yet
/// closed.
pub open spec fn is_connected(state: PipelineState) -> bool {
    state is SettingUp || state is Streaming
}

/// Every connection is released exactly once. Whatever happens after the
/// start of a pipeline: the streaming state of the driver is initialized at
/// most once; it has been closed as often as it was initialized, but for the
/// one time that is still due while the client is connected; and where the
/// settings name a disconnect script, the script has run as often as the
/// streaming state was closed.
pub proof fn lemma_released_exactly_once(events: Seq<PipelineEvent>, settings: Settings)
    ensures
        ({
            let end = run(PipelineState::Searching { trusted: None }, events, settings);
            let initialized = occurrences(end.1, Action::InitializeStreaming);
            let closed = occurrences(end.1, Action::DeinitializeStreaming);
            let scripts = occurrences(
                end.1,
                Action::RunScript { action: ScriptAction::Disconnect },
            );
            &&& initialized <= 1
            &&& initialized == closed + (if is_connected(end.0) {
                1nat
            } else {
                0nat
            })
            &&& (initialized == 0 <==> (end.0 is Searching || end.0 is AwaitingStreamReady
                || end.0 is ConnectingStreams || end.0 is Suspended || (end.0 is Finished
                && closed == 0)))
            &&& scripts == (if settings.connection.on_disconnect_script@.len() == 0 {
                0nat
            } else {
                closed
            })
        }),
    decreases events.len(),
{
    let init = Action::InitializeStreaming;
    let deinit = Action::DeinitializeStreaming;
    let script = Action::RunScript { action: ScriptAction::Disconnect };
    if events.len() > 0 {
        lemma_released_exactly_once(events.drop_last(), settings);
        let before = run(PipelineState::Searching { trusted: None }, events.drop_last(), settings);
        let last = next(before.0, events.last(), settings);
        lemma_occurrences_add(before.1, last.1, init);
        lemma_occurrences_add(before.1, last.1, deinit);
        lemma_occurrences_add(before.1, last.1, script);
        lemma_step_counts(before.0, events.last(), settings);
    }
}

/// What one step adds to the counts of [`lemma_released_exactly_once`].
proof fn lemma_step_counts(state: PipelineState, event: PipelineEvent, settings: Settings)
    ensures
        ({
            let after = next(state, event, settings);
            let opens = state is ConnectingStreams && is_connected(after.0);
            let closes = is_connected(state) && after.0 is Finished;
            &&& occurrences(after.1, Action::InitializeStreaming) == (if opens {
                1nat
            } else {
                0nat
            })
            &&& occurrences(after.1, Action::DeinitializeStreaming) == (if closes {
                1nat
            } else {
                0nat
            })
            &&& occurrences(after.1, Action::RunScript { action: ScriptAction::Disconnect }) == (
            if closes && settings.connection.on_disconnect_script@.len() != 0 {
                1nat
            } else {
                0nat
            })
            &&& (is_connected(after.0) ==> opens || is_connected(state))
            &&& (is_connected(state) ==> closes || is_connected(after.0))
            &&& (state is Finished ==> after.0 == state)
            &&& (state is Suspended ==> after.0 == state)
            &&& (after.0 is Finished && !(state is Finished) && !closes ==> !is_connected(state))
        }),
{
    let init = Action::InitializeStreaming;
    let deinit = Action::DeinitializeStreaming;
    let script = Action::RunScript { action: ScriptAction::Disconnect };
    let after = next(state, event, settings);
    lemma_teardown_counts(settings);
    lemma_stream_start_counts(settings);
    lemma_setup_steps(settings);
    lemma_spawns_guard_free(settings);
    let closes = is_connected(state) && after.0 is Finished;
    let opens = state is ConnectingStreams && is_connected(after.0);
    if closes {
        let lead = match event {
            PipelineEvent::LoopEnded { which, failed } => if which == StreamLoop::Receive {
                seq![Action::Emit { event: ServerEvent::ClientDisconnected }]
            } else {
                Seq::empty()
            },
            PipelineEvent::RestartRequested => seq![
                Action::SendControl { packet: ServerControlPacket::Restarting },
            ],
            _ => Seq::empty(),
        };
        assert(after.1 =~= lead + teardown_of(settings));
        lemma_guard_free(lead);
        lemma_occurrences_add(lead, teardown_of(settings), init);
        lemma_occurrences_add(lead, teardown_of(settings), deinit);
        lemma_occurrences_add(lead, teardown_of(settings), script);
    } else if opens {
    } else if state is SettingUp && event == PipelineEvent::SetupStepDone {
        if after.0 is SettingUp {
            lemma_guard_free(after.1);
        }
    } else {
        lemma_guard_free(after.1);
    }
}

fn push_script(actions: &mut Vec<Action>, action: ScriptAction, settings: &Settings)
    ensures
        final(actions)@ == old(actions)@ + script_of(action, *settings),
{
    let empty = match action {
        ScriptAction::Connect => settings.connection.on_connect_script.as_str().is_empty(),
        ScriptAction::Disconnect => settings.connection.on_disconnect_script.as_str().is_empty(),
    };
    if !empty {
        actions.push(Action::RunScript { action });
        assert(actions@ =~= old(actions)@ + seq![Action::RunScript { action }]);
    } else {
        assert(actions@ =~= old(actions)@ + Seq::<Action>::empty());
    }
}

fn push_teardown(actions: &mut Vec<Action>, settings: &Settings)
    ensures
        final(actions)@ == old(actions)@ + teardown_of(*settings),
{
    actions.push(Action::CancelLoops);
    actions.push(Action::ClearSlots);
    actions.push(Action::DeinitializeStreaming);
    push_script(actions, ScriptAction::Disconnect, settings);
    assert(actions@ =~= old(actions)@ + teardown_of(*settings));
}

fn push_audio_claims(actions: &mut Vec<Action>, settings: &Settings)
    ensures
        final(actions)@ == old(actions)@ + audio_claims_of(*settings),
{
    if settings.audio.game_audio.is_some() {
        actions.push(Action::ClaimStream { stream: StreamId::Audio, outbound: true });
    }
    if settings.audio.microphone {
        actions.push(Action::OpenMicrophoneDevice);
        actions.push(Action::ClaimStream { stream: StreamId::Audio, outbound: false });
    }
    assert(actions@ =~= old(actions)@ + audio_claims_of(*settings));
}

fn push_spawns(actions: &mut Vec<Action>, settings: &Settings)
    ensures
        final(actions)@ == old(actions)@ + spawns_of(*settings),
{
    actions.push(Action::Spawn { which: StreamLoop::Receive });
    if settings.audio.game_audio.is_some() {
        actions.push(Action::Spawn { which: StreamLoop::GameAudio });
    }
    if settings.audio.microphone {
        actions.push(Action::Spawn { which: StreamLoop::Microphone });
    }
    actions.push(Action::Spawn { which: StreamLoop::VideoSend });
    actions.push(Action::Spawn { which: StreamLoop::StatisticsReceive });
    actions.push(Action::Spawn { which: StreamLoop::HapticsSend });
    actions.push(Action::Spawn { which: StreamLoop::TrackingReceive });
    actions.push(Action::Spawn { which: StreamLoop::Keepalive });
    actions.push(Action::Spawn { which: StreamLoop::Control });
    assert(actions@ =~= old(actions)@ + spawns_of(*settings));
}

fn setup_steps(settings: &Settings) -> (steps: Vec<Action>)
    ensures
        steps@ == setup_steps_of(*settings),
        steps@.len() >= 4,
{
    let mut steps: Vec<Action> = Vec::new();
    push_audio_claims(&mut steps, settings);
    steps.push(Action::ClaimStream { stream: StreamId::Video, outbound: true });
    steps.push(Action::ClaimStream { stream: StreamId::Haptics, outbound: true });
    if !settings.headset.tracking_ref_only {
        steps.push(Action::StartPlayspaceThread);
    }
    steps.push(Action::ClaimStream { stream: StreamId::Tracking, outbound: false });
    steps.push(Action::ClaimStream { stream: StreamId::Statistics, outbound: false });
    assert(steps@ =~= setup_steps_of(*settings));
    steps
}

fn stream_start(settings: &Settings) -> (actions: Vec<Action>)
    ensures
        actions@ == stream_start_of(*settings),
{
    let steps = setup_steps(settings);
    let mut actions: Vec<Action> = Vec::new();
    actions.push(
        Action::InstallStatistics { history_size: settings.connection.statistics_history_size },
    );
    actions.push(Action::Emit { event: ServerEvent::ClientConnected });
    push_script(&mut actions, ScriptAction::Connect, settings);
    actions.push(Action::InitializeStreaming);
    actions.push(steps[0]);
    assert(actions@ =~= stream_start_of(*settings));
    actions
}

fn after_step(done: usize, settings: &Settings) -> (after: (PipelineState, Vec<Action>))
    ensures
        (after.0, after.1@) == after_step_of(done, *settings),
{
    let steps = setup_steps(settings);
    if done < steps.len() - 1 {
        let mut actions: Vec<Action> = Vec::new();
        actions.push(steps[done + 1]);
        assert(actions@ =~= seq![setup_steps_of(*settings)[done + 1]]);
        (PipelineState::SettingUp { done: done + 1 }, actions)
    } else {
        let mut actions: Vec<Action> = Vec::new();
        push_spawns(&mut actions, settings);
        assert(actions@ =~= spawns_of(*settings));
        (PipelineState::Streaming, actions)
    }
}

fn search(trusted: Option<IpAddress>, settings: &Settings) -> (action: Action)
    ensures
        action == search_of(trusted, *settings),
{
    Action::Search {
        discovery: if trusted.is_none() {
            settings.connection.client_discovery
        } else {
            None
        },
        handshake_with: trusted,
    }
}

/// Starts a pipeline: nobody is found yet, and the search begins.
pub fn start(settings: &Settings) -> (begin: (PipelineState, Vec<Action>))
    ensures
        begin.0 == (PipelineState::Searching { trusted: None }),
        begin.1@ == seq![search_of(None, *settings)],
{
    let mut actions: Vec<Action> = Vec::new();
    actions.push(search(None, settings));
    assert(actions@ =~= seq![search_of(None, *settings)]);
    (PipelineState::Searching { trusted: None }, actions)
}

fn finished(error: Option<PipelineError>) -> (end: (PipelineState, Vec<Action>))
    ensures
        end.0 == (PipelineState::Finished { error }),
        end.1@ == Seq::<Action>::empty(),
{
    (PipelineState::Finished { error }, Vec::new())
}

fn unchanged(state: PipelineState) -> (same: (PipelineState, Vec<Action>))
    ensures
        same.0 == state,
        same.1@ == Seq::<Action>::empty(),
{
    (state, Vec::new())
}

fn released(error: Option<PipelineError>, lead: Option<Action>, settings: &Settings) -> (end: (
    PipelineState,
    Vec<Action>,
))
    ensures
        end.0 == (PipelineState::Finished { error }),
        end.1@ == (match lead {
            Some(action) => seq![action],
            None => Seq::empty(),
        }) + teardown_of(*settings),
{
    let mut actions: Vec<Action> = Vec::new();
    if let Some(action) = lead {
        actions.push(action);
    }
    let ghost lead_actions = actions@;
    push_teardown(&mut actions, settings);
    assert(lead_actions =~= (match lead {
        Some(action) => seq![action],
        None => Seq::empty(),
    }));
    (PipelineState::Finished { error }, actions)
}

/// Takes one step of the pipeline.
pub fn step(state: PipelineState, event: PipelineEvent, settings: &Settings) -> (after: (
    PipelineState,
    Vec<Action>,
))
    ensures
        (after.0, after.1@) == next(state, event, *settings),
{
    match state {
        PipelineState::Searching { trusted } => match event {
            PipelineEvent::DiscoveryResolved { ip } => {
                if trusted.is_none() {
                    let mut actions: Vec<Action> = Vec::new();
                    actions.push(Action::Sleep { ms: CLEANUP_PAUSE_MS });
                    actions.push(search(Some(ip), settings));
                    assert(actions@ =~= seq![
                        Action::Sleep { ms: CLEANUP_PAUSE_MS },
                        search_of(Some(ip), *settings),
                    ]);
                    (PipelineState::Searching { trusted: Some(ip) }, actions)
                } else {
                    unchanged(state)
                }
            },
            PipelineEvent::DiscoveryFailed => finished(None),
            PipelineEvent::HandshakeFailed => finished(None),
            PipelineEvent::ClientsUpdated => finished(None),
            PipelineEvent::HandshakeCompleted { client_ip, restart } => {
                let mut actions: Vec<Action> = Vec::new();
                if restart {
                    actions.push(Action::StoreOpenvrConfig);
                    actions.push(Action::SendControl { packet: ServerControlPacket::Restarting });
                    actions.push(Action::RestartDriver);
                    assert(actions@ =~= seq![
                        Action::StoreOpenvrConfig,
                        Action::SendControl { packet: ServerControlPacket::Restarting },
                        Action::RestartDriver,
                    ]);
                    (PipelineState::Suspended, actions)
                } else {
                    actions.push(Action::SendControl { packet: ServerControlPacket::StartStream });
                    actions.push(Action::ReceiveControl);
                    assert(actions@ =~= seq![
                        Action::SendControl { packet: ServerControlPacket::StartStream },
                        Action::ReceiveControl,
                    ]);
                    (PipelineState::AwaitingStreamReady { client_ip }, actions)
                }
            },
            _ => unchanged(state),
        },
        PipelineState::AwaitingStreamReady { client_ip } => match event {
            PipelineEvent::ControlSendFailed => finished(Some(PipelineError::StartStreamSend)),
            PipelineEvent::ControlReceiveFailed => finished(Some(PipelineError::StreamAckReceive)),
            PipelineEvent::ControlReceived { packet } => {
                if packet == ClientControlPacket::StreamReady {
                    let mut actions: Vec<Action> = Vec::new();
                    let connect = Action::ConnectStreamSocket {
                        client_ip,
                        port: settings.connection.stream_port,
                        protocol: settings.connection.stream_protocol,
                        bandwidth_bytes: mbits_to_bytes(settings.video.encode_bitrate_mbs),
                        timeout_ms: STREAM_SETUP_TIMEOUT_MS,
                    };
                    actions.push(connect);
                    assert(actions@ =~= seq![connect]);
                    (PipelineState::ConnectingStreams { client_ip }, actions)
                } else {
                    finished(Some(PipelineError::UnexpectedStreamAck))
                }
            },
            _ => unchanged(state),
        },
        PipelineState::ConnectingStreams { client_ip } => match event {
            PipelineEvent::StreamSocketReady => (
                PipelineState::SettingUp { done: 0 },
                stream_start(settings),
            ),
            PipelineEvent::StreamSocketFailed => finished(Some(PipelineError::StreamSocket)),
            PipelineEvent::StreamSetupTimeout => finished(Some(PipelineError::StreamSetupTimeout)),
            _ => unchanged(state),
        },
        PipelineState::SettingUp { done } => match event {
            PipelineEvent::SetupStepDone => after_step(done, settings),
            PipelineEvent::StreamClaimFailed => {
                let end = released(Some(PipelineError::StreamClaim), None, settings);
                assert(end.1@ =~= teardown_of(*settings));
                end
            },
            _ => unchanged(state),
        },
        PipelineState::Streaming => match event {
            PipelineEvent::LoopEnded { which, failed } => {
                let outcome = if failed && which != StreamLoop::Receive {
                    Some(PipelineError::Loop(which))
                } else {
                    None
                };
                let lead = if which == StreamLoop::Receive {
                    Some(Action::Emit { event: ServerEvent::ClientDisconnected })
                } else {
                    None
                };
                released(outcome, lead, settings)
            },
            PipelineEvent::DisconnectRequested => {
                let end = released(None, None, settings);
                assert(end.1@ =~= teardown_of(*settings));
                end
            },
            PipelineEvent::RestartRequested => released(
                None,
                Some(Action::SendControl { packet: ServerControlPacket::Restarting }),
                settings,
            ),
            _ => unchanged(state),
        },
        PipelineState::Suspended => unchanged(state),
        PipelineState::Finished { error } => unchanged(state),
    }
}

/// What is shown of an error: a fixed text for a wrong or late answer of
/// the client, and else the cause that the failing part gave, behind a
/// fixed text where the stream acknowledgement failed.
pub open spec fn error_text_of(error: PipelineError, cause: Seq<char>) -> Seq<char> {
    match error {
        PipelineError::UnexpectedStreamAck => "Got unexpected packet waiting for stream ack"@,
        PipelineError::StreamAckReceive => "Error while waiting for stream ack: "@ + cause,
        PipelineError::StreamSetupTimeout => "Timeout while setting up streams"@,
        _ => cause,
    }
}

/// Writes what is shown of an error.
pub fn error_text(error: PipelineError, cause: &str) -> (text: String)
    ensures
        text@ == error_text_of(error, cause@),
{
    match error {
        PipelineError::UnexpectedStreamAck => String::from_str(
            "Got unexpected packet waiting for stream ack",
        ),
        PipelineError::StreamAckReceive => {
            let mut text = String::from_str("Error while waiting for stream ack: ");
            text.append(cause);
            text
        },
        PipelineError::StreamSetupTimeout => String::from_str("Timeout while setting up streams"),
        _ => String::from_str(cause),
    }
}

/// The pause between the end of one pipeline and the start of the next: the
/// cleanup pause, and more where the pipeline was shorter than the least
/// interval between two starts allows.
pub open spec fn retry_pause_of(pipeline_ms: u64) -> int {
    if pipeline_ms + CLEANUP_PAUSE_MS >= RETRY_CONNECT_MIN_INTERVAL_MS {
        CLEANUP_PAUSE_MS as int
    } else {
        RETRY_CONNECT_MIN_INTERVAL_MS - pipeline_ms
    }
}

/// One turn of the outer loop, which never ends: after a pipeline that took
/// `pipeline_ms`, its error, if any, is to be shown to the user
/// (`show_error`), and the next pipeline starts after `pause_ms`.
pub fn connection_lifecycle_loop(error: Option<PipelineError>, pipeline_ms: u64) -> (turn: (
    bool,
    u64,
))
    ensures
        turn.0 == (error is Some),
        turn.1 == retry_pause_of(pipeline_ms),
        turn.1 >= CLEANUP_PAUSE_MS,
        pipeline_ms + turn.1 >= RETRY_CONNECT_MIN_INTERVAL_MS,
{
    let pause: u64 = if pipeline_ms >= RETRY_CONNECT_MIN_INTERVAL_MS - CLEANUP_PAUSE_MS {
        CLEANUP_PAUSE_MS
    } else {
        RETRY_CONNECT_MIN_INTERVAL_MS - pipeline_ms
    };
    (error.is_some(), pause)
}

} // verus!
