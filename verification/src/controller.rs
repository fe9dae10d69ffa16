//! The bridge controller: the life cycle of the bridge as a state machine.
//! The machine decides; binding the socket, connecting to the broker and
//! running the stages are done by the caller, who reports back what came of
//! each step.

use vstd::prelude::*;
use crate::common::ClientData;
use crate::connector::{
    listen_address, listen_address_of, prepare_connection, server_uri, server_uri_of,
    ConnectRequest,
};
use crate::error::StartupError;

verus! {

/// Where the bridge is in its life. Starting has two steps: the local socket
/// is bound first, and only with the socket bound is the broker contacted.
#[derive(Debug)]
pub enum BridgeState {
    /// Never started.
    Idle,
    /// A start is under way; `bound` tells whether the socket is bound yet.
    Starting { config: ClientData, bound: bool },
    /// Both stages run.
    Running,
    /// Stopped after running.
    Stopped,
    /// The last start failed.
    Failed,
}

/// What the caller tells the controller.
#[derive(Debug)]
pub enum ControlEvent {
    /// The operator asks for a start with this configuration.
    Start(ClientData),
    /// The socket is bound.
    Bound,
    /// The socket could not be bound.
    BindFailed(String),
    /// The broker accepted the connection.
    Connected,
    /// The connection attempt failed.
    ConnectFailed(String),
    /// The operator asks for a stop.
    Stop,
}

/// What the controller asks the caller to do next.
#[derive(Debug)]
pub enum ControlAction {
    /// Bind the datagram socket to this address and report `Bound` or
    /// `BindFailed`.
    Bind { address: String },
    /// Make this one connection attempt and report `Connected` or
    /// `ConnectFailed`.
    Connect(ConnectRequest),
    /// Hand the socket to a receiver stage and the connection to a publisher
    /// stage, and let both run.
    Spawn,
    /// Give the error to whoever asked for the start. Nothing is spawned;
    /// the socket is released first where it was bound.
    Fail { error: StartupError, release_socket: bool },
    /// End both stages at their next blocking call and release the socket
    /// and the connection.
    Teardown,
    /// The event has no place in the current state; nothing changes.
    Refuse,
}

/// Whether an event has a place in a state. A start is taken where no bridge
/// is starting or running; a stop only where one runs; the outcome of a step
/// only while that step is awaited.
pub open spec fn accepts(state: BridgeState, event: ControlEvent) -> bool {
    match (state, event) {
        (BridgeState::Idle, ControlEvent::Start(_)) => true,
        (BridgeState::Stopped, ControlEvent::Start(_)) => true,
        (BridgeState::Failed, ControlEvent::Start(_)) => true,
        (BridgeState::Starting { bound: false, .. }, ControlEvent::Bound) => true,
        (BridgeState::Starting { bound: false, .. }, ControlEvent::BindFailed(_)) => true,
        (BridgeState::Starting { bound: true, .. }, ControlEvent::Connected) => true,
        (BridgeState::Starting { bound: true, .. }, ControlEvent::ConnectFailed(_)) => true,
        (BridgeState::Running, ControlEvent::Stop) => true,
        _ => false,
    }
}

/// The state after an event.
pub open spec fn next_state(state: BridgeState, event: ControlEvent) -> BridgeState {
    match (state, event) {
        (BridgeState::Idle, ControlEvent::Start(config)) => BridgeState::Starting {
            config,
            bound: false,
        },
        (BridgeState::Stopped, ControlEvent::Start(config)) => BridgeState::Starting {
            config,
            bound: false,
        },
        (BridgeState::Failed, ControlEvent::Start(config)) => BridgeState::Starting {
            config,
            bound: false,
        },
        (BridgeState::Starting { config, bound: false }, ControlEvent::Bound) => {
            BridgeState::Starting { config, bound: true }
        },
        (BridgeState::Starting { bound: false, .. }, ControlEvent::BindFailed(_)) => {
            BridgeState::Failed
        },
        (BridgeState::Starting { bound: true, .. }, ControlEvent::Connected) => {
            BridgeState::Running
        },
        (BridgeState::Starting { bound: true, .. }, ControlEvent::ConnectFailed(_)) => {
            BridgeState::Failed
        },
        (BridgeState::Running, ControlEvent::Stop) => BridgeState::Stopped,
        _ => state,
    }
}

/// Whether an action is the answer to an event in a state.
pub open spec fn answers(action: ControlAction, state: BridgeState, event: ControlEvent) -> bool {
    match (state, event) {
        (BridgeState::Idle, ControlEvent::Start(config)) => binds(action, config),
        (BridgeState::Stopped, ControlEvent::Start(config)) => binds(action, config),
        (BridgeState::Failed, ControlEvent::Start(config)) => binds(action, config),
        (BridgeState::Starting { config, bound: false }, ControlEvent::Bound) => {
            &&& action matches ControlAction::Connect(request)
            &&& request.server_uri@ == server_uri_of(
                config.mqtt_hostname@,
                config.mqtt_port as int,
            )
            &&& request.client_id@.len() == 36
            &&& request.user_name@ == config.mqtt_user@
            &&& request.password@ == config.mqtt_pwd@
        },
        (BridgeState::Starting { config, bound: false }, ControlEvent::BindFailed(reason)) => {
            &&& action matches ControlAction::Fail {
                error: StartupError::BindError { address, cause },
                release_socket,
            }
            &&& address@ == listen_address_of(config.udp_port as int)
            &&& cause == reason
            &&& !release_socket
        },
        (BridgeState::Starting { bound: true, .. }, ControlEvent::Connected) => {
            action is Spawn
        },
        (BridgeState::Starting { config, bound: true }, ControlEvent::ConnectFailed(reason)) => {
            &&& action matches ControlAction::Fail {
                error: StartupError::ConnectError { server_uri, cause },
                release_socket,
            }
            &&& server_uri@ == server_uri_of(config.mqtt_hostname@, config.mqtt_port as int)
            &&& cause == reason
            &&& release_socket
        },
        (BridgeState::Running, ControlEvent::Stop) => action is Teardown,
        _ => action is Refuse,
    }
}

/// The action that opens a start: bind the configured datagram port.
pub open spec fn binds(action: ControlAction, config: ClientData) -> bool {
    &&& action matches ControlAction::Bind { address }
    &&& address@ == listen_address_of(config.udp_port as int)
}

/// One step of the controller: the state after the event, and what the
/// caller is to do next. An event that has no place in the state is refused
/// and changes nothing.
pub fn step(state: BridgeState, event: ControlEvent) -> (next: (BridgeState, ControlAction))
    ensures
        next.0 == next_state(state, event),
        answers(next.1, state, event),
{
    match (state, event) {
        (BridgeState::Idle, ControlEvent::Start(config)) => begin(config),
        (BridgeState::Stopped, ControlEvent::Start(config)) => begin(config),
        (BridgeState::Failed, ControlEvent::Start(config)) => begin(config),
        (BridgeState::Starting { config, bound: false }, ControlEvent::Bound) => {
            let request = prepare_connection(&config);
            (BridgeState::Starting { config, bound: true }, ControlAction::Connect(request))
        },
        (BridgeState::Starting { config, bound: false }, ControlEvent::BindFailed(cause)) => {
            let error = StartupError::BindError { address: listen_address(config.udp_port), cause };
            (BridgeState::Failed, ControlAction::Fail { error, release_socket: false })
        },
        (BridgeState::Starting { config: _, bound: true }, ControlEvent::Connected) => {
            (BridgeState::Running, ControlAction::Spawn)
        },
        (BridgeState::Starting { config, bound: true }, ControlEvent::ConnectFailed(cause)) => {
            let error = StartupError::ConnectError {
                server_uri: server_uri(config.mqtt_hostname.as_str(), config.mqtt_port),
                cause,
            };
            (BridgeState::Failed, ControlAction::Fail { error, release_socket: true })
        },
        (BridgeState::Running, ControlEvent::Stop) => {
            (BridgeState::Stopped, ControlAction::Teardown)
        },
        (state, _) => (state, ControlAction::Refuse),
    }
}

fn begin(config: ClientData) -> (next: (BridgeState, ControlAction))
    ensures
        next.0 == (BridgeState::Starting { config, bound: false }),
        binds(next.1, config),
{
    let address = listen_address(config.udp_port);
    (BridgeState::Starting { config, bound: false }, ControlAction::Bind { address })
}

/// A bind that fails ends the start: the bridge is `Failed`, the caller gets
/// the `BindError`, no connection is attempted and no stage is spawned.
pub proof fn lemma_bind_failure(config: ClientData, reason: String, action: ControlAction)
    requires
        answers(
            action,
            BridgeState::Starting { config, bound: false },
            ControlEvent::BindFailed(reason),
        ),
    ensures
        next_state(
            BridgeState::Starting { config, bound: false },
            ControlEvent::BindFailed(reason),
        ) == BridgeState::Failed,
        action matches ControlAction::Fail { error: StartupError::BindError { .. }, .. },
        !(action is Connect),
        !(action is Spawn),
{
}

/// A connection attempt that fails ends the start: the bridge is `Failed`,
/// the caller gets the `ConnectError`, the bound socket is released and no
/// stage is spawned.
pub proof fn lemma_connect_failure(config: ClientData, reason: String, action: ControlAction)
    requires
        answers(
            action,
            BridgeState::Starting { config, bound: true },
            ControlEvent::ConnectFailed(reason),
        ),
    ensures
        next_state(
            BridgeState::Starting { config, bound: true },
            ControlEvent::ConnectFailed(reason),
        ) == BridgeState::Failed,
        action matches ControlAction::Fail {
            error: StartupError::ConnectError { .. },
            release_socket: true,
        },
        !(action is Spawn),
{
}

/// The stages are spawned at one place only: when the connection succeeds
/// with the socket already bound. That step is also the only way into
/// `Running`.
pub proof fn lemma_spawn_only_when_connected(
    state: BridgeState,
    event: ControlEvent,
    action: ControlAction,
)
    requires
        answers(action, state, event),
    ensures
        action is Spawn <==> (state matches BridgeState::Starting { bound: true, .. }
            && event is Connected),
        next_state(state, event) is Running ==> state is Running || action is Spawn,
{
}

/// A connection is attempted at one place only: when the bind has just
/// succeeded.
pub proof fn lemma_connect_only_when_bound(
    state: BridgeState,
    event: ControlEvent,
    action: ControlAction,
)
    requires
        answers(action, state, event),
    ensures
        action is Connect <==> (state matches BridgeState::Starting { bound: false, .. }
            && event is Bound),
{
}

/// An event that has no place in the state is refused and changes nothing,
/// and only such an event is refused.
pub proof fn lemma_refusal(state: BridgeState, event: ControlEvent, action: ControlAction)
    requires
        answers(action, state, event),
    ensures
        action is Refuse <==> !accepts(state, event),
        !accepts(state, event) ==> next_state(state, event) == state,
{
}

} // verus!
