use motion_capture_client::common::ClientData;
use motion_capture_client::connector::{
    connect_request, listen_address, prepare_connection, server_uri,
};
use motion_capture_client::controller::{step, BridgeState, ControlAction, ControlEvent};
use motion_capture_client::error::StartupError;

fn config() -> ClientData {
    let mut config = ClientData::new("broker.local".to_string(), 1883, 8888);
    config.mqtt_user = "operator".to_string();
    config.mqtt_pwd = "SECRET-REDACTED".to_string();
    config
}

fn bound_state() -> BridgeState {
    let (state, _) = step(BridgeState::Idle, ControlEvent::Start(config()));
    let (state, _) = step(state, ControlEvent::Bound);
    state
}

#[test]
fn new_configuration_has_no_credentials() {
    let config = ClientData::new("host".to_string(), 1883, 8888);
    assert_eq!(config.mqtt_hostname, "host");
    assert_eq!(config.mqtt_port, 1883);
    assert_eq!(config.udp_port, 8888);
    assert_eq!(config.mqtt_user, "");
    assert_eq!(config.mqtt_pwd, "");
}

#[test]
fn configuration_clones_member_by_member() {
    let copy = config().clone();
    assert_eq!(copy.mqtt_hostname, "broker.local");
    assert_eq!(copy.mqtt_port, 1883);
    assert_eq!(copy.mqtt_user, "operator");
    assert_eq!(copy.mqtt_pwd, "SECRET-REDACTED");
    assert_eq!(copy.udp_port, 8888);
}

#[test]
fn server_uri_is_tcp_host_and_port() {
    assert_eq!(server_uri("broker.local", 1883), "tcp://broker.local:1883");
    assert_eq!(server_uri("", 0), "tcp://:0");
    assert_eq!(server_uri("10.0.0.7", 65535), "tcp://10.0.0.7:65535");
    assert_eq!(server_uri("h", -1), "tcp://h:-1");
    assert_eq!(server_uri("h", i32::MIN), "tcp://h:-2147483648");
    assert_eq!(server_uri("h", i32::MAX), "tcp://h:2147483647");
}

#[test]
fn listen_address_is_every_interface_at_the_port() {
    assert_eq!(listen_address(8888), "0.0.0.0:8888");
    assert_eq!(listen_address(1), "0.0.0.0:1");
    assert_eq!(listen_address(65535), "0.0.0.0:65535");
}

#[test]
fn connect_request_takes_the_configuration_and_the_identity() {
    let request = connect_request(&config(), "bridge-1".to_string());
    assert_eq!(request.server_uri, "tcp://broker.local:1883");
    assert_eq!(request.client_id, "bridge-1");
    assert_eq!(request.user_name, "operator");
    assert_eq!(request.password, "SECRET-REDACTED");
}

#[test]
fn anonymous_connection_has_empty_credentials() {
    let request = connect_request(&ClientData::new("h".to_string(), 1883, 8888), "id".to_string());
    assert_eq!(request.user_name, "");
    assert_eq!(request.password, "");
}

#[test]
fn each_connection_attempt_has_its_own_identity() {
    let first = prepare_connection(&config());
    let second = prepare_connection(&config());
    assert_eq!(first.client_id.chars().count(), 36);
    assert_eq!(second.client_id.chars().count(), 36);
    assert_ne!(first.client_id, second.client_id);
    assert_eq!(first.server_uri, "tcp://broker.local:1883");
    assert_eq!(first.user_name, "operator");
    assert_eq!(first.password, "SECRET-REDACTED");
}

#[test]
fn start_asks_for_the_socket_first() {
    let (state, action) = step(BridgeState::Idle, ControlEvent::Start(config()));
    assert!(matches!(state, BridgeState::Starting { bound: false, .. }));
    match action {
        ControlAction::Bind { address } => assert_eq!(address, "0.0.0.0:8888"),
        other => panic!("unexpected action {:?}", other),
    }
}

#[test]
fn bound_socket_leads_to_one_connection_attempt() {
    let (state, _) = step(BridgeState::Idle, ControlEvent::Start(config()));
    let (state, action) = step(state, ControlEvent::Bound);
    assert!(matches!(state, BridgeState::Starting { bound: true, .. }));
    match action {
        ControlAction::Connect(request) => {
            assert_eq!(request.server_uri, "tcp://broker.local:1883");
            assert_eq!(request.client_id.chars().count(), 36);
            assert_eq!(request.user_name, "operator");
            assert_eq!(request.password, "SECRET-REDACTED");
        },
        other => panic!("unexpected action {:?}", other),
    }
}

#[test]
fn connection_starts_the_stages() {
    let (state, action) = step(bound_state(), ControlEvent::Connected);
    assert!(matches!(state, BridgeState::Running));
    assert!(matches!(action, ControlAction::Spawn));
}

#[test]
fn failed_bind_fails_the_start_without_a_connection_attempt() {
    let (state, _) = step(BridgeState::Idle, ControlEvent::Start(config()));
    let (state, action) = step(state, ControlEvent::BindFailed("address in use".to_string()));
    assert!(matches!(state, BridgeState::Failed));
    match action {
        ControlAction::Fail {
            error: StartupError::BindError { address, cause },
            release_socket,
        } => {
            assert_eq!(address, "0.0.0.0:8888");
            assert_eq!(cause, "address in use");
            assert!(!release_socket);
        },
        other => panic!("unexpected action {:?}", other),
    }
    // The connection outcome has no place any more.
    let (state, action) = step(state, ControlEvent::Connected);
    assert!(matches!(state, BridgeState::Failed));
    assert!(matches!(action, ControlAction::Refuse));
}

#[test]
fn failed_connection_fails_the_start_and_releases_the_socket() {
    let (state, action) =
        step(bound_state(), ControlEvent::ConnectFailed("connection refused".to_string()));
    assert!(matches!(state, BridgeState::Failed));
    match action {
        ControlAction::Fail {
            error: StartupError::ConnectError { server_uri, cause },
            release_socket,
        } => {
            assert_eq!(server_uri, "tcp://broker.local:1883");
            assert_eq!(cause, "connection refused");
            assert!(release_socket);
        },
        other => panic!("unexpected action {:?}", other),
    }
}

#[test]
fn stop_tears_a_running_bridge_down() {
    let (state, _) = step(bound_state(), ControlEvent::Connected);
    let (state, action) = step(state, ControlEvent::Stop);
    assert!(matches!(state, BridgeState::Stopped));
    assert!(matches!(action, ControlAction::Teardown));
}

#[test]
fn start_is_taken_again_after_a_stop_or_a_failure() {
    let (state, action) = step(BridgeState::Stopped, ControlEvent::Start(config()));
    assert!(matches!(state, BridgeState::Starting { bound: false, .. }));
    assert!(matches!(action, ControlAction::Bind { .. }));
    let (state, action) = step(BridgeState::Failed, ControlEvent::Start(config()));
    assert!(matches!(state, BridgeState::Starting { bound: false, .. }));
    assert!(matches!(action, ControlAction::Bind { .. }));
}

#[test]
fn events_out_of_place_are_refused() {
    let (state, action) = step(BridgeState::Idle, ControlEvent::Stop);
    assert!(matches!(state, BridgeState::Idle));
    assert!(matches!(action, ControlAction::Refuse));

    let (state, action) = step(BridgeState::Idle, ControlEvent::Connected);
    assert!(matches!(state, BridgeState::Idle));
    assert!(matches!(action, ControlAction::Refuse));

    let (state, action) = step(BridgeState::Running, ControlEvent::Start(config()));
    assert!(matches!(state, BridgeState::Running));
    assert!(matches!(action, ControlAction::Refuse));

    let (state, _) = step(BridgeState::Idle, ControlEvent::Start(config()));
    let (state, action) = step(state, ControlEvent::Start(config()));
    assert!(matches!(state, BridgeState::Starting { bound: false, .. }));
    assert!(matches!(action, ControlAction::Refuse));
    let (state, action) = step(state, ControlEvent::Connected);
    assert!(matches!(state, BridgeState::Starting { bound: false, .. }));
    assert!(matches!(action, ControlAction::Refuse));

    let (state, action) = step(bound_state(), ControlEvent::Bound);
    assert!(matches!(state, BridgeState::Starting { bound: true, .. }));
    assert!(matches!(action, ControlAction::Refuse));
    let (state, action) = step(state, ControlEvent::Stop);
    assert!(matches!(state, BridgeState::Starting { bound: true, .. }));
    assert!(matches!(action, ControlAction::Refuse));
}
