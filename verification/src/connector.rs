//! The broker connector's plan: where to connect, as whom, and with which
//! credentials. Opening the connection is left to the caller.

use vstd::prelude::*;
use vstd::string::*;
use crate::common::ClientData;
use crate::decimal::{decimal, push_decimal};

verus! {

/// The URI of a broker that is reached over plain TCP.
pub open spec fn server_uri_of(hostname: Seq<char>, port: int) -> Seq<char> {
    "tcp://"@ + hostname + seq![':'] + decimal(port)
}

/// The local address that datagrams are received on: every interface, at the
/// given port.
pub open spec fn listen_address_of(port: int) -> Seq<char> {
    "0.0.0.0:"@ + decimal(port)
}

/// The URI of the broker at a host and port.
pub fn server_uri(hostname: &str, port: i32) -> (uri: String)
    ensures
        uri@ == server_uri_of(hostname@, port as int),
{
    let mut uri = String::from_str("tcp://");
    uri.append(hostname);
    uri.append(":");
    proof {
        reveal_strlit(":");
    }
    push_decimal(&mut uri, port as i64);
    assert(uri@ =~= server_uri_of(hostname@, port as int));
    uri
}

/// The local address for a datagram port.
pub fn listen_address(port: i32) -> (address: String)
    ensures
        address@ == listen_address_of(port as int),
{
    let mut address = String::from_str("0.0.0.0:");
    push_decimal(&mut address, port as i64);
    address
}

/// Everything that one connection attempt needs. Empty credentials stand for
/// an anonymous connection.
#[derive(Debug)]
pub struct ConnectRequest {
    pub server_uri: String,
    pub client_id: String,
    pub user_name: String,
    pub password: String,
}

/// Calls `uuid::Uuid::new_v4` and writes the identifier as text. Trusted: the
/// text is the hyphenated form, which has 36 characters. The identifier is
/// random, so nothing else is said of it.
#[verifier::external_body]
fn fresh_client_id() -> (id: String)
    ensures
        id@.len() == 36,
{
    uuid::Uuid::new_v4().to_string()
}

/// The request that connects to the configured broker under a given client
/// identity.
pub fn connect_request(config: &ClientData, client_id: String) -> (request: ConnectRequest)
    ensures
        request.server_uri@ == server_uri_of(config.mqtt_hostname@, config.mqtt_port as int),
        request.client_id == client_id,
        request.user_name@ == config.mqtt_user@,
        request.password@ == config.mqtt_pwd@,
{
    ConnectRequest {
        server_uri: server_uri(config.mqtt_hostname.as_str(), config.mqtt_port),
        client_id,
        user_name: config.mqtt_user.clone(),
        password: config.mqtt_pwd.clone(),
    }
}

/// The request for one connection attempt, under an identity made for this
/// attempt alone.
pub fn prepare_connection(config: &ClientData) -> (request: ConnectRequest)
    ensures
        request.server_uri@ == server_uri_of(config.mqtt_hostname@, config.mqtt_port as int),
        request.client_id@.len() == 36,
        request.user_name@ == config.mqtt_user@,
        request.password@ == config.mqtt_pwd@,
{
    connect_request(config, fresh_client_id())
}

} // verus!
