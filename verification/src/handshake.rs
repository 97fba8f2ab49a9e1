//! The client/server handshake made on connection. Once it has been
//! completed, the client is ready.
use vstd::prelude::*;

use std::collections::HashMap;

use crate::UserIDType;

verus! {

/// Ports for the server's services.
#[derive(Copy, Clone, Debug, PartialEq, Eq, Structural)]
pub struct ServerPortMap {
    /// Port through which we accept new connections (TCP)
    pub new_connections: u16,
    /// Port through which we accept audience mocap data (UDP)
    pub audience_mocap_in: u16,
    /// Port through which we accept performer mocap data (UDP)
    pub performer_mocap_in: u16,
    /// Port for performer audio (UDP)
    pub performer_audio_in: u16,
    /// Port for taking in client events (TCP)
    pub client_event_conn_port: u16,
    /// Port for taking in server events (TCP).
    pub server_event_conn_port: u16,
    /// Port for the backing track socket (TCP)
    pub backing_track_conn_port: u16,
}

/// The ports a server uses unless told otherwise.
pub open spec fn default_server_ports() -> ServerPortMap {
    ServerPortMap {
        new_connections: 5653,
        performer_mocap_in: 5654,
        performer_audio_in: 5655,
        client_event_conn_port: 5656,
        backing_track_conn_port: 5657,
        server_event_conn_port: 5658,
        audience_mocap_in: 9000,
    }
}

impl Default for ServerPortMap {
    fn default() -> (r: Self)
        ensures
            r == default_server_ports(),
    {
        Self {
            new_connections: 5653,
            performer_mocap_in: 5654,
            performer_audio_in: 5655,
            client_event_conn_port: 5656,
            backing_track_conn_port: 5657,
            server_event_conn_port: 5658,
            audience_mocap_in: 9000,
        }
    }
}

/// Initial message sent in response to a new connection.
#[derive(Debug)]
pub struct HandshakeAck {
    /// Informing of their user ID
    pub user_id: UserIDType,
    /// Pretty name for the server.
    pub server_pretty_identifier: String,
    pub ports: ServerPortMap,
}

impl HandshakeAck {
    /// The greeting for user `user_id`, naming the server's ports (the default ones where none are given).
    pub fn new(user_id: UserIDType, server_pretty_identifier: String, server_ports: Option<ServerPortMap>) -> (r: Self)
        ensures
            r.user_id == user_id,
            r.server_pretty_identifier == server_pretty_identifier,
            r.ports == match server_ports {
                Some(p) => p,
                None => default_server_ports(),
            },
    {
        Self {
            user_id,
            server_pretty_identifier,
            ports: match server_ports {
                Some(p) => p,
                None => ServerPortMap::default(),
            },
        }
    }
}

/// Ports that a client makes available.
#[derive(Debug)]
pub struct ClientPortMap {
    /// Port made available for receiving backing track data.
    pub backing_track: u16,
    /// Port made available for receiving future server events after handshake completion.
    pub server_event: u16,
    /// Port made available for receiving performer vrtp data
    pub vrtp_data: u16,
    /// Port made available for receiving audience motion capture data.
    pub audience_motion_capture: u16,
    /// Additional, named ports that the client wishes to let the server know it is making available for data receipt.
    pub extra_ports: HashMap<String, u16>,
}

/// The response we expect from a client; a message that does not read as this is invalid.
#[derive(Debug)]
pub struct HandshakeSynAck {
    /// Identifier confirming their type -- performer or audience
    pub user_type: u16,
    /// Confirming own ID
    pub user_id: UserIDType,
    /// Pretty name for the client
    pub own_identifier: String,
    /// Flags denoting the user's capabilities.
    pub user_flags: Vec<String>,
    pub ports: ClientPortMap,
}

/// Last message of handshake, indicating that the server is okay and things are ready to go.
#[derive(Debug)]
pub struct HandshakeCompletion {
    /// Ports for different services that should be made
    pub extra_ports: HashMap<String, u16>,
}

/// Struct indicating an error of some kind has taken place.
#[derive(Debug)]
pub struct HandshakeError {
    /// Whether or not the user should try to reconnect after this.
    pub should_reconnect: bool,
    /// Error name/identifier
    pub err_name: String,
    /// Error message
    pub err_message: String,
}

} // verus!
