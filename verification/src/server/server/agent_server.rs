//! The decisions of the agent server: its configuration, and what becomes
//! of a connection once its handshake ended.
//!
//! Listening, the TLS handshake and the task that accepts connections are
//! the caller's; whether that task runs is kept in a
//! [`crate::accepting::ReceiverTask`].

use vstd::prelude::*;
use crate::server::server::agent_connection::{AgentConnection, HandshakeError};
use crate::server::server::agent_connection_manager::{
    keyed_by_identifier, AddAgentConnectionError, AgentConnectionManager,
};

verus! {

/// Why the server could not be created.
#[derive(Debug)]
pub enum AgentServerCreateError {
    IO(std::io::Error),
}

/// Why an incoming connection was not added to the connected agents.
#[derive(Debug)]
pub enum AcceptConnectionError {
    /// The TLS handshake failed.
    Tls(std::io::Error),
    /// The protocol handshake did not admit the agent.
    Handshake(HandshakeError),
    /// An agent with the same identifier is already connected.
    AddAgentConnection(AddAgentConnectionError),
}

/// The settings of an agent server.
pub struct AgentServerConfig {
    max_packet_size: usize,
}

impl AgentServerConfig {
    /// The size limit, in bytes, of the encoded packets exchanged with
    /// agents.
    pub closed spec fn spec_max_packet_size(&self) -> usize {
        self.max_packet_size
    }

    /// Settings with the given packet size limit, in bytes.
    pub fn new(max_packet_size: usize) -> (config: Self)
        ensures
            config.spec_max_packet_size() == max_packet_size,
    {
        Self { max_packet_size }
    }

    /// The packet size limit, in bytes, that handshakes and connections
    /// use.
    pub fn max_packet_size(&self) -> (n: usize)
        ensures
            n == self.spec_max_packet_size(),
    {
        self.max_packet_size
    }
}

/// Adds the agent that a handshake admitted to the connected agents: its
/// identifier and the number of agents now connected. A failed handshake
/// gives `Handshake`, and an identifier already connected gives
/// `AddAgentConnection`; either way the connected agents stay exactly as
/// they were.
pub fn accept_connection(
    manager: &mut AgentConnectionManager,
    handshake: Result<AgentConnection, HandshakeError>,
) -> (r: Result<(String, usize), AcceptConnectionError>)
    ensures
        match handshake {
            Err(e) => r == Err::<(String, usize), _>(AcceptConnectionError::Handshake(e))
                && *final(manager) == *old(manager),
            Ok(c) => if old(manager)@.dom().contains(c.spec_identifier()) {
                r matches Err(
                    AcceptConnectionError::AddAgentConnection(
                        AddAgentConnectionError::AgentAlreadyExists(id),
                    ),
                ) && id@ == c.spec_identifier() && *final(manager) == *old(manager)
            } else {
                &&& r matches Ok((id, count))
                &&& id@ == c.spec_identifier()
                &&& final(manager)@ == old(manager)@.insert(c.spec_identifier(), c.spec_identifier())
                &&& count == final(manager)@.dom().len()
            },
        },
        keyed_by_identifier(final(manager)@),
        r matches Ok((_, count)) ==> count == old(manager)@.dom().len() + 1,
{
    proof {
        use_type_invariant(&*manager);
    }
    let connection = match handshake {
        Ok(connection) => connection,
        Err(e) => {
            return Err(AcceptConnectionError::Handshake(e));
        },
    };
    let identifier = connection.identifier().to_owned();
    match manager.add(connection) {
        Ok(()) => {},
        Err(e) => {
            return Err(AcceptConnectionError::AddAgentConnection(e));
        },
    }
    let count = manager.count();
    Ok((identifier, count))
}

} // verus!
