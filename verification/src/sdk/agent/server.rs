//! A server side of agent connections over the framing without deadlines,
//! whose handshake admits no agent: every connection is refused.

use vstd::prelude::*;
use crate::sdk::agent::networking::PacketReadError;
use crate::sdk::protocol::{
    agent_packet_in, packet_from_server, AgentPacket, Packet, PacketKind, ServerPacket,
};
use tokio::net::tcp::{OwnedReadHalf, OwnedWriteHalf};

verus! {

/// Why no agent packet came out of a read.
#[derive(Debug)]
pub enum AgentPacketReadError {
    PacketRead(PacketReadError),
    /// The packet carried nothing.
    NoPayload,
    /// The packet carried a server's packet.
    NoAgentPacket,
}

/// The agent packet that a read delivered, or why there is none.
pub fn into_agent_packet(read: Result<Packet, PacketReadError>) -> (r: Result<
    AgentPacket,
    AgentPacketReadError,
>)
    ensures
        (r is Ok) ==> (read == Ok::<Packet, PacketReadError>(
            (Packet { packet: Some(PacketKind::AgentPacket(r->Ok_0)) }),
        )),
        (read matches Ok(p) && (p.packet is None)) ==> (r == Err::<AgentPacket, AgentPacketReadError>(AgentPacketReadError::NoPayload)),
        match read {
            Err(e) => r == Err::<AgentPacket, _>(AgentPacketReadError::PacketRead(e)),
            Ok(p) => match agent_packet_in(p) {
                Some(a) => r == Ok::<_, AgentPacketReadError>(a),
                None => r == Err::<AgentPacket, _>(
                    if p.packet is None {
                        AgentPacketReadError::NoPayload
                    } else {
                        AgentPacketReadError::NoAgentPacket
                    },
                ),
            },
        },
{
    match read {
        Err(e) => Err(AgentPacketReadError::PacketRead(e)),
        Ok(packet) => match packet.packet {
            Some(packet) => match packet {
                PacketKind::AgentPacket(agent_packet) => Ok(agent_packet),
                _ => Err(AgentPacketReadError::NoAgentPacket),
            },
            _ => Err(AgentPacketReadError::NoPayload),
        },
    }
}

/// The packet that carries a server's packet.
pub fn wrap_server_packet(server_packet: ServerPacket) -> (p: Packet)
    ensures
        p == packet_from_server(server_packet),
{
    Packet { packet: Some(PacketKind::ServerPacket(server_packet)) }
}

/// Why a connection was not established.
#[derive(Debug)]
pub enum HandshakeError {
    NotImplemented,
    IO(std::io::Error),
    InvalidProtocolVersion { expected: String, found: String },
}

/// A connected agent: the identifier it is known by and the two halves of
/// its stream.
pub struct AgentConnection {
    identifier: String,
    reader: OwnedReadHalf,
    writer: OwnedWriteHalf,
}

impl AgentConnection {
    /// The identifier this agent is known by.
    pub closed spec fn spec_identifier(&self) -> Seq<char> {
        self.identifier@
    }

    /// The reading half of this agent's stream.
    pub closed spec fn spec_reader(&self) -> OwnedReadHalf {
        self.reader
    }

    /// The writing half of this agent's stream.
    pub closed spec fn spec_writer(&self) -> OwnedWriteHalf {
        self.writer
    }

    /// Establishes a connection over a stream's two halves. This server
    /// never establishes one: the result is always `NotImplemented`.
    pub fn handshake(_reader: OwnedReadHalf, _writer: OwnedWriteHalf) -> (r: Result<
        Self,
        HandshakeError,
    >)
        ensures
            r matches Err(HandshakeError::NotImplemented),
    {
        Err(HandshakeError::NotImplemented)
    }

    /// The identifier this agent is known by.
    pub fn identifier(&self) -> (id: &str)
        ensures
            id@ == self.spec_identifier(),
    {
        self.identifier.as_str()
    }

    /// The reading half of this agent's stream, to read from; the rest of
    /// the connection stays as it is.
    pub fn reader_mut(&mut self) -> (r: &mut OwnedReadHalf)
        ensures
            *r == old(self).spec_reader(),
            final(self).spec_reader() == *final(r),
            final(self).spec_writer() == old(self).spec_writer(),
            final(self).spec_identifier() == old(self).spec_identifier(),
    {
        &mut self.reader
    }

    /// The writing half of this agent's stream, to write to; the rest of
    /// the connection stays as it is.
    pub fn writer_mut(&mut self) -> (w: &mut OwnedWriteHalf)
        ensures
            *w == old(self).spec_writer(),
            final(self).spec_writer() == *final(w),
            final(self).spec_reader() == old(self).spec_reader(),
            final(self).spec_identifier() == old(self).spec_identifier(),
    {
        &mut self.writer
    }
}

/// Why the server could not be created.
#[derive(Debug)]
pub enum ServerCreateError {
    IO(std::io::Error),
}

/// Adds the connection that a handshake established to the server's
/// connections: the identifier of the new agent and the number of agents
/// now connected, or the handshake's error with the connections unchanged.
pub fn accept_connection(
    connections: &mut Vec<AgentConnection>,
    handshake: Result<AgentConnection, HandshakeError>,
) -> (r: Result<(String, usize), HandshakeError>)
    ensures
        match handshake {
            Ok(c) => r matches Ok((id, count)) && id@ == c.spec_identifier() && final(connections)@
                == old(connections)@.push(c) && count == final(connections)@.len(),
            Err(e) => r == Err::<(String, usize), _>(e) && final(connections)@ == old(
                connections,
            )@,
        },
{
    match handshake {
        Err(e) => Err(e),
        Ok(connection) => {
            let identifier = connection.identifier.clone();
            connections.push(connection);
            let count = connections.len();
            Ok((identifier, count))
        },
    }
}

} // verus!
