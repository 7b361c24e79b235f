//! The packets of the agent protocol as the server knows them.
//!
//! Each message holds its content in an optional `inner` field whose type
//! lists the messages it may carry. Enumerations travel as `i32`, as
//! protobuf carries them. The server answers a connection request either
//! with a success or with the number of the reason for refusing it.

use vstd::prelude::*;

verus! {

/// A packet on the wire: from an agent or from the server.
#[derive(Debug)]
pub struct Packet {
    pub inner: Option<PacketKind>,
}

/// What a [`Packet`] carries.
#[derive(Debug)]
pub enum PacketKind {
    AgentPacket(AgentPacket),
    ServerPacket(ServerPacket),
}

/// A packet sent by an agent.
#[derive(Debug)]
pub struct AgentPacket {
    pub inner: Option<AgentPacketKind>,
}

/// What an [`AgentPacket`] carries.
#[derive(Debug)]
pub enum AgentPacketKind {
    AgentHandshakePacket(AgentHandshakePacket),
    AgentPayloadPacket(AgentPayloadPacket),
}

/// A handshake message sent by an agent.
#[derive(Debug)]
pub struct AgentHandshakePacket {
    pub inner: Option<AgentHandshakePacketKind>,
}

/// What an [`AgentHandshakePacket`] carries.
#[derive(Debug)]
pub enum AgentHandshakePacketKind {
    AgentRequestConnection(AgentRequestConnection),
}

/// An agent's request to be connected: the protocol version it speaks and
/// the identifier it wants to be known by.
#[derive(Debug)]
pub struct AgentRequestConnection {
    pub version: i32,
    pub identifier: String,
}

/// Application data sent by an agent.
#[derive(Debug)]
pub struct AgentPayloadPacket {
    pub data: Vec<u8>,
}

/// A packet sent by the server.
#[derive(Debug)]
pub struct ServerPacket {
    pub inner: Option<ServerPacketKind>,
}

/// What a [`ServerPacket`] carries.
#[derive(Debug)]
pub enum ServerPacketKind {
    ServerHandshakePacket(ServerHandshakePacket),
    ServerPayloadPacket(ServerPayloadPacket),
}

/// A handshake message sent by the server.
#[derive(Debug)]
pub struct ServerHandshakePacket {
    pub inner: Option<ServerHandshakePacketKind>,
}

/// What a [`ServerHandshakePacket`] carries.
#[derive(Debug)]
pub enum ServerHandshakePacketKind {
    ServerResponseConnection(ServerResponseConnection),
}

/// The server's answer to a connection request.
#[derive(Debug)]
pub struct ServerResponseConnection {
    pub inner: Option<ServerResponseConnectionKind>,
}

/// What a [`ServerResponseConnection`] carries: the number of a
/// [`ServerResponseConnectionError`], or success.
#[derive(Debug)]
pub enum ServerResponseConnectionKind {
    Error(i32),
    Success(ServerResponseConnectionSuccess),
}

/// The server admitted the agent.
#[derive(Debug)]
pub struct ServerResponseConnectionSuccess {}

/// Application data sent by the server.
#[derive(Debug)]
pub struct ServerPayloadPacket {
    pub data: Vec<u8>,
}

/// The protocol versions.
#[derive(Debug, Clone, Copy, PartialEq, Eq, Structural)]
pub enum Version {
    Unspecified,
    V1,
}

/// The version this implementation speaks.
pub open spec fn spec_version() -> Version {
    Version::V1
}

/// The version this implementation speaks.
pub fn current_version() -> (v: Version)
    ensures
        v == spec_version(),
{
    Version::V1
}

/// The number of each version.
pub open spec fn version_number(v: Version) -> i32 {
    match v {
        Version::Unspecified => 0,
        Version::V1 => 1,
    }
}

/// The version that a number stands for, if any.
pub open spec fn version_of(n: i32) -> Option<Version> {
    if n == 0 {
        Some(Version::Unspecified)
    } else if n == 1 {
        Some(Version::V1)
    } else {
        None
    }
}

/// The name of each version in the protocol definition.
pub open spec fn version_name(v: Version) -> Seq<char> {
    match v {
        Version::Unspecified => seq!['V', 'E', 'R', 'S', 'I', 'O', 'N', '_', 'U', 'N', 'S', 'P', 'E', 'C', 'I', 'F', 'I', 'E', 'D'],
        Version::V1 => seq!['V', 'E', 'R', 'S', 'I', 'O', 'N', '_', 'V', '1'],
    }
}

impl Version {
    /// The version that a number stands for, if any.
    pub fn from_i32(n: i32) -> (v: Option<Version>)
        ensures
            v == version_of(n),
    {
        if n == 0 {
            Some(Version::Unspecified)
        } else if n == 1 {
            Some(Version::V1)
        } else {
            None
        }
    }

    /// The number of this version.
    pub fn value(self) -> (n: i32)
        ensures
            n == version_number(self),
    {
        match self {
            Version::Unspecified => 0,
            Version::V1 => 1,
        }
    }

    /// The name of this version in the protocol definition.
    pub fn as_str_name(self) -> (name: &'static str)
        ensures
            name@ == version_name(self),
    {
        match self {
            Version::Unspecified => {
                let s = "VERSION_UNSPECIFIED";
                proof {
                    reveal_strlit("VERSION_UNSPECIFIED");
                }
                assert(s@ =~= version_name(self));
                s
            },
            Version::V1 => {
                let s = "VERSION_V1";
                proof {
                    reveal_strlit("VERSION_V1");
                }
                assert(s@ =~= version_name(self));
                s
            },
        }
    }
}

/// Every number of a version stands for that version.
pub proof fn lemma_version_number_roundtrip(v: Version)
    ensures
        version_of(version_number(v)) == Some(v),
{
}

/// Why the server rejected a connection.
#[derive(Debug, Clone, Copy, PartialEq, Eq, Structural)]
pub enum ServerResponseConnectionError {
    Unspecified,
    FailedToRead,
    FailedToParse,
    UnsupportedProtocolVersion,
}

/// The number of each rejection reason.
pub open spec fn error_number(e: ServerResponseConnectionError) -> i32 {
    match e {
        ServerResponseConnectionError::Unspecified => 0,
        ServerResponseConnectionError::FailedToRead => 1,
        ServerResponseConnectionError::FailedToParse => 2,
        ServerResponseConnectionError::UnsupportedProtocolVersion => 3,
    }
}

impl ServerResponseConnectionError {
    /// The number of this rejection reason.
    pub fn value(self) -> (n: i32)
        ensures
            n == error_number(self),
    {
        match self {
            ServerResponseConnectionError::Unspecified => 0,
            ServerResponseConnectionError::FailedToRead => 1,
            ServerResponseConnectionError::FailedToParse => 2,
            ServerResponseConnectionError::UnsupportedProtocolVersion => 3,
        }
    }
}

/// The packet by which the server answers a connection request.
pub open spec fn is_connection_response(p: Packet, answer: ServerResponseConnectionKind) -> bool {
    p == Packet {
        inner: Some(
            PacketKind::ServerPacket(
                ServerPacket {
                    inner: Some(
                        ServerPacketKind::ServerHandshakePacket(
                            ServerHandshakePacket {
                                inner: Some(
                                    ServerHandshakePacketKind::ServerResponseConnection(
                                        ServerResponseConnection { inner: Some(answer) },
                                    ),
                                ),
                            },
                        ),
                    ),
                },
            ),
        ),
    }
}

/// The answer that refuses a connection for the given reason.
pub open spec fn refusal(e: ServerResponseConnectionError) -> ServerResponseConnectionKind {
    ServerResponseConnectionKind::Error(error_number(e))
}

/// The answer that admits an agent.
pub open spec fn admission() -> ServerResponseConnectionKind {
    ServerResponseConnectionKind::Success(ServerResponseConnectionSuccess {  })
}

/// The packet by which the server answers a connection request.
pub fn connection_response(answer: ServerResponseConnectionKind) -> (p: Packet)
    ensures
        is_connection_response(p, answer),
{
    Packet {
        inner: Some(
            PacketKind::ServerPacket(
                ServerPacket {
                    inner: Some(
                        ServerPacketKind::ServerHandshakePacket(
                            ServerHandshakePacket {
                                inner: Some(
                                    ServerHandshakePacketKind::ServerResponseConnection(
                                        ServerResponseConnection { inner: Some(answer) },
                                    ),
                                ),
                            },
                        ),
                    ),
                },
            ),
        ),
    }
}

/// The packet that refuses a connection for the given reason.
pub fn refusal_response(e: ServerResponseConnectionError) -> (p: Packet)
    ensures
        is_connection_response(p, refusal(e)),
{
    connection_response(ServerResponseConnectionKind::Error(e.value()))
}

/// The packet that admits an agent.
pub fn admission_response() -> (p: Packet)
    ensures
        is_connection_response(p, admission()),
{
    connection_response(ServerResponseConnectionKind::Success(ServerResponseConnectionSuccess {  }))
}

/// The agent's packet that a packet carries, if it carries one.
pub open spec fn agent_packet_in(p: Packet) -> Option<AgentPacket> {
    match p.inner {
        Some(PacketKind::AgentPacket(a)) => Some(a),
        _ => None,
    }
}

/// The server's packet that a packet carries, if it carries one.
pub open spec fn server_packet_in(p: Packet) -> Option<ServerPacket> {
    match p.inner {
        Some(PacketKind::ServerPacket(s)) => Some(s),
        _ => None,
    }
}

/// The packet that carries an agent's packet.
pub open spec fn packet_from_agent(a: AgentPacket) -> Packet {
    Packet { inner: Some(PacketKind::AgentPacket(a)) }
}

/// The packet that carries a server's packet.
pub open spec fn packet_from_server(s: ServerPacket) -> Packet {
    Packet { inner: Some(PacketKind::ServerPacket(s)) }
}

/// What one side wraps, the other side unwraps whole, and neither side
/// takes the other's packets for its own.
pub proof fn lemma_wrapped_packets_unwrap(a: AgentPacket, s: ServerPacket)
    ensures
        agent_packet_in(packet_from_agent(a)) == Some(a),
        server_packet_in(packet_from_agent(a)) is None,
        server_packet_in(packet_from_server(s)) == Some(s),
        agent_packet_in(packet_from_server(s)) is None,
{
}

/// Every answer to a connection request reaches the agent as a server
/// packet.
pub proof fn lemma_connection_response_is_server_packet(
    p: Packet,
    answer: ServerResponseConnectionKind,
)
    requires
        is_connection_response(p, answer),
    ensures
        server_packet_in(p) is Some,
        agent_packet_in(p) is None,
{
}

/// The connection request that a packet carries, if it is an agent's
/// handshake packet carrying one.
pub open spec fn requested_connection(p: Packet) -> Option<AgentRequestConnection> {
    match p.inner {
        Some(PacketKind::AgentPacket(a)) => match a.inner {
            Some(AgentPacketKind::AgentHandshakePacket(h)) => match h.inner {
                Some(AgentHandshakePacketKind::AgentRequestConnection(req)) => Some(req),
                None => None,
            },
            _ => None,
        },
        _ => None,
    }
}

/// The packet by which an agent asks to be connected.
pub open spec fn connection_request_packet(req: AgentRequestConnection) -> Packet {
    Packet {
        inner: Some(
            PacketKind::AgentPacket(
                AgentPacket {
                    inner: Some(
                        AgentPacketKind::AgentHandshakePacket(
                            AgentHandshakePacket {
                                inner: Some(AgentHandshakePacketKind::AgentRequestConnection(req)),
                            },
                        ),
                    ),
                },
            ),
        ),
    }
}

/// The connection request in an agent's request packet is the one that
/// was put there.
pub proof fn lemma_requested_connection_of_request(req: AgentRequestConnection)
    ensures
        requested_connection(connection_request_packet(req)) == Some(req),
{
}

/// A packet carries a connection request exactly when it is an agent's
/// packet carrying a handshake packet carrying that request; every other
/// packet (an empty one, a server's, an agent's payload, an empty handshake
/// packet) carries none.
pub proof fn lemma_requested_connection_exact(p: Packet, req: AgentRequestConnection)
    ensures
        requested_connection(p) == Some(req) <==> p == (Packet {
                inner: Some(
                    PacketKind::AgentPacket(
                        AgentPacket {
                            inner: Some(
                                AgentPacketKind::AgentHandshakePacket(
                                    AgentHandshakePacket {
                                        inner: Some(AgentHandshakePacketKind::AgentRequestConnection(req)),
                                    },
                                ),
                            ),
                        },
                    ),
                ),
            }),
        (requested_connection(p) is Some) ==> (p.inner matches Some(PacketKind::AgentPacket(a))
            && a.inner matches Some(AgentPacketKind::AgentHandshakePacket(h)) && (h.inner is Some)),
{
}

/// A packet carries an agent's packet exactly when its content is that
/// agent packet, and a server's packet exactly when its content is that
/// server packet; an empty packet carries neither.
pub proof fn lemma_packet_content_exact(p: Packet, a: AgentPacket, s: ServerPacket)
    ensures
        agent_packet_in(p) == Some(a) <==> p.inner == Some(PacketKind::AgentPacket(a)),
        server_packet_in(p) == Some(s) <==> p.inner == Some(PacketKind::ServerPacket(s)),
        (p.inner is None) ==> ((agent_packet_in(p) is None) && (server_packet_in(p) is None)),
{
}

/// Only the number 0 stands for `Unspecified` and only 1 for `V1`; every
/// other number stands for no version.
pub proof fn lemma_version_numbers_exact(n: i32)
    ensures
        version_of(n) == Some(Version::Unspecified) <==> n == 0,
        version_of(n) == Some(Version::V1) <==> n == 1,
        (version_of(n) is None) <==> (n != 0 && n != 1),
        spec_version() == Version::V1,
{
}

} // verus!
