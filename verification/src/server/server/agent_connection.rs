//! The server side of an agent's connection: the handshake that admits an
//! agent, and what the server makes of the packets an agent sends.
//!
//! The handshake reads one packet, answers it, and ends. The reading and
//! the writing are the caller's; [`AgentConnection::handshake_reply`]
//! decides the answer from what was read, and [`AgentConnection::handshake`]
//! decides the end from the answer and from whether writing it succeeded.

use vstd::prelude::*;
use crate::framing::{
    be_bytes, be_value, fits_frame, humantime_text, remaining_nanos, total_nanos, TransferFailure,
};
use crate::server::networking::{
    self as networking, PacketReadError, PacketWriteError, UnpinnableAsyncTlsRead, UnpinnableAsyncTlsWrite,
};
use crate::server::protocol::{
    admission, admission_response, agent_packet_in, connection_request_packet, packet_from_server, current_version,
    is_connection_response, lemma_version_number_roundtrip, refusal, refusal_response,
    requested_connection, spec_version, version_name, version_number, version_of,
    AgentHandshakePacket, AgentHandshakePacketKind, AgentPacket, AgentPacketKind,
    AgentPayloadPacket, AgentRequestConnection, Packet, PacketKind, ServerPacket,
    ServerPacketKind, ServerPayloadPacket, ServerResponseConnectionError, Version,
};

verus! {

/// The deadline, in seconds, for reading the agent's request and for
/// writing the answer during a handshake.
pub const HANDSHAKE_TIMEOUT_SECS: u64 = 2;

/// Why no agent packet came out of a read.
#[derive(Debug)]
pub enum AgentPacketReadError {
    PacketRead(PacketReadError),
    /// The packet carried nothing.
    NoPayload,
    /// The packet carried a server's packet.
    NoAgentPacket,
}

/// Why no agent payload came out of a read.
#[derive(Debug)]
pub enum AgentPayloadReadError {
    AgentPacketRead(AgentPacketReadError),
    /// The agent's packet carried no payload.
    NoAgentPayloadPacket,
}

/// Why a handshake did not admit an agent.
#[derive(Debug)]
pub enum HandshakeError {
    /// No packet could be read from the agent.
    PacketRead(PacketReadError),
    /// The agent's packet was not a connection request.
    UnexpectedPacketType,
    /// The request named a version number that stands for no version.
    UnknownProtocolVersion(i32),
    /// The request named a version other than the one this server speaks.
    UnsupportedProtocolVersion { expected: String, found: String },
    /// The acceptance could not be written to the agent.
    PacketWrite(PacketWriteError),
}

/// What a handshake comes to once its answer is chosen: the identifier of
/// an admitted agent, or why the agent is refused.
#[derive(Debug)]
pub enum HandshakeOutcome {
    Accepted(String),
    Rejected(HandshakeError),
}

/// What a handshake comes to, as [`AgentConnection::handshake_reply`]
/// decided it; only that function makes one.
#[derive(Debug)]
pub struct HandshakeDecision {
    outcome: HandshakeOutcome,
}

impl HandshakeDecision {
    /// What the handshake comes to.
    pub closed spec fn spec_outcome(&self) -> HandshakeOutcome {
        self.outcome
    }

    /// What the handshake comes to.
    pub fn outcome(&self) -> (o: &HandshakeOutcome)
        ensures
            *o == self.spec_outcome(),
    {
        &self.outcome
    }
}

/// The answer to send to the agent and what the handshake comes to.
#[derive(Debug)]
pub struct HandshakeReply {
    pub response: Packet,
    pub decision: HandshakeDecision,
}

/// Why the server refuses what it read at the start of a handshake, or
/// `None` where it admits the agent: the packet must be a connection
/// request naming the version this server speaks.
pub open spec fn rejection_reason(request: Result<Packet, PacketReadError>) -> Option<
    ServerResponseConnectionError,
> {
    match request {
        Err(_) => Some(ServerResponseConnectionError::FailedToRead),
        Ok(p) => match requested_connection(p) {
            None => Some(ServerResponseConnectionError::FailedToParse),
            Some(req) => match version_of(req.version) {
                None => Some(ServerResponseConnectionError::UnsupportedProtocolVersion),
                Some(v) => if v != spec_version() {
                    Some(ServerResponseConnectionError::UnsupportedProtocolVersion)
                } else {
                    None
                },
            },
        },
    }
}

/// The answer the server sends for a rejection reason, or for admission.
pub open spec fn is_reply_response(response: Packet, reason: Option<ServerResponseConnectionError>) -> bool {
    match reason {
        Some(e) => is_connection_response(response, refusal(e)),
        None => is_connection_response(response, admission()),
    }
}

/// The handshake error that goes with what was read, where the agent is
/// refused.
pub open spec fn is_rejection_outcome(
    request: Result<Packet, PacketReadError>,
    outcome: HandshakeOutcome,
) -> bool {
    match request {
        Err(e) => outcome == HandshakeOutcome::Rejected(HandshakeError::PacketRead(e)),
        Ok(p) => match requested_connection(p) {
            None => outcome == HandshakeOutcome::Rejected(HandshakeError::UnexpectedPacketType),
            Some(req) => match version_of(req.version) {
                None => outcome == HandshakeOutcome::Rejected(
                    HandshakeError::UnknownProtocolVersion(req.version),
                ),
                Some(v) => outcome matches HandshakeOutcome::Rejected(
                    HandshakeError::UnsupportedProtocolVersion { expected, found },
                ) && expected@ == version_name(spec_version()) && found@ == version_name(v),
            },
        },
    }
}

/// A connected agent: the identifier it is known by and the two halves of
/// its stream.
pub struct AgentConnection {
    identifier: String,
    max_packet_size: usize,
    reader: UnpinnableAsyncTlsRead,
    writer: UnpinnableAsyncTlsWrite,
}

impl AgentConnection {
    /// The identifier this agent is known by.
    pub closed spec fn spec_identifier(&self) -> Seq<char> {
        self.identifier@
    }

    /// The largest encoded packet exchanged with this agent.
    pub closed spec fn spec_max_packet_size(&self) -> usize {
        self.max_packet_size
    }

    /// The reading half of this agent's stream.
    pub closed spec fn spec_reader(&self) -> UnpinnableAsyncTlsRead {
        self.reader
    }

    /// The writing half of this agent's stream.
    pub closed spec fn spec_writer(&self) -> UnpinnableAsyncTlsWrite {
        self.writer
    }

    /// The answer to the packet read at the start of a handshake, and what
    /// the handshake comes to. An agent is admitted, under the identifier
    /// it asked for, exactly when it sent a connection request naming the
    /// version this server speaks; every other agent is answered with a
    /// rejection that says why.
    pub fn handshake_reply(request: Result<Packet, PacketReadError>) -> (reply: HandshakeReply)
        ensures
            (reply.decision.spec_outcome() is Accepted) ==> (request matches Ok(p) && p.inner matches Some(
                PacketKind::AgentPacket(a),
            ) && a.inner matches Some(AgentPacketKind::AgentHandshakePacket(h)) && h.inner matches Some(
                AgentHandshakePacketKind::AgentRequestConnection(req),
            ) && req.version == 1),
            (request matches Ok(p) && !(p.inner matches Some(PacketKind::AgentPacket(a)) && a.inner matches Some(
                AgentPacketKind::AgentHandshakePacket(h),
            ) && (h.inner is Some))) ==> (is_connection_response(
                reply.response,
                refusal(ServerResponseConnectionError::FailedToParse),
            ) && reply.decision.spec_outcome()
                == HandshakeOutcome::Rejected(HandshakeError::UnexpectedPacketType)),
            is_reply_response(reply.response, rejection_reason(request)),
            rejection_reason(request) is None <==> reply.decision.spec_outcome() is Accepted,
            reply.decision.spec_outcome() matches HandshakeOutcome::Accepted(id) ==> (request matches Ok(p)
                && requested_connection(p) matches Some(req) && id@ == req.identifier@),
            reply.decision.spec_outcome() is Rejected ==> is_rejection_outcome(request, reply.decision.spec_outcome()),
    {
        let packet = match request {
            Ok(packet) => packet,
            Err(e) => {
                return HandshakeReply {
                    response: refusal_response(ServerResponseConnectionError::FailedToRead),
                    decision: HandshakeDecision { outcome: HandshakeOutcome::Rejected(HandshakeError::PacketRead(e)) },
                };
            },
        };
        let request_connection = match packet.inner {
            Some(
                PacketKind::AgentPacket(
                    AgentPacket {
                        inner: Some(
                            AgentPacketKind::AgentHandshakePacket(
                                AgentHandshakePacket {
                                    inner: Some(
                                        AgentHandshakePacketKind::AgentRequestConnection(req),
                                    ),
                                },
                            ),
                        ),
                    },
                ),
            ) => req,
            _ => {
                return HandshakeReply {
                    response: refusal_response(ServerResponseConnectionError::FailedToParse),
                    decision: HandshakeDecision { outcome: HandshakeOutcome::Rejected(HandshakeError::UnexpectedPacketType) },
                };
            },
        };
        let number = request_connection.version;
        let version = match Version::from_i32(number) {
            Some(version) => version,
            None => {
                return HandshakeReply {
                    response: refusal_response(ServerResponseConnectionError::UnsupportedProtocolVersion),
                    decision: HandshakeDecision { outcome: HandshakeOutcome::Rejected(
                        HandshakeError::UnknownProtocolVersion(number),
                    ) },
                };
            },
        };
        let expected = current_version();
        if version != expected {
            return HandshakeReply {
                response: refusal_response(ServerResponseConnectionError::UnsupportedProtocolVersion),
                decision: HandshakeDecision { outcome: HandshakeOutcome::Rejected(
                    HandshakeError::UnsupportedProtocolVersion {
                        expected: expected.as_str_name().to_owned(),
                        found: version.as_str_name().to_owned(),
                    },
                ) },
            };
        }
        HandshakeReply {
            response: admission_response(),
            decision: HandshakeDecision { outcome: HandshakeOutcome::Accepted(request_connection.identifier) },
        }
    }

    /// The end of a handshake, once its answer was written or failed to
    /// be: a refused agent gets the refusal's error whatever the write
    /// did; an admitted agent becomes a connection over the given stream
    /// halves, exchanging packets of at most `max_packet_size` bytes, if the
    /// acceptance was written, and gets `PacketWrite`
    /// otherwise.
    pub fn handshake(
        max_packet_size: usize,
        reader: UnpinnableAsyncTlsRead,
        writer: UnpinnableAsyncTlsWrite,
        decision: HandshakeDecision,
        written: Result<(), PacketWriteError>,
    ) -> (r: Result<Self, HandshakeError>)
        ensures
            match decision.spec_outcome() {
                HandshakeOutcome::Rejected(e) => r == Err::<Self, _>(e),
                HandshakeOutcome::Accepted(id) => match written {
                    Err(w) => r == Err::<Self, _>(HandshakeError::PacketWrite(w)),
                    Ok(_) => r matches Ok(c) && c.spec_identifier() == id@ && c.spec_max_packet_size()
                        == max_packet_size && c.spec_reader() == reader
                        && c.spec_writer() == writer,
                },
            },
    {
        match decision.outcome {
            HandshakeOutcome::Rejected(e) => Err(e),
            HandshakeOutcome::Accepted(identifier) => match written {
                Err(w) => Err(HandshakeError::PacketWrite(w)),
                Ok(()) => Ok(AgentConnection { identifier, max_packet_size, reader, writer }),
            },
        }
    }

    /// The identifier this agent is known by.
    pub fn identifier(&self) -> (id: &str)
        ensures
            id@ == self.spec_identifier(),
    {
        self.identifier.as_str()
    }

    /// The largest encoded packet exchanged with this agent, as the
    /// handshake recorded it.
    pub fn max_packet_size(&self) -> (n: usize)
        ensures
            n == self.spec_max_packet_size(),
    {
        self.max_packet_size
    }

    /// What follows the read of a length prefix from this agent, under the
    /// size limit recorded for it: as [`networking::after_prefix_read`]
    /// with that limit.
    pub fn after_prefix_read(
        &self,
        prefix: Result<[u8; 4], TransferFailure>,
        timeout_secs: u64,
        timeout_nanos: u32,
        elapsed_secs: u64,
        elapsed_nanos: u32,
    ) -> (r: Result<(usize, (u64, u32)), PacketReadError>)
        requires
            timeout_nanos < 1_000_000_000,
            elapsed_nanos < 1_000_000_000,
        ensures
            match prefix {
                Err(TransferFailure::Io(e)) => r == Err::<(usize, (u64, u32)), _>(
                    PacketReadError::IO(e),
                ),
                Err(TransferFailure::TimedOut) => r matches Err(PacketReadError::Timeout(text))
                    && text@ == humantime_text(timeout_secs, timeout_nanos),
                Ok(header) => if be_value(header@) > self.spec_max_packet_size() {
                    r == Err::<(usize, (u64, u32)), _>(
                        PacketReadError::PacketTooLarge(be_value(header@) as usize),
                    )
                } else {
                    &&& r matches Ok((size, left))
                    &&& size == be_value(header@)
                    &&& left.1 < 1_000_000_000
                    &&& total_nanos(left.0, left.1) == remaining_nanos(
                        timeout_secs,
                        timeout_nanos,
                        elapsed_secs,
                        elapsed_nanos,
                    )
                },
            },
    {
        networking::after_prefix_read(
            prefix,
            self.max_packet_size,
            timeout_secs,
            timeout_nanos,
            elapsed_secs,
            elapsed_nanos,
        )
    }

    /// The length prefix to send to this agent before an encoded packet of
    /// `encoded_len` bytes, under the size limit recorded for it.
    pub fn outgoing_packet_header(&self, encoded_len: usize) -> (r: Result<[u8; 4], PacketWriteError>)
        ensures
            fits_frame(encoded_len as nat, self.spec_max_packet_size() as nat) ==> (r matches Ok(
                header,
            ) && header@ == be_bytes(encoded_len as nat)),
            !fits_frame(encoded_len as nat, self.spec_max_packet_size() as nat) ==> r == Err::<
                [u8; 4],
                PacketWriteError,
            >(PacketWriteError::PacketTooLarge(encoded_len)),
    {
        networking::outgoing_packet_header(encoded_len, self.max_packet_size)
    }

    /// The reading half of this agent's stream, to read from; the rest of
    /// the connection stays as it is.
    pub fn reader_mut(&mut self) -> (r: &mut UnpinnableAsyncTlsRead)
        ensures
            *r == old(self).spec_reader(),
            final(self).spec_reader() == *final(r),
            final(self).spec_writer() == old(self).spec_writer(),
            final(self).spec_identifier() == old(self).spec_identifier(),
            final(self).spec_max_packet_size() == old(self).spec_max_packet_size(),
    {
        &mut self.reader
    }

    /// The writing half of this agent's stream, to write to; the rest of
    /// the connection stays as it is.
    pub fn writer_mut(&mut self) -> (w: &mut UnpinnableAsyncTlsWrite)
        ensures
            *w == old(self).spec_writer(),
            final(self).spec_writer() == *final(w),
            final(self).spec_reader() == old(self).spec_reader(),
            final(self).spec_identifier() == old(self).spec_identifier(),
            final(self).spec_max_packet_size() == old(self).spec_max_packet_size(),
    {
        &mut self.writer
    }
}

/// The agent packet that a read delivered, or why there is none.
pub fn into_agent_packet(read: Result<Packet, PacketReadError>) -> (r: Result<
    AgentPacket,
    AgentPacketReadError,
>)
    ensures
        (r is Ok) ==> (read == Ok::<Packet, PacketReadError>(
            (Packet { inner: Some(PacketKind::AgentPacket(r->Ok_0)) }),
        )),
        (read matches Ok(p) && (p.inner is None)) ==> (r == Err::<AgentPacket, AgentPacketReadError>(AgentPacketReadError::NoPayload)),
        match read {
            Err(e) => r == Err::<AgentPacket, _>(AgentPacketReadError::PacketRead(e)),
            Ok(p) => match agent_packet_in(p) {
                Some(a) => r == Ok::<_, AgentPacketReadError>(a),
                None => r == Err::<AgentPacket, _>(
                    if p.inner is None {
                        AgentPacketReadError::NoPayload
                    } else {
                        AgentPacketReadError::NoAgentPacket
                    },
                ),
            },
        },
{
    match read {
        Err(e) => Err(AgentPacketReadError::PacketRead(e)),
        Ok(packet) => match packet.inner {
            Some(inner) => match inner {
                PacketKind::AgentPacket(agent_packet) => Ok(agent_packet),
                _ => Err(AgentPacketReadError::NoAgentPacket),
            },
            _ => Err(AgentPacketReadError::NoPayload),
        },
    }
}

/// The agent payload that a read delivered, or why there is none.
pub fn into_agent_payload(read: Result<AgentPacket, AgentPacketReadError>) -> (r: Result<
    AgentPayloadPacket,
    AgentPayloadReadError,
>)
    ensures
        match read {
            Err(e) => r == Err::<AgentPayloadPacket, _>(AgentPayloadReadError::AgentPacketRead(e)),
            Ok(a) => match a.inner {
                Some(AgentPacketKind::AgentPayloadPacket(payload)) => r == Ok::<
                    _,
                    AgentPayloadReadError,
                >(payload),
                _ => r == Err::<AgentPayloadPacket, _>(
                    AgentPayloadReadError::NoAgentPayloadPacket,
                ),
            },
        },
{
    match read {
        Err(e) => Err(AgentPayloadReadError::AgentPacketRead(e)),
        Ok(agent_packet) => match agent_packet.inner {
            Some(AgentPacketKind::AgentPayloadPacket(payload)) => Ok(payload),
            _ => Err(AgentPayloadReadError::NoAgentPayloadPacket),
        },
    }
}

/// The packet that carries a server's packet.
pub fn wrap_server_packet(packet: ServerPacket) -> (p: Packet)
    ensures
        p == packet_from_server(packet),
{
    Packet { inner: Some(PacketKind::ServerPacket(packet)) }
}

/// The server packet that carries a payload.
pub fn wrap_server_payload(packet: ServerPayloadPacket) -> (p: ServerPacket)
    ensures
        p == (ServerPacket { inner: Some(ServerPacketKind::ServerPayloadPacket(packet)) }),
{
    ServerPacket { inner: Some(ServerPacketKind::ServerPayloadPacket(packet)) }
}

/// The handshake refuses what could not be read, refuses every packet that
/// carries no connection request as unparsable, and admits exactly the
/// requests that name version number 1.
pub proof fn lemma_admission_exact(request: Result<Packet, PacketReadError>)
    ensures
        (request is Err) ==> (rejection_reason(request) == Some(
            ServerResponseConnectionError::FailedToRead,
        )),
        (request matches Ok(p) && !(p.inner matches Some(PacketKind::AgentPacket(a)) && a.inner matches Some(
            AgentPacketKind::AgentHandshakePacket(h),
        ) && (h.inner is Some))) ==> (rejection_reason(request) == Some(
            ServerResponseConnectionError::FailedToParse,
        )),
        (rejection_reason(request) is None) <==> (request matches Ok(p) && p.inner matches Some(
            PacketKind::AgentPacket(a),
        ) && a.inner matches Some(AgentPacketKind::AgentHandshakePacket(h)) && h.inner matches Some(
            AgentHandshakePacketKind::AgentRequestConnection(req),
        ) && req.version == 1),
{
}

/// An agent that asks to connect with the version this server speaks is
/// admitted under the identifier it asked for.
pub proof fn lemma_current_version_admitted(req: AgentRequestConnection)
    requires
        req.version == version_number(spec_version()),
    ensures
        rejection_reason(Ok(connection_request_packet(req))) is None,
        requested_connection(connection_request_packet(req)) == Some(req),
{
    lemma_version_number_roundtrip(spec_version());
}

/// An agent that asks to connect with any other version number is
/// refused, and told that its version is unsupported.
pub proof fn lemma_other_version_refused(req: AgentRequestConnection)
    requires
        req.version != version_number(spec_version()),
    ensures
        rejection_reason(Ok(connection_request_packet(req))) == Some(
            ServerResponseConnectionError::UnsupportedProtocolVersion,
        ),
{
    if version_of(req.version) is Some {
        lemma_version_number_roundtrip(version_of(req.version).unwrap());
    }
}

} // verus!
