use std::io;

use swarm_protocol::framing::TransferFailure;
use swarm_protocol::server::networking::{
    after_body_read, after_body_write, after_prefix_read, after_prefix_write,
    incoming_packet_size, outgoing_packet_header, read_timeout_error, write_timeout_error,
    PacketReadError, PacketWriteError,
};
use swarm_protocol::server::protocol::{
    AgentHandshakePacket, AgentHandshakePacketKind, AgentPacket, AgentPacketKind,
    AgentPayloadPacket, AgentRequestConnection, Packet, PacketKind, ServerHandshakePacketKind,
    ServerPacket, ServerPacketKind, ServerPayloadPacket, ServerResponseConnection,
    ServerResponseConnectionError, ServerResponseConnectionKind, Version,
};
use swarm_protocol::server::server::agent_connection::{
    into_agent_packet, into_agent_payload, wrap_server_packet, wrap_server_payload,
    AgentConnection, AgentPacketReadError, AgentPayloadReadError, HandshakeError,
    HandshakeOutcome,
};
use swarm_protocol::server::server::agent_connection_manager::{
    AgentConnectionManager, RemoveAgentConnectionError,
};
use swarm_protocol::server::server::agent_server::{
    accept_connection, AcceptConnectionError, AgentServerConfig,
};

fn request_packet(version: i32, identifier: &str) -> Packet {
    Packet {
        inner: Some(PacketKind::AgentPacket(AgentPacket {
            inner: Some(AgentPacketKind::AgentHandshakePacket(AgentHandshakePacket {
                inner: Some(AgentHandshakePacketKind::AgentRequestConnection(
                    AgentRequestConnection { version, identifier: identifier.to_string() },
                )),
            })),
        })),
    }
}

fn answer(p: &Packet) -> Option<i32> {
    match &p.inner {
        Some(PacketKind::ServerPacket(ServerPacket {
            inner: Some(ServerPacketKind::ServerHandshakePacket(h)),
        })) => match &h.inner {
            Some(ServerHandshakePacketKind::ServerResponseConnection(ServerResponseConnection {
                inner: Some(kind),
            })) => match kind {
                ServerResponseConnectionKind::Error(n) => Some(*n),
                ServerResponseConnectionKind::Success(_) => None,
            },
            _ => panic!("no response"),
        },
        _ => panic!("not a server handshake packet"),
    }
}

#[test]
fn server_size_limit_follows_configuration() {
    assert!(matches!(incoming_packet_size([0, 0, 4, 0], 1024), Ok(1024)));
    assert!(matches!(
        incoming_packet_size([0, 0, 4, 1], 1024),
        Err(PacketReadError::PacketTooLarge(1025))
    ));
    assert!(matches!(outgoing_packet_header(1024, 1024), Ok([0, 0, 4, 0])));
    assert!(matches!(
        outgoing_packet_header(1025, 1024),
        Err(PacketWriteError::PacketTooLarge(1025))
    ));
}

#[test]
fn server_written_header_is_read_back() {
    for (len, max) in [(0usize, 0usize), (17, 32), (1 << 20, 32 << 20)] {
        let header = outgoing_packet_header(len, max).unwrap();
        assert_eq!(incoming_packet_size(header, max).unwrap(), len);
    }
}

#[test]
fn server_timeout_errors_render_the_deadline() {
    assert!(matches!(read_timeout_error(60, 0), PacketReadError::Timeout(t) if t == "1m"));
    assert!(matches!(write_timeout_error(0, 0), PacketWriteError::Timeout(t) if t == "0s"));
}

#[test]
fn tls_handshake_accepts_current_version() {
    let reply = AgentConnection::handshake_reply(Ok(request_packet(1, "drone")));
    assert_eq!(answer(&reply.response), None);
    assert!(matches!(reply.decision.outcome(), HandshakeOutcome::Accepted(id) if id == "drone"));
}

#[test]
fn tls_handshake_refusals_carry_reason() {
    let reply = AgentConnection::handshake_reply(Err(PacketReadError::IO(io::Error::other("x"))));
    assert_eq!(answer(&reply.response), Some(1));
    assert!(matches!(reply.decision.outcome(), HandshakeOutcome::Rejected(HandshakeError::PacketRead(_))));

    let reply = AgentConnection::handshake_reply(Ok(Packet { inner: None }));
    assert_eq!(answer(&reply.response), Some(2));
    assert!(matches!(reply.decision.outcome(), HandshakeOutcome::Rejected(HandshakeError::UnexpectedPacketType)));

    let reply = AgentConnection::handshake_reply(Ok(request_packet(-3, "a")));
    assert_eq!(answer(&reply.response), Some(3));
    assert!(matches!(
        reply.decision.outcome(),
        HandshakeOutcome::Rejected(HandshakeError::UnknownProtocolVersion(-3))
    ));

    let reply = AgentConnection::handshake_reply(Ok(request_packet(0, "a")));
    assert_eq!(answer(&reply.response), Some(3));
    assert!(matches!(
        reply.decision.outcome(),
        HandshakeOutcome::Rejected(HandshakeError::UnsupportedProtocolVersion { expected, found })
            if expected == "VERSION_V1" && found == "VERSION_UNSPECIFIED"
    ));
}

#[test]
fn protocol_numbers() {
    assert_eq!(Version::from_i32(1), Some(Version::V1));
    assert_eq!(Version::from_i32(2), None);
    assert_eq!(Version::V1.value(), 1);
    assert_eq!(Version::V1.as_str_name(), "VERSION_V1");
    assert_eq!(ServerResponseConnectionError::FailedToRead.value(), 1);
    assert_eq!(ServerResponseConnectionError::UnsupportedProtocolVersion.value(), 3);
}

#[test]
fn tls_server_classifies_agent_packets() {
    let payload = AgentPacket {
        inner: Some(AgentPacketKind::AgentPayloadPacket(AgentPayloadPacket { data: vec![4] })),
    };
    let packet = Packet { inner: Some(PacketKind::AgentPacket(payload)) };
    match into_agent_payload(into_agent_packet(Ok(packet))) {
        Ok(p) => assert_eq!(p.data, vec![4]),
        Err(e) => panic!("unexpected {e:?}"),
    }
    let server = wrap_server_packet(wrap_server_payload(ServerPayloadPacket { data: vec![] }));
    assert!(matches!(into_agent_packet(Ok(server)), Err(AgentPacketReadError::NoAgentPacket)));
    let empty = into_agent_packet(Ok(request_packet(1, "x")));
    assert!(matches!(into_agent_payload(empty), Err(AgentPayloadReadError::NoAgentPayloadPacket)));
}

#[test]
fn config_keeps_packet_limit() {
    let config = AgentServerConfig::new(32 * 1024 * 1024);
    assert_eq!(config.max_packet_size(), 33_554_432);
}

#[test]
fn failed_handshake_adds_no_agent() {
    let mut manager = AgentConnectionManager::new();
    let result = accept_connection(&mut manager, Err(HandshakeError::UnexpectedPacketType));
    assert!(matches!(
        result,
        Err(AcceptConnectionError::Handshake(HandshakeError::UnexpectedPacketType))
    ));
    assert_eq!(manager.count(), 0);
    assert!(matches!(manager.remove("nobody"), Err(RemoveAgentConnectionError::AgentNotFound(id)) if id == "nobody"));
}

#[test]
fn server_read_step_uses_configured_limit() {
    assert!(matches!(
        after_prefix_read(Ok([0, 0, 4, 1]), 1024, 2, 0, 0, 0),
        Err(PacketReadError::PacketTooLarge(1025))
    ));
    assert!(matches!(after_prefix_read(Ok([0, 0, 4, 0]), 1024, 2, 0, 1, 0), Ok((1024, (1, 0)))));
    match after_prefix_read(Err(TransferFailure::TimedOut), 1024, 2, 0, 2, 0) {
        Err(PacketReadError::Timeout(text)) => assert_eq!(text, "2s"),
        other => panic!("unexpected {other:?}"),
    }
    assert!(matches!(after_body_read(Err(TransferFailure::Io(io::Error::other("x"))), 2, 0), Err(PacketReadError::IO(_))));
}

#[test]
fn server_write_steps() {
    assert!(matches!(after_prefix_write(Ok(()), 5, 0, 2, 0), Ok((3, 0))));
    match after_body_write(Err(TransferFailure::TimedOut), 5, 0) {
        Err(PacketWriteError::Timeout(text)) => assert_eq!(text, "5s"),
        other => panic!("unexpected {other:?}"),
    }
}
