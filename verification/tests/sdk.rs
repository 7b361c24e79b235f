use std::io;

use swarm_protocol::accepting::ReceiverTask;
use swarm_protocol::sdk::agent::{into_server_packet, wrap_agent_packet, ServerPacketReadError};
use swarm_protocol::sdk::agent::client;
use swarm_protocol::sdk::agent::networking as plain_networking;
use swarm_protocol::sdk::agent::server as plain_server;
use swarm_protocol::framing::TransferFailure;
use swarm_protocol::sdk::networking::{
    after_body_read, after_body_write, after_prefix_read, after_prefix_write,
    incoming_packet_size, outgoing_packet_header, read_timeout_error, write_timeout_error,
    PacketReadError, PacketWriteError, MAX_PACKET_SIZE,
};
use swarm_protocol::sdk::protocol::{
    current_version, AgentHandshakePacket, AgentHandshakePacketKind, AgentPacket,
    AgentPacketKind, AgentPayloadPacket, AgentRequestConnection, Packet, PacketKind,
    ServerHandshakePacketKind, ServerPacket, ServerPacketKind, ServerPayloadPacket,
    ServerResponseConnection, Version,
};
use swarm_protocol::sdk::server::agent_connection::{
    into_agent_packet, into_agent_payload, wrap_server_packet, wrap_server_payload,
    AgentConnection, AgentPacketReadError, AgentPayloadReadError, HandshakeError,
    HandshakeOutcome, HANDSHAKE_TIMEOUT_SECS,
};
use swarm_protocol::sdk::server::agent_connection_manager::{
    AddAgentConnectionError, AgentConnectionManager, RemoveAgentConnectionError,
};
use tokio::io::{BufReader, BufWriter};
use tokio::net::tcp::{OwnedReadHalf, OwnedWriteHalf};
use tokio::net::{TcpListener, TcpStream};

/// Runs `body` with three connected TCP stream halves, where the
/// environment lets a socket connect to the loopback interface; elsewhere
/// the test body is skipped.
fn with_stream_halves<F>(body: F)
where
    F: FnOnce(Vec<(OwnedReadHalf, OwnedWriteHalf)>),
{
    let runtime = tokio::runtime::Builder::new_current_thread().enable_all().build().unwrap();
    runtime.block_on(async move {
        let Ok(listener) = TcpListener::bind("127.0.0.1:0").await else {
            println!("no loopback interface: skipped");
            return;
        };
        let addr = listener.local_addr().unwrap();
        let mut halves = Vec::new();
        let mut peers = Vec::new();
        for _ in 0..3 {
            let Ok(client) = TcpStream::connect(addr).await else {
                println!("cannot connect on loopback: skipped");
                return;
            };
            let (server, _) = listener.accept().await.unwrap();
            halves.push(server.into_split());
            peers.push(client);
        }
        body(halves);
        drop(peers);
    });
}

fn request_packet(version: i32, identifier: &str) -> Packet {
    Packet {
        packet: Some(PacketKind::AgentPacket(AgentPacket {
            packet: Some(AgentPacketKind::AgentHandshakePacket(AgentHandshakePacket {
                packet: Some(AgentHandshakePacketKind::AgentRequestConnection(
                    AgentRequestConnection { version, identifier: identifier.to_string() },
                )),
            })),
        })),
    }
}

fn response_numbers(p: &Packet) -> (i32, i32) {
    match &p.packet {
        Some(PacketKind::ServerPacket(ServerPacket {
            packet: Some(ServerPacketKind::ServerHandshakePacket(h)),
        })) => match &h.packet {
            Some(ServerHandshakePacketKind::ServerResponseConnection(ServerResponseConnection {
                status,
                error,
            })) => (*status, *error),
            None => panic!("no response"),
        },
        _ => panic!("not a server handshake packet"),
    }
}

fn accepted(read: Result<Packet, PacketReadError>, halves: (OwnedReadHalf, OwnedWriteHalf)) -> AgentConnection {
    let reply = AgentConnection::handshake_reply(read);
    AgentConnection::handshake(
        BufReader::new(halves.0),
        BufWriter::new(halves.1),
        reply.decision,
        Ok(()),
    )
    .unwrap()
}

#[test]
fn sdk_incoming_size_limit_is_32_mib() {
    assert_eq!(MAX_PACKET_SIZE, 33_554_432);
    assert!(matches!(incoming_packet_size([2, 0, 0, 0]), Ok(33_554_432)));
    assert!(matches!(
        incoming_packet_size([2, 0, 0, 1]),
        Err(PacketReadError::PacketTooLarge(33_554_433))
    ));
    assert!(matches!(incoming_packet_size([0, 0, 0, 7]), Ok(7)));
}

#[test]
fn sdk_outgoing_header_limit_is_32_mib() {
    assert!(matches!(outgoing_packet_header(33_554_432), Ok([2, 0, 0, 0])));
    assert!(matches!(
        outgoing_packet_header(33_554_433),
        Err(PacketWriteError::PacketTooLarge(33_554_433))
    ));
}

#[test]
fn sdk_written_header_is_read_back() {
    for len in [0usize, 5, 4096, 33_554_432] {
        let header = outgoing_packet_header(len).unwrap();
        assert_eq!(incoming_packet_size(header).unwrap(), len);
    }
}

#[test]
fn sdk_plain_networking_limits() {
    assert!(matches!(plain_networking::incoming_packet_size([0, 1, 0, 0]), Ok(65536)));
    assert!(matches!(
        plain_networking::incoming_packet_size([255, 0, 0, 0]),
        Err(plain_networking::PacketReadError::PacketTooLarge(4_278_190_080))
    ));
    assert!(matches!(plain_networking::outgoing_packet_header(258), Ok([0, 0, 1, 2])));
    assert!(matches!(
        plain_networking::outgoing_packet_header(40_000_000),
        Err(plain_networking::PacketWriteError::PacketTooLarge(40_000_000))
    ));
}

#[test]
fn sdk_timeout_errors_render_the_deadline() {
    match read_timeout_error(2, 0) {
        PacketReadError::Timeout(text) => assert_eq!(text, "2s"),
        other => panic!("unexpected {other:?}"),
    }
    match write_timeout_error(0, 500_000_000) {
        PacketWriteError::Timeout(text) => assert_eq!(text, "500ms"),
        other => panic!("unexpected {other:?}"),
    }
}

#[test]
fn agent_reads_server_packet() {
    let server_packet = ServerPacket { packet: None };
    let read = Ok(wrap_server_packet(server_packet));
    assert!(matches!(into_server_packet(read), Ok(ServerPacket { packet: None })));
}

#[test]
fn agent_rejects_agent_packet_and_empty_packet() {
    let read = Ok(wrap_agent_packet(AgentPacket { packet: None }));
    assert!(matches!(into_server_packet(read), Err(ServerPacketReadError::NoServerPacket)));
    assert!(matches!(
        into_server_packet(Ok(Packet { packet: None })),
        Err(ServerPacketReadError::NoPayload)
    ));
    let failed = Err(PacketReadError::IO(io::Error::other("gone")));
    assert!(matches!(
        into_server_packet(failed),
        Err(ServerPacketReadError::PacketRead(PacketReadError::IO(_)))
    ));
}

#[test]
fn plain_client_classifies_packets() {
    let read = Ok(plain_server::wrap_server_packet(ServerPacket { packet: None }));
    assert!(matches!(client::into_server_packet(read), Ok(_)));
    let read = Ok(client::wrap_agent_packet(AgentPacket { packet: None }));
    assert!(matches!(
        client::into_server_packet(read),
        Err(client::ServerPacketReadError::NoServerPacket)
    ));
    let read = Ok(client::wrap_agent_packet(AgentPacket { packet: None }));
    assert!(matches!(plain_server::into_agent_packet(read), Ok(AgentPacket { packet: None })));
    assert!(matches!(
        plain_server::into_agent_packet(Ok(Packet { packet: None })),
        Err(plain_server::AgentPacketReadError::NoPayload)
    ));
    let read = Ok(plain_server::wrap_server_packet(ServerPacket { packet: None }));
    assert!(matches!(
        plain_server::into_agent_packet(read),
        Err(plain_server::AgentPacketReadError::NoAgentPacket)
    ));
}

#[test]
fn server_reads_agent_payload() {
    let payload = AgentPayloadPacket { data: vec![1, 2, 3] };
    let packet = AgentPacket { packet: Some(AgentPacketKind::AgentPayloadPacket(payload)) };
    let read = into_agent_packet(Ok(wrap_agent_packet(packet)));
    match into_agent_payload(read) {
        Ok(p) => assert_eq!(p.data, vec![1, 2, 3]),
        Err(e) => panic!("unexpected {e:?}"),
    }
}

#[test]
fn server_rejects_non_payload_packets() {
    let read = into_agent_packet(Ok(wrap_agent_packet(AgentPacket { packet: None })));
    assert!(matches!(into_agent_payload(read), Err(AgentPayloadReadError::NoAgentPayloadPacket)));
    let read = into_agent_packet(Ok(wrap_server_packet(ServerPacket { packet: None })));
    assert!(matches!(
        into_agent_payload(read),
        Err(AgentPayloadReadError::AgentPacketRead(AgentPacketReadError::NoAgentPacket))
    ));
    let read = into_agent_packet(Err(PacketReadError::PacketTooLarge(40_000_000)));
    assert!(matches!(
        read,
        Err(AgentPacketReadError::PacketRead(PacketReadError::PacketTooLarge(40_000_000)))
    ));
}

#[test]
fn server_payload_reaches_agent() {
    let payload = wrap_server_payload(ServerPayloadPacket { data: vec![9] });
    match into_server_packet(Ok(wrap_server_packet(payload))) {
        Ok(ServerPacket { packet: Some(ServerPacketKind::ServerPayloadPacket(p)) }) => {
            assert_eq!(p.data, vec![9])
        }
        other => panic!("unexpected {other:?}"),
    }
}

#[test]
fn handshake_accepts_current_version() {
    assert_eq!(current_version(), Version::V1);
    let reply = AgentConnection::handshake_reply(Ok(request_packet(1, "agent-7")));
    assert_eq!(response_numbers(&reply.response), (1, 0));
    match reply.decision.outcome() {
        HandshakeOutcome::Accepted(id) => assert_eq!(id, "agent-7"),
        other => panic!("unexpected {other:?}"),
    }
}

#[test]
fn handshake_refuses_failed_read() {
    let reply = AgentConnection::handshake_reply(Err(PacketReadError::Timeout("2s".to_string())));
    assert_eq!(response_numbers(&reply.response), (2, 1));
    assert!(matches!(
        reply.decision.outcome(),
        HandshakeOutcome::Rejected(HandshakeError::PacketRead(PacketReadError::Timeout(_)))
    ));
}

#[test]
fn handshake_refuses_other_packets() {
    let payload = AgentPacket {
        packet: Some(AgentPacketKind::AgentPayloadPacket(AgentPayloadPacket { data: vec![] })),
    };
    let reply = AgentConnection::handshake_reply(Ok(wrap_agent_packet(payload)));
    assert_eq!(response_numbers(&reply.response), (2, 2));
    assert!(matches!(reply.decision.outcome(), HandshakeOutcome::Rejected(HandshakeError::UnexpectedPacketType)));
    let reply = AgentConnection::handshake_reply(Ok(Packet { packet: None }));
    assert_eq!(response_numbers(&reply.response), (2, 2));
}

#[test]
fn handshake_refuses_unknown_version() {
    let reply = AgentConnection::handshake_reply(Ok(request_packet(42, "a")));
    assert_eq!(response_numbers(&reply.response), (2, 3));
    assert!(matches!(
        reply.decision.outcome(),
        HandshakeOutcome::Rejected(HandshakeError::UnknownProtocolVersion(42))
    ));
}

#[test]
fn handshake_refuses_unsupported_version() {
    let reply = AgentConnection::handshake_reply(Ok(request_packet(0, "a")));
    assert_eq!(response_numbers(&reply.response), (2, 3));
    match reply.decision.outcome() {
        HandshakeOutcome::Rejected(HandshakeError::UnsupportedProtocolVersion { expected, found }) => {
            assert_eq!(expected, "VERSION_V1");
            assert_eq!(found, "VERSION_UNSPECIFIED");
        }
        other => panic!("unexpected {other:?}"),
    }
}

#[test]
fn handshake_ends_by_outcome_and_write() {
    assert_eq!(HANDSHAKE_TIMEOUT_SECS, 2);
    with_stream_halves(|mut halves| {
        let (r, w) = halves.pop().unwrap();
        let reply = AgentConnection::handshake_reply(Ok(Packet { packet: None }));
        let refused =
            AgentConnection::handshake(BufReader::new(r), BufWriter::new(w), reply.decision, Ok(()));
        assert!(matches!(refused, Err(HandshakeError::UnexpectedPacketType)));

        let (r, w) = halves.pop().unwrap();
        let reply = AgentConnection::handshake_reply(Ok(request_packet(1, "a")));
        let unwritten = AgentConnection::handshake(
            BufReader::new(r),
            BufWriter::new(w),
            reply.decision,
            Err(PacketWriteError::IO(io::Error::other("closed"))),
        );
        assert!(matches!(unwritten, Err(HandshakeError::PacketWrite(PacketWriteError::IO(_)))));

        let (r, w) = halves.pop().unwrap();
        let reply = AgentConnection::handshake_reply(Ok(request_packet(1, "agent-1")));
        let admitted =
            AgentConnection::handshake(BufReader::new(r), BufWriter::new(w), reply.decision, Ok(()))
                .unwrap();
        assert_eq!(admitted.identifier(), "agent-1");
    });
}

#[test]
fn manager_adds_and_counts_agents() {
    with_stream_halves(|mut halves| {
        let mut manager = AgentConnectionManager::new();
        assert_eq!(manager.count(), 0);
        let first = accepted(Ok(request_packet(1, "one")), halves.pop().unwrap());
        let second = accepted(Ok(request_packet(1, "two")), halves.pop().unwrap());
        assert!(manager.add(first).is_ok());
        assert_eq!(manager.count(), 1);
        assert!(manager.add(second).is_ok());
        assert_eq!(manager.count(), 2);
    });
}

#[test]
fn manager_refuses_duplicate_identifier() {
    with_stream_halves(|mut halves| {
        let mut manager = AgentConnectionManager::default();
        let first = accepted(Ok(request_packet(1, "same")), halves.pop().unwrap());
        let second = accepted(Ok(request_packet(1, "same")), halves.pop().unwrap());
        assert!(manager.add(first).is_ok());
        match manager.add(second) {
            Err(AddAgentConnectionError::AgentAlreadyExists(id)) => assert_eq!(id, "same"),
            Ok(()) => panic!("duplicate accepted"),
        }
        assert_eq!(manager.count(), 1);
    });
}

#[test]
fn manager_remove_undoes_add() {
    with_stream_halves(|mut halves| {
        let mut manager = AgentConnectionManager::new();
        match manager.remove("ghost") {
            Err(RemoveAgentConnectionError::AgentNotFound(id)) => assert_eq!(id, "ghost"),
            Ok(()) => panic!("removed a missing agent"),
        }
        let connection = accepted(Ok(request_packet(1, "agent")), halves.pop().unwrap());
        assert!(manager.add(connection).is_ok());
        assert!(manager.remove("agent").is_ok());
        assert_eq!(manager.count(), 0);
        let again = accepted(Ok(request_packet(1, "agent")), halves.pop().unwrap());
        assert!(manager.add(again).is_ok());
        assert_eq!(manager.count(), 1);
    });
}

#[test]
fn plain_server_refuses_every_handshake() {
    with_stream_halves(|mut halves| {
        let (r, w) = halves.pop().unwrap();
        let result = plain_server::AgentConnection::handshake(r, w);
        assert!(matches!(result, Err(plain_server::HandshakeError::NotImplemented)));
        let mut connections = Vec::new();
        let accepted = plain_server::accept_connection(&mut connections, result);
        assert!(matches!(accepted, Err(plain_server::HandshakeError::NotImplemented)));
        assert!(connections.is_empty());
    });
}

#[test]
fn receiver_task_starts_and_stops_once() {
    let mut slot: ReceiverTask<u32> = ReceiverTask::new();
    assert!(!slot.is_accepting());
    assert_eq!(slot.stop(), None);
    slot.start(7);
    assert!(slot.is_accepting());
    assert_eq!(slot.stop(), Some(7));
    assert!(!slot.is_accepting());
    assert_eq!(slot.stop(), None);
}

#[test]
fn plain_server_keeps_connections_on_refusal() {
    let mut connections: Vec<plain_server::AgentConnection> = Vec::new();
    let refused = Err(plain_server::HandshakeError::IO(io::Error::other("reset")));
    let result = plain_server::accept_connection(&mut connections, refused);
    assert!(matches!(result, Err(plain_server::HandshakeError::IO(_))));
    assert!(connections.is_empty());
}

#[test]
fn read_steps_name_the_whole_deadline() {
    match after_prefix_read(Err(TransferFailure::TimedOut), 2, 0, 1, 0) {
        Err(PacketReadError::Timeout(text)) => assert_eq!(text, "2s"),
        other => panic!("unexpected {other:?}"),
    }
    match after_body_read(Err(TransferFailure::TimedOut), 2, 0) {
        Err(PacketReadError::Timeout(text)) => assert_eq!(text, "2s"),
        other => panic!("unexpected {other:?}"),
    }
}

#[test]
fn read_steps_stop_before_an_oversized_body() {
    assert!(matches!(
        after_prefix_read(Ok([2, 0, 0, 1]), 2, 0, 0, 0),
        Err(PacketReadError::PacketTooLarge(33_554_433))
    ));
    assert!(matches!(after_prefix_read(Ok([0, 0, 0, 9]), 2, 0, 0, 500_000_000), Ok((9, (1, 500_000_000)))));
    assert!(matches!(
        after_prefix_read(Err(TransferFailure::Io(io::Error::other("eof"))), 2, 0, 0, 0),
        Err(PacketReadError::IO(_))
    ));
    assert!(matches!(after_body_read(Ok(()), 2, 0), Ok(())));
}

#[test]
fn write_steps_pass_on_the_deadline_left() {
    assert!(matches!(after_prefix_write(Ok(()), 2, 0, 3, 0), Ok((0, 0))));
    assert!(matches!(after_prefix_write(Ok(()), 2, 0, 0, 250_000_000), Ok((1, 750_000_000))));
    match after_prefix_write(Err(TransferFailure::TimedOut), 0, 500_000_000, 0, 0) {
        Err(PacketWriteError::Timeout(text)) => assert_eq!(text, "500ms"),
        other => panic!("unexpected {other:?}"),
    }
    assert!(matches!(
        after_body_write(Err(TransferFailure::Io(io::Error::other("pipe"))), 2, 0),
        Err(PacketWriteError::IO(_))
    ));
    assert!(matches!(after_body_write(Ok(()), 2, 0), Ok(())));
}

#[test]
fn plain_read_step_checks_the_limit() {
    assert!(matches!(plain_networking::after_prefix_read(Ok([0, 0, 0, 3])), Ok(3)));
    assert!(matches!(
        plain_networking::after_prefix_read(Ok([3, 0, 0, 0])),
        Err(plain_networking::PacketReadError::PacketTooLarge(50_331_648))
    ));
    assert!(matches!(
        plain_networking::after_prefix_read(Err(io::Error::other("eof"))),
        Err(plain_networking::PacketReadError::IO(_))
    ));
}

#[test]
fn manager_refusal_keeps_the_connected_agent() {
    with_stream_halves(|mut halves| {
        let mut manager = AgentConnectionManager::new();
        let first = accepted(Ok(request_packet(1, "same")), halves.pop().unwrap());
        let second = accepted(Ok(request_packet(1, "same")), halves.pop().unwrap());
        assert!(manager.add(first).is_ok());
        assert!(manager.add(second).is_err());
        assert!(manager.remove("same").is_ok());
        assert_eq!(manager.count(), 0);
    });
}
