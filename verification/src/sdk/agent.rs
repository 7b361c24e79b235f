//! The agent's side of a connection: what it makes of the packets it
//! receives and how it wraps the packets it sends.

pub mod client;
pub mod networking;
pub mod server;

use vstd::prelude::*;
use crate::sdk::networking::PacketReadError;
use crate::sdk::protocol::{
    packet_from_agent, server_packet_in, AgentPacket, Packet, PacketKind, ServerPacket,
};

verus! {

/// Why no server packet came out of a read.
#[derive(Debug)]
pub enum ServerPacketReadError {
    PacketRead(PacketReadError),
    /// The packet carried nothing.
    NoPayload,
    /// The packet carried an agent's packet.
    NoServerPacket,
}

/// The server packet that a read delivered, or why there is none.
pub fn into_server_packet(read: Result<Packet, PacketReadError>) -> (r: Result<
    ServerPacket,
    ServerPacketReadError,
>)
    ensures
        (r is Ok) ==> (read == Ok::<Packet, PacketReadError>(
            (Packet { packet: Some(PacketKind::ServerPacket(r->Ok_0)) }),
        )),
        (read matches Ok(p) && (p.packet is None)) ==> (r == Err::<ServerPacket, ServerPacketReadError>(ServerPacketReadError::NoPayload)),
        match read {
            Err(e) => r == Err::<ServerPacket, _>(ServerPacketReadError::PacketRead(e)),
            Ok(p) => match server_packet_in(p) {
                Some(s) => r == Ok::<_, ServerPacketReadError>(s),
                None => r == Err::<ServerPacket, _>(
                    if p.packet is None {
                        ServerPacketReadError::NoPayload
                    } else {
                        ServerPacketReadError::NoServerPacket
                    },
                ),
            },
        },
{
    match read {
        Err(e) => Err(ServerPacketReadError::PacketRead(e)),
        Ok(packet) => match packet.packet {
            Some(packet) => match packet {
                PacketKind::ServerPacket(server_packet) => Ok(server_packet),
                _ => Err(ServerPacketReadError::NoServerPacket),
            },
            _ => Err(ServerPacketReadError::NoPayload),
        },
    }
}

/// The packet that carries an agent's packet.
pub fn wrap_agent_packet(agent_packet: AgentPacket) -> (p: Packet)
    ensures
        p == packet_from_agent(agent_packet),
{
    Packet { packet: Some(PacketKind::AgentPacket(agent_packet)) }
}

} // verus!
