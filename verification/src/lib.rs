//! Verified core of the swarm agent protocol: length-prefixed packet
//! framing, packet classification, the server side of the connection
//! handshake, and the bookkeeping of connected agents.
//!
//! Everything that touches a socket, a clock or the protobuf wire format
//! lives outside this crate; the functions here take what was read and
//! decide what happens next.

mod outside;

pub mod framing;
pub mod accepting;
pub mod sdk;
pub mod server;
