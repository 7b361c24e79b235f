# swarm_protocol

The verified core of the swarm agent protocol, written in Verus.

Agents talk to a server over a TCP (or TLS) stream. Every packet travels as
a four-byte big-endian length followed by the protobuf encoding of the
packet. A connection starts with a handshake in which the agent asks to be
connected under an identifier and with a protocol version; the server
answers with an acceptance or with the reason for refusing.

## Layout

- `src/framing.rs` — the length prefix, its size limit, deadline arithmetic
  and the rendering of deadlines in error messages.
- `src/accepting.rs` — whether a server's accepting task runs.
- `src/sdk/` — the SDK generation of the protocol: packet types, framing
  with and without deadlines, the agent's and the server's handling of
  packets, the handshake, and the registry of connected agents.
- `src/server/` — the TLS server generation: packet types, framing with a
  configured size limit, the handshake, the registry of connected agents and
  the server's admission of a new agent.
- `app/` — the program around the library: sockets, TLS, timers, the
  protobuf encoding of the packets, logging and the command line.
- `tests/` — tests of the library on concrete values.

Each function of the library states what it returns in its contract; the
proof functions named `lemma_*` state the properties that hold across
functions, such as that a length prefix written for a packet is read back
as that packet's length, or that an agent asking with the current protocol
version is admitted.
