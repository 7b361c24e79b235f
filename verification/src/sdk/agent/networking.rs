//! Framing of agent protocol packets without deadlines.

use vstd::prelude::*;
use crate::framing::{be_bytes, be_value, frame_body_len, frame_header};

verus! {

/// The largest encoded packet that is sent or accepted: 32 MiB.
pub const MAX_PACKET_SIZE: usize = 32 * 1024 * 1024;

/// Why reading a packet failed.
#[derive(Debug)]
pub enum PacketReadError {
    IO(std::io::Error),
    /// The prefix announced more than [`MAX_PACKET_SIZE`] bytes.
    PacketTooLarge(usize),
    Decode(prost::DecodeError),
}

/// Why writing a packet failed.
#[derive(Debug)]
pub enum PacketWriteError {
    IO(std::io::Error),
    Encode(prost::EncodeError),
    /// The encoded packet is announced as more than [`MAX_PACKET_SIZE`] bytes.
    PacketTooLarge(usize),
}

/// The number of bytes to read after a received length prefix, or
/// `PacketTooLarge` where the prefix announces more than [`MAX_PACKET_SIZE`].
pub fn incoming_packet_size(header: [u8; 4]) -> (r: Result<usize, PacketReadError>)
    ensures
        be_value(header@) <= MAX_PACKET_SIZE ==> r == Ok::<usize, PacketReadError>(
            be_value(header@) as usize,
        ),
        be_value(header@) > MAX_PACKET_SIZE ==> r == Err::<usize, PacketReadError>(
            PacketReadError::PacketTooLarge(be_value(header@) as usize),
        ),
{
    match frame_body_len(header, MAX_PACKET_SIZE) {
        Ok(size) => Ok(size),
        Err(size) => Err(PacketReadError::PacketTooLarge(size)),
    }
}

/// The length prefix to send before an encoded packet of `encoded_len`
/// bytes, or `PacketTooLarge` with the announced length where that exceeds
/// [`MAX_PACKET_SIZE`].
pub fn outgoing_packet_header(encoded_len: usize) -> (r: Result<[u8; 4], PacketWriteError>)
    ensures
        encoded_len <= MAX_PACKET_SIZE ==> (r matches Ok(header) && header@ == be_bytes(
            encoded_len as nat,
        )),
        encoded_len > MAX_PACKET_SIZE ==> r == Err::<[u8; 4], PacketWriteError>(
            PacketWriteError::PacketTooLarge(encoded_len),
        ),
{
    match frame_header(encoded_len, MAX_PACKET_SIZE) {
        Ok(header) => Ok(header),
        Err(size) => Err(PacketWriteError::PacketTooLarge(size)),
    }
}

/// What follows the read of a length prefix: the number of body bytes to
/// read, or the error that ends the read. An I/O failure is passed on, and
/// a prefix announcing more than [`MAX_PACKET_SIZE`] bytes ends the read
/// before any body byte is read.
pub fn after_prefix_read(prefix: Result<[u8; 4], std::io::Error>) -> (r: Result<
    usize,
    PacketReadError,
>)
    ensures
        match prefix {
            Err(e) => r == Err::<usize, _>(PacketReadError::IO(e)),
            Ok(header) => if be_value(header@) > MAX_PACKET_SIZE {
                r == Err::<usize, _>(PacketReadError::PacketTooLarge(be_value(header@) as usize))
            } else {
                r == Ok::<usize, PacketReadError>(be_value(header@) as usize)
            },
        },
{
    match prefix {
        Err(e) => Err(PacketReadError::IO(e)),
        Ok(header) => incoming_packet_size(header),
    }
}

/// Every packet that the writer accepts is read back whole: its prefix is
/// accepted by the reader, which then reads exactly the packet's length.
pub proof fn lemma_write_then_read(encoded_len: nat)
    requires
        encoded_len <= MAX_PACKET_SIZE,
    ensures
        be_bytes(encoded_len).len() == 4,
        be_value(be_bytes(encoded_len)) == encoded_len,
        be_value(be_bytes(encoded_len)) <= MAX_PACKET_SIZE,
{
    crate::framing::lemma_frame_roundtrip(encoded_len, MAX_PACKET_SIZE as nat);
}

} // verus!
