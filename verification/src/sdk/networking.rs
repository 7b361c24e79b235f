//! Framing of agent protocol packets with a deadline on each transfer.
//!
//! The caller moves the bytes and measures the time; this module decides,
//! from the prefix it read or the encoding it is about to send, whether the
//! transfer goes on and what error ends it.

use vstd::prelude::*;
use crate::framing::{
    be_bytes, be_value, format_duration, frame_body_len, frame_header, humantime_text,
    remaining_nanos, remaining_timeout, total_nanos, TransferFailure,
};

verus! {

/// The largest encoded packet that is sent or accepted: 32 MiB.
pub const MAX_PACKET_SIZE: usize = 32 * 1024 * 1024;

/// Why reading a packet failed.
#[derive(Debug)]
pub enum PacketReadError {
    /// The deadline passed; the text renders the whole deadline.
    Timeout(String),
    IO(std::io::Error),
    /// The prefix announced more than [`MAX_PACKET_SIZE`] bytes.
    PacketTooLarge(usize),
    Decode(prost::DecodeError),
}

/// Why writing a packet failed.
#[derive(Debug)]
pub enum PacketWriteError {
    /// The deadline passed; the text renders the whole deadline.
    Timeout(String),
    IO(std::io::Error),
    Encode(prost::EncodeError),
    /// The encoded packet is announced as more than [`MAX_PACKET_SIZE`] bytes.
    PacketTooLarge(usize),
}

/// The number of bytes to read after a received length prefix, or
/// `PacketTooLarge` where the prefix announces more than [`MAX_PACKET_SIZE`].
pub fn incoming_packet_size(header: [u8; 4]) -> (r: Result<usize, PacketReadError>)
    ensures
        be_value(header@) <= MAX_PACKET_SIZE ==> r == Ok::<usize, PacketReadError>(
            be_value(header@) as usize,
        ),
        be_value(header@) > MAX_PACKET_SIZE ==> r == Err::<usize, PacketReadError>(
            PacketReadError::PacketTooLarge(be_value(header@) as usize),
        ),
{
    match frame_body_len(header, MAX_PACKET_SIZE) {
        Ok(size) => Ok(size),
        Err(size) => Err(PacketReadError::PacketTooLarge(size)),
    }
}

/// The length prefix to send before an encoded packet of `encoded_len`
/// bytes, or `PacketTooLarge` with the announced length where that exceeds
/// [`MAX_PACKET_SIZE`].
pub fn outgoing_packet_header(encoded_len: usize) -> (r: Result<[u8; 4], PacketWriteError>)
    ensures
        encoded_len <= MAX_PACKET_SIZE ==> (r matches Ok(header) && header@ == be_bytes(
            encoded_len as nat,
        )),
        encoded_len > MAX_PACKET_SIZE ==> r == Err::<[u8; 4], PacketWriteError>(
            PacketWriteError::PacketTooLarge(encoded_len),
        ),
{
    match frame_header(encoded_len, MAX_PACKET_SIZE) {
        Ok(header) => Ok(header),
        Err(size) => Err(PacketWriteError::PacketTooLarge(size)),
    }
}

/// The error that ends a read whose deadline of `secs` seconds and `nanos`
/// nanoseconds passed.
pub fn read_timeout_error(secs: u64, nanos: u32) -> (e: PacketReadError)
    requires
        nanos < 1_000_000_000,
    ensures
        e matches PacketReadError::Timeout(text) && text@ == humantime_text(secs, nanos),
{
    PacketReadError::Timeout(format_duration(secs, nanos))
}

/// The error that ends a write whose deadline of `secs` seconds and `nanos`
/// nanoseconds passed.
pub fn write_timeout_error(secs: u64, nanos: u32) -> (e: PacketWriteError)
    requires
        nanos < 1_000_000_000,
    ensures
        e matches PacketWriteError::Timeout(text) && text@ == humantime_text(secs, nanos),
{
    PacketWriteError::Timeout(format_duration(secs, nanos))
}

/// What follows the read of a length prefix: the number of body bytes to
/// read and the deadline left for them, or the error that ends the read.
/// An I/O failure is passed on; a passed deadline is reported with the
/// whole deadline, not what was left of it; and a prefix announcing more
/// than [`MAX_PACKET_SIZE`] bytes ends the read before any body byte is read.
pub fn after_prefix_read(
    prefix: Result<[u8; 4], TransferFailure>,
    timeout_secs: u64,
    timeout_nanos: u32,
    elapsed_secs: u64,
    elapsed_nanos: u32,
) -> (r: Result<(usize, (u64, u32)), PacketReadError>)
    requires
        timeout_nanos < 1_000_000_000,
        elapsed_nanos < 1_000_000_000,
    ensures
        match prefix {
            Err(TransferFailure::Io(e)) => r == Err::<(usize, (u64, u32)), _>(
                PacketReadError::IO(e),
            ),
            Err(TransferFailure::TimedOut) => r matches Err(PacketReadError::Timeout(text))
                && text@ == humantime_text(timeout_secs, timeout_nanos),
            Ok(header) => if be_value(header@) > MAX_PACKET_SIZE {
                r == Err::<(usize, (u64, u32)), _>(
                    PacketReadError::PacketTooLarge(be_value(header@) as usize),
                )
            } else {
                &&& r matches Ok((size, left))
                &&& size == be_value(header@)
                &&& left.1 < 1_000_000_000
                &&& total_nanos(left.0, left.1) == remaining_nanos(
                    timeout_secs,
                    timeout_nanos,
                    elapsed_secs,
                    elapsed_nanos,
                )
            },
        },
{
    match prefix {
        Err(TransferFailure::Io(e)) => Err(PacketReadError::IO(e)),
        Err(TransferFailure::TimedOut) => Err(read_timeout_error(timeout_secs, timeout_nanos)),
        Ok(header) => {
            let size = incoming_packet_size(header)?;
            let left = remaining_timeout(timeout_secs, timeout_nanos, elapsed_secs, elapsed_nanos);
            Ok((size, left))
        },
    }
}

/// What follows the read of a packet's body: success, or the error that
/// ends the read, reported as for the prefix.
pub fn after_body_read(body: Result<(), TransferFailure>, timeout_secs: u64, timeout_nanos: u32) -> (r:
    Result<(), PacketReadError>)
    requires
        timeout_nanos < 1_000_000_000,
    ensures
        match body {
            Ok(()) => r is Ok,
            Err(TransferFailure::Io(e)) => r == Err::<(), _>(PacketReadError::IO(e)),
            Err(TransferFailure::TimedOut) => r matches Err(PacketReadError::Timeout(text))
                && text@ == humantime_text(timeout_secs, timeout_nanos),
        },
{
    match body {
        Ok(()) => Ok(()),
        Err(TransferFailure::Io(e)) => Err(PacketReadError::IO(e)),
        Err(TransferFailure::TimedOut) => Err(read_timeout_error(timeout_secs, timeout_nanos)),
    }
}

/// What follows the write of a length prefix: the deadline left for the
/// body, or the error that ends the write. The body is written only after
/// its prefix was; a passed deadline is reported with the whole deadline.
pub fn after_prefix_write(
    written: Result<(), TransferFailure>,
    timeout_secs: u64,
    timeout_nanos: u32,
    elapsed_secs: u64,
    elapsed_nanos: u32,
) -> (r: Result<(u64, u32), PacketWriteError>)
    requires
        timeout_nanos < 1_000_000_000,
        elapsed_nanos < 1_000_000_000,
    ensures
        match written {
            Ok(()) => {
                &&& r matches Ok(left)
                &&& left.1 < 1_000_000_000
                &&& total_nanos(left.0, left.1) == remaining_nanos(
                    timeout_secs,
                    timeout_nanos,
                    elapsed_secs,
                    elapsed_nanos,
                )
            },
            Err(TransferFailure::Io(e)) => r == Err::<(u64, u32), _>(PacketWriteError::IO(e)),
            Err(TransferFailure::TimedOut) => r matches Err(PacketWriteError::Timeout(text))
                && text@ == humantime_text(timeout_secs, timeout_nanos),
        },
{
    match written {
        Ok(()) => Ok(remaining_timeout(timeout_secs, timeout_nanos, elapsed_secs, elapsed_nanos)),
        Err(TransferFailure::Io(e)) => Err(PacketWriteError::IO(e)),
        Err(TransferFailure::TimedOut) => Err(write_timeout_error(timeout_secs, timeout_nanos)),
    }
}

/// What follows the write of a packet's body: success, or the error that
/// ends the write, reported as for the prefix.
pub fn after_body_write(written: Result<(), TransferFailure>, timeout_secs: u64, timeout_nanos: u32) -> (r:
    Result<(), PacketWriteError>)
    requires
        timeout_nanos < 1_000_000_000,
    ensures
        match written {
            Ok(()) => r is Ok,
            Err(TransferFailure::Io(e)) => r == Err::<(), _>(PacketWriteError::IO(e)),
            Err(TransferFailure::TimedOut) => r matches Err(PacketWriteError::Timeout(text))
                && text@ == humantime_text(timeout_secs, timeout_nanos),
        },
{
    match written {
        Ok(()) => Ok(()),
        Err(TransferFailure::Io(e)) => Err(PacketWriteError::IO(e)),
        Err(TransferFailure::TimedOut) => Err(write_timeout_error(timeout_secs, timeout_nanos)),
    }
}

/// Every packet that the writer accepts is read back whole: its prefix is
/// accepted by the reader, which then reads exactly the packet's length.
pub proof fn lemma_write_then_read(encoded_len: nat)
    requires
        encoded_len <= MAX_PACKET_SIZE,
    ensures
        be_bytes(encoded_len).len() == 4,
        be_value(be_bytes(encoded_len)) == encoded_len,
        be_value(be_bytes(encoded_len)) <= MAX_PACKET_SIZE,
{
    crate::framing::lemma_frame_roundtrip(encoded_len, MAX_PACKET_SIZE as nat);
}

} // verus!
