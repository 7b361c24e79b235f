//! Framing of agent protocol packets over TLS, with a deadline on each
//! transfer and a packet size limit chosen by the server's configuration.

use vstd::prelude::*;
use crate::framing::{
    be_bytes, be_value, fits_frame, format_duration, frame_body_len, frame_header, humantime_text,
    remaining_nanos, remaining_timeout, total_nanos, TransferFailure,
};
use tokio::io::{BufReader, BufWriter, ReadHalf, WriteHalf};
use tokio::net::TcpStream;
use tokio_rustls::server::TlsStream;

verus! {

/// The buffered reading half of an agent's TLS stream.
pub type UnpinnableAsyncTlsRead = BufReader<ReadHalf<TlsStream<TcpStream>>>;

/// The buffered writing half of an agent's TLS stream.
pub type UnpinnableAsyncTlsWrite = BufWriter<WriteHalf<TlsStream<TcpStream>>>;


/// Why reading a packet failed.
#[derive(Debug)]
pub enum PacketReadError {
    /// The deadline passed; the text renders the whole deadline.
    Timeout(String),
    IO(std::io::Error),
    /// The prefix announced more bytes than the limit allows.
    PacketTooLarge(usize),
    Decode(prost::DecodeError),
}

/// Why writing a packet failed.
#[derive(Debug)]
pub enum PacketWriteError {
    /// The deadline passed; the text renders the whole deadline.
    Timeout(String),
    IO(std::io::Error),
    Encode(prost::EncodeError),
    /// The encoded packet is announced as more bytes than the limit allows.
    PacketTooLarge(usize),
}

/// The number of bytes to read after a received length prefix, or
/// `PacketTooLarge` where the prefix announces more than `max_packet_size`.
pub fn incoming_packet_size(header: [u8; 4], max_packet_size: usize) -> (r: Result<
    usize,
    PacketReadError,
>)
    ensures
        be_value(header@) <= max_packet_size ==> r == Ok::<usize, PacketReadError>(
            be_value(header@) as usize,
        ),
        be_value(header@) > max_packet_size ==> r == Err::<usize, PacketReadError>(
            PacketReadError::PacketTooLarge(be_value(header@) as usize),
        ),
{
    match frame_body_len(header, max_packet_size) {
        Ok(size) => Ok(size),
        Err(size) => Err(PacketReadError::PacketTooLarge(size)),
    }
}

/// The length prefix to send before an encoded packet of `encoded_len`
/// bytes, or `PacketTooLarge` with the announced length where that exceeds
/// `max_packet_size`.
pub fn outgoing_packet_header(encoded_len: usize, max_packet_size: usize) -> (r: Result<
    [u8; 4],
    PacketWriteError,
>)
    ensures
        fits_frame(encoded_len as nat, max_packet_size as nat) ==> (r matches Ok(header)
            && header@ == be_bytes(encoded_len as nat)),
        !fits_frame(encoded_len as nat, max_packet_size as nat) ==> r == Err::<
            [u8; 4],
            PacketWriteError,
        >(PacketWriteError::PacketTooLarge(encoded_len)),
{
    match frame_header(encoded_len, max_packet_size) {
        Ok(header) => Ok(header),
        Err(size) => Err(PacketWriteError::PacketTooLarge(size)),
    }
}

/// The error that ends a read whose deadline of `secs` seconds and `nanos`
/// nanoseconds passed.
pub fn read_timeout_error(secs: u64, nanos: u32) -> (e: PacketReadError)
    requires
        nanos < 1_000_000_000,
    ensures
        e matches PacketReadError::Timeout(text) && text@ == humantime_text(secs, nanos),
{
    PacketReadError::Timeout(format_duration(secs, nanos))
}

/// The error that ends a write whose deadline of `secs` seconds and `nanos`
/// nanoseconds passed.
pub fn write_timeout_error(secs: u64, nanos: u32) -> (e: PacketWriteError)
    requires
        nanos < 1_000_000_000,
    ensures
        e matches PacketWriteError::Timeout(text) && text@ == humantime_text(secs, nanos),
{
    PacketWriteError::Timeout(format_duration(secs, nanos))
}

/// What follows the read of a length prefix: the number of body bytes to
/// read and the deadline left for them, or the error that ends the read.
/// An I/O failure is passed on; a passed deadline is reported with the
/// whole deadline, not what was left of it; and a prefix announcing more
/// than `max_packet_size` bytes ends the read before any body byte is read.
pub fn after_prefix_read(
    prefix: Result<[u8; 4], TransferFailure>,
    max_packet_size: usize,
    timeout_secs: u64,
    timeout_nanos: u32,
    elapsed_secs: u64,
    elapsed_nanos: u32,
) -> (r: Result<(usize, (u64, u32)), PacketReadError>)
    requires
        timeout_nanos < 1_000_000_000,
        elapsed_nanos < 1_000_000_000,
    ensures
        match prefix {
            Err(TransferFailure::Io(e)) => r == Err::<(usize, (u64, u32)), _>(
                PacketReadError::IO(e),
            ),
            Err(TransferFailure::TimedOut) => r matches Err(PacketReadError::Timeout(text))
                && text@ == humantime_text(timeout_secs, timeout_nanos),
            Ok(header) => if be_value(header@) > max_packet_size {
                r == Err::<(usize, (u64, u32)), _>(
                    PacketReadError::PacketTooLarge(be_value(header@) as usize),
                )
            } else {
                &&& r matches Ok((size, left))
                &&& size == be_value(header@)
                &&& left.1 < 1_000_000_000
                &&& total_nanos(left.0, left.1) == remaining_nanos(
                    timeout_secs,
                    timeout_nanos,
                    elapsed_secs,
                    elapsed_nanos,
                )
            },
        },
{
    match prefix {
        Err(TransferFailure::Io(e)) => Err(PacketReadError::IO(e)),
        Err(TransferFailure::TimedOut) => Err(read_timeout_error(timeout_secs, timeout_nanos)),
        Ok(header) => {
            let size = incoming_packet_size(header, max_packet_size)?;
            let left = remaining_timeout(timeout_secs, timeout_nanos, elapsed_secs, elapsed_nanos);
            Ok((size, left))
        },
    }
}

/// What follows the read of a packet's body: success, or the error that
/// ends the read, reported as for the prefix.
pub fn after_body_read(body: Result<(), TransferFailure>, timeout_secs: u64, timeout_nanos: u32) -> (r:
    Result<(), PacketReadError>)
    requires
        timeout_nanos < 1_000_000_000,
    ensures
        match body {
            Ok(()) => r is Ok,
            Err(TransferFailure::Io(e)) => r == Err::<(), _>(PacketReadError::IO(e)),
            Err(TransferFailure::TimedOut) => r matches Err(PacketReadError::Timeout(text))
                && text@ == humantime_text(timeout_secs, timeout_nanos),
        },
{
    match body {
        Ok(()) => Ok(()),
        Err(TransferFailure::Io(e)) => Err(PacketReadError::IO(e)),
        Err(TransferFailure::TimedOut) => Err(read_timeout_error(timeout_secs, timeout_nanos)),
    }
}

/// What follows the write of a length prefix: the deadline left for the
/// body, or the error that ends the write. The body is written only after
/// its prefix was; a passed deadline is reported with the whole deadline.
pub fn after_prefix_write(
    written: Result<(), TransferFailure>,
    timeout_secs: u64,
    timeout_nanos: u32,
    elapsed_secs: u64,
    elapsed_nanos: u32,
) -> (r: Result<(u64, u32), PacketWriteError>)
    requires
        timeout_nanos < 1_000_000_000,
        elapsed_nanos < 1_000_000_000,
    ensures
        match written {
            Ok(()) => {
                &&& r matches Ok(left)
                &&& left.1 < 1_000_000_000
                &&& total_nanos(left.0, left.1) == remaining_nanos(
                    timeout_secs,
                    timeout_nanos,
                    elapsed_secs,
                    elapsed_nanos,
                )
            },
            Err(TransferFailure::Io(e)) => r == Err::<(u64, u32), _>(PacketWriteError::IO(e)),
            Err(TransferFailure::TimedOut) => r matches Err(PacketWriteError::Timeout(text))
                && text@ == humantime_text(timeout_secs, timeout_nanos),
        },
{
    match written {
        Ok(()) => Ok(remaining_timeout(timeout_secs, timeout_nanos, elapsed_secs, elapsed_nanos)),
        Err(TransferFailure::Io(e)) => Err(PacketWriteError::IO(e)),
        Err(TransferFailure::TimedOut) => Err(write_timeout_error(timeout_secs, timeout_nanos)),
    }
}

/// What follows the write of a packet's body: success, or the error that
/// ends the write, reported as for the prefix.
pub fn after_body_write(written: Result<(), TransferFailure>, timeout_secs: u64, timeout_nanos: u32) -> (r:
    Result<(), PacketWriteError>)
    requires
        timeout_nanos < 1_000_000_000,
    ensures
        match written {
            Ok(()) => r is Ok,
            Err(TransferFailure::Io(e)) => r == Err::<(), _>(PacketWriteError::IO(e)),
            Err(TransferFailure::TimedOut) => r matches Err(PacketWriteError::Timeout(text))
                && text@ == humantime_text(timeout_secs, timeout_nanos),
        },
{
    match written {
        Ok(()) => Ok(()),
        Err(TransferFailure::Io(e)) => Err(PacketWriteError::IO(e)),
        Err(TransferFailure::TimedOut) => Err(write_timeout_error(timeout_secs, timeout_nanos)),
    }
}

/// Every packet that the writer accepts under a limit is read back whole
/// under the same limit: its prefix is accepted by the reader, which then
/// reads exactly the packet's length.
pub proof fn lemma_write_then_read(encoded_len: nat, max_packet_size: nat)
    requires
        fits_frame(encoded_len, max_packet_size),
    ensures
        be_bytes(encoded_len).len() == 4,
        be_value(be_bytes(encoded_len)) == encoded_len,
        be_value(be_bytes(encoded_len)) <= max_packet_size,
{
    crate::framing::lemma_frame_roundtrip(encoded_len, max_packet_size);
}

} // verus!
