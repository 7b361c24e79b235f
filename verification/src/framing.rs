//! Length-prefixed framing shared by every connection of the protocol.
//!
//! A frame on the wire is a four-byte big-endian length followed by that
//! many bytes of an encoded packet.

use vstd::prelude::*;

verus! {

/// The number of bytes of a frame's length prefix.
pub const HEADER_LEN: usize = 4;

/// The value of four bytes read as a big-endian unsigned integer.
pub open spec fn be_value(b: Seq<u8>) -> nat
    recommends
        b.len() == 4,
{
    (b[0] as nat) * 16777216 + (b[1] as nat) * 65536 + (b[2] as nat) * 256 + (b[3] as nat)
}

/// The four big-endian bytes of a value below 2^32.
pub open spec fn be_bytes(n: nat) -> Seq<u8>
    recommends
        n < 4294967296,
{
    seq![
        (n / 16777216) as u8,
        ((n / 65536) % 256) as u8,
        ((n / 256) % 256) as u8,
        (n % 256) as u8,
    ]
}

/// Whether an encoded packet of `len` bytes may be sent under the limit
/// `max`: it is within the limit, and its length fits the four-byte prefix.
pub open spec fn fits_frame(len: nat, max: nat) -> bool {
    len <= max && len < 4294967296
}

/// Reading back the bytes of a value gives the value.
pub proof fn lemma_be_value_of_bytes(n: nat)
    requires
        n < 4294967296,
    ensures
        be_bytes(n).len() == 4,
        be_value(be_bytes(n)) == n,
{
    let b0 = n / 16777216;
    let r0 = n % 16777216;
    let b1 = r0 / 65536;
    let r1 = r0 % 65536;
    let b2 = r1 / 256;
    let b3 = r1 % 256;
    assert(n == b0 * 16777216 + b1 * 65536 + b2 * 256 + b3 && b0 < 256 && b1 < 256 && b2 < 256
        && b3 < 256) by (nonlinear_arith)
        requires
            n < 4294967296,
            b0 == n / 16777216,
            r0 == n % 16777216,
            b1 == r0 / 65536,
            r1 == r0 % 65536,
            b2 == r1 / 256,
            b3 == r1 % 256,
    ;
    assert((n / 65536) % 256 == b1 && (n / 256) % 256 == b2 && n % 256 == b3) by (nonlinear_arith)
        requires
            n == b0 * 16777216 + b1 * 65536 + b2 * 256 + b3,
            b1 < 256,
            b2 < 256,
            b3 < 256,
    ;
}

/// Writing the value of four bytes gives the bytes back.
pub proof fn lemma_be_bytes_of_value(b: Seq<u8>)
    requires
        b.len() == 4,
    ensures
        be_value(b) < 4294967296,
        be_bytes(be_value(b)) == b,
{
    let n = be_value(b);
    let (b0, b1, b2, b3) = (b[0] as nat, b[1] as nat, b[2] as nat, b[3] as nat);
    assert(n / 16777216 == b0 && (n / 65536) % 256 == b1 && (n / 256) % 256 == b2 && n % 256 == b3
        && n < 4294967296) by (nonlinear_arith)
        requires
            n == b0 * 16777216 + b1 * 65536 + b2 * 256 + b3,
            b0 < 256,
            b1 < 256,
            b2 < 256,
            b3 < 256,
    ;
    assert(be_bytes(n) =~= b);
}

/// The length that a four-byte big-endian prefix announces.
pub fn decode_header(header: [u8; 4]) -> (size: u32)
    ensures
        size == be_value(header@),
        size == header[0] * 16777216 + header[1] * 65536 + header[2] * 256 + header[3],
{
    let b0: u32 = header[0] as u32;
    let b1: u32 = header[1] as u32;
    let b2: u32 = header[2] as u32;
    let b3: u32 = header[3] as u32;
    assert(b0 * 16777216 + b1 * 65536 + b2 * 256 + b3 < 4294967296) by (nonlinear_arith)
        requires
            b0 < 256,
            b1 < 256,
            b2 < 256,
            b3 < 256,
    ;
    b0 * 16777216 + b1 * 65536 + b2 * 256 + b3
}

/// The four-byte big-endian prefix that announces `size` bytes.
pub fn encode_header(size: u32) -> (header: [u8; 4])
    ensures
        header@ == be_bytes(size as nat),
        header[0] * 16777216 + header[1] * 65536 + header[2] * 256 + header[3] == size,
{
    let header: [u8; 4] = [
        (size / 16777216) as u8,
        ((size / 65536) % 256) as u8,
        ((size / 256) % 256) as u8,
        (size % 256) as u8,
    ];
    assert(header@ =~= be_bytes(size as nat));
    proof {
        lemma_be_value_of_bytes(size as nat);
    }
    header
}

/// The prefix that announces an encoded packet of `len` bytes, or, where
/// the packet exceeds `max` or is too long for a four-byte prefix, its
/// length as the error.
pub fn frame_header(len: usize, max: usize) -> (r: Result<[u8; 4], usize>)
    ensures
        fits_frame(len as nat, max as nat) ==> (r matches Ok(header) && header@ == be_bytes(
            len as nat,
        )),
        !fits_frame(len as nat, max as nat) ==> r == Err::<[u8; 4], usize>(len),
        len <= max && len < 4294967296 ==> (r matches Ok(header) && header[0] * 16777216 + header[1]
            * 65536 + header[2] * 256 + header[3] == len),
        len > max || len >= 4294967296 ==> r == Err::<[u8; 4], usize>(len),
{
    if len > max || len as u64 > 4294967295u64 {
        Err(len)
    } else {
        Ok(encode_header(len as u32))
    }
}

/// The body length that a received prefix announces, or, where it exceeds
/// `max`, that length as the error.
pub fn frame_body_len(header: [u8; 4], max: usize) -> (r: Result<usize, usize>)
    ensures
        match r {
            Ok(size) => size == be_value(header@) && size <= max,
            Err(size) => size == be_value(header@) && size > max,
        },
        ({
            let n = header[0] * 16777216 + header[1] * 65536 + header[2] * 256 + header[3];
            &&& n <= max ==> r == Ok::<usize, usize>(n as usize)
            &&& n > max ==> r == Err::<usize, usize>(n as usize)
        }),
{
    let size = decode_header(header) as usize;
    if size > max {
        Err(size)
    } else {
        Ok(size)
    }
}

/// A packet may be framed under a limit exactly when its length is within
/// that limit and below 2^32, whatever the limit is.
pub proof fn lemma_fits_frame_exact(len: nat, max: nat)
    ensures
        fits_frame(len, max) <==> (len <= max && len < 4294967296),
{
}

/// The prefix value of four bytes is their big-endian reading, and the
/// bytes of a value below 2^32 are its base-256 digits, most significant
/// first.
pub proof fn lemma_big_endian(b: Seq<u8>, n: nat)
    requires
        b.len() == 4,
        n < 4294967296,
    ensures
        be_value(b) == b[0] * 16777216 + b[1] * 65536 + b[2] * 256 + b[3],
        be_bytes(n).len() == 4,
        be_bytes(n)[0] * 16777216 + be_bytes(n)[1] * 65536 + be_bytes(n)[2] * 256 + be_bytes(n)[3]
            == n,
{
    lemma_be_value_of_bytes(n);
}

/// The deadline left is the whole deadline less the elapsed time, counted
/// in nanoseconds, and nothing once the elapsed time exceeds the deadline.
pub proof fn lemma_remaining_is_saturating_difference(
    timeout_secs: u64,
    timeout_nanos: u32,
    elapsed_secs: u64,
    elapsed_nanos: u32,
)
    ensures
        elapsed_secs * 1_000_000_000 + elapsed_nanos <= timeout_secs * 1_000_000_000
            + timeout_nanos ==> remaining_nanos(timeout_secs, timeout_nanos, elapsed_secs, elapsed_nanos)
            == (timeout_secs * 1_000_000_000 + timeout_nanos) - (elapsed_secs * 1_000_000_000
            + elapsed_nanos),
        elapsed_secs * 1_000_000_000 + elapsed_nanos > timeout_secs * 1_000_000_000
            + timeout_nanos ==> remaining_nanos(timeout_secs, timeout_nanos, elapsed_secs, elapsed_nanos)
            == 0,
{
}

/// What the reader takes from a prefix is what the writer announced: every
/// packet the writer frames gets a prefix that announces exactly its
/// length, and that length passes the reader's check under the same limit.
pub proof fn lemma_frame_roundtrip(len: nat, max: nat)
    requires
        fits_frame(len, max),
    ensures
        be_bytes(len).len() == 4,
        be_value(be_bytes(len)) == len,
        be_value(be_bytes(len)) <= max,
{
    lemma_be_value_of_bytes(len);
}

/// No two lengths share a prefix: every prefix the reader accepts is the
/// one the writer produces for a packet of the announced length.
pub proof fn lemma_header_determines_len(b: Seq<u8>, len: nat)
    requires
        b.len() == 4,
        be_value(b) == len,
    ensures
        len < 4294967296,
        be_bytes(len) == b,
{
    lemma_be_bytes_of_value(b);
}

/// The length in nanoseconds of a duration of `secs` seconds and `nanos`
/// nanoseconds.
pub open spec fn total_nanos(secs: u64, nanos: u32) -> int {
    secs * 1_000_000_000 + nanos
}

/// The nanoseconds left of a deadline of `timeout` once `elapsed` has
/// passed, each given as whole seconds and the nanoseconds beyond them;
/// none once the deadline has passed.
pub open spec fn remaining_nanos(
    timeout_secs: u64,
    timeout_nanos: u32,
    elapsed_secs: u64,
    elapsed_nanos: u32,
) -> int {
    if total_nanos(elapsed_secs, elapsed_nanos) <= total_nanos(timeout_secs, timeout_nanos) {
        total_nanos(timeout_secs, timeout_nanos) - total_nanos(elapsed_secs, elapsed_nanos)
    } else {
        0
    }
}

/// What is left of a deadline of `timeout` once `elapsed` has passed, each
/// given as whole seconds and the nanoseconds beyond them; nothing is left
/// once the deadline has passed.
pub fn remaining_timeout(
    timeout_secs: u64,
    timeout_nanos: u32,
    elapsed_secs: u64,
    elapsed_nanos: u32,
) -> (left: (u64, u32))
    requires
        timeout_nanos < 1_000_000_000,
        elapsed_nanos < 1_000_000_000,
    ensures
        left.1 < 1_000_000_000,
        total_nanos(left.0, left.1) == remaining_nanos(
            timeout_secs,
            timeout_nanos,
            elapsed_secs,
            elapsed_nanos,
        ),
        elapsed_secs * 1_000_000_000 + elapsed_nanos <= timeout_secs * 1_000_000_000
            + timeout_nanos ==> left.0 * 1_000_000_000 + left.1 == (timeout_secs * 1_000_000_000
            + timeout_nanos) - (elapsed_secs * 1_000_000_000 + elapsed_nanos),
        elapsed_secs * 1_000_000_000 + elapsed_nanos > timeout_secs * 1_000_000_000
            + timeout_nanos ==> left == (0u64, 0u32),
{
    if elapsed_secs > timeout_secs || (elapsed_secs == timeout_secs && elapsed_nanos
        > timeout_nanos) {
        (0, 0)
    } else if timeout_nanos >= elapsed_nanos {
        (timeout_secs - elapsed_secs, timeout_nanos - elapsed_nanos)
    } else {
        (timeout_secs - elapsed_secs - 1, 1_000_000_000 - elapsed_nanos + timeout_nanos)
    }
}

/// How waiting for bytes to be read or written ended without them: an I/O
/// error, or the deadline passing first.
#[derive(Debug)]
pub enum TransferFailure {
    Io(std::io::Error),
    TimedOut,
}

/// The text that `humantime` gives for a duration of `secs` seconds and
/// `nanos` nanoseconds.
pub uninterp spec fn humantime_text(secs: u64, nanos: u32) -> Seq<char>;

/// Calls `humantime::format_duration` on the duration of `secs` seconds and
/// `nanos` nanoseconds and renders it with `to_string`. The text is named by
/// `humantime_text` and, for a zero duration, is `0s`; its form otherwise
/// (the nonzero units from years down to nanoseconds, such as `2h 37m`) is
/// left unsaid.
#[verifier::external_body]
pub fn format_duration(secs: u64, nanos: u32) -> (text: String)
    requires
        nanos < 1_000_000_000,
    ensures
        text@ == humantime_text(secs, nanos),
        secs == 0 && nanos == 0 ==> text@ == seq!['0', 's'],
{
    humantime::format_duration(std::time::Duration::new(secs, nanos)).to_string()
}

} // verus!
