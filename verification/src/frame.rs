//! The frame: a four-byte big-endian length, then exactly that many bytes.

use crate::error::VeriflowError;
use vstd::prelude::*;

verus! {

/// The number of bytes of the length prefix.
pub const PREFIX_LEN: usize = 4;

/// The longest payload that one frame can carry.
pub const MAX_PAYLOAD: usize = 0xffff_ffff;

/// The four bytes that stand for `n` on the wire, most significant first.
pub open spec fn be32(n: nat) -> Seq<u8>
    recommends
        n <= u32::MAX,
{
    seq![
        (n / 0x100_0000 % 0x100) as u8,
        (n / 0x1_0000 % 0x100) as u8,
        (n / 0x100 % 0x100) as u8,
        (n % 0x100) as u8,
    ]
}

/// The number that the first four bytes of `bytes` stand for.
pub open spec fn be32_value(bytes: Seq<u8>) -> nat
    recommends
        bytes.len() >= 4,
{
    (bytes[0] * 0x100_0000 + bytes[1] * 0x1_0000 + bytes[2] * 0x100 + bytes[3]) as nat
}

/// The frame that carries `payload`.
pub open spec fn frame(payload: Seq<u8>) -> Seq<u8>
    recommends
        payload.len() <= u32::MAX,
{
    be32(payload.len()) + payload
}

/// Whether `bytes` starts with a whole frame.
pub open spec fn has_frame(bytes: Seq<u8>) -> bool {
    bytes.len() >= 4 && bytes.len() - 4 >= be32_value(bytes)
}

/// The payload of the frame that `bytes` starts with.
pub open spec fn first_payload(bytes: Seq<u8>) -> Seq<u8>
    recommends
        has_frame(bytes),
{
    bytes.subrange(4, 4 + be32_value(bytes) as int)
}

/// What follows the frame that `bytes` starts with.
pub open spec fn after_frame(bytes: Seq<u8>) -> Seq<u8>
    recommends
        has_frame(bytes),
{
    bytes.skip(4 + be32_value(bytes) as int)
}

/// Writes a length as its four-byte prefix.
pub fn encode_prefix(len: u32) -> (prefix: [u8; 4])
    ensures
        prefix@ == be32(len as nat),
{
    let prefix: [u8; 4] = [
        (len / 0x100_0000 % 0x100) as u8,
        (len / 0x1_0000 % 0x100) as u8,
        (len / 0x100 % 0x100) as u8,
        (len % 0x100) as u8,
    ];
    assert(prefix@ =~= be32(len as nat));
    prefix
}

/// Reads a four-byte prefix back as the length it stands for.
pub fn decode_prefix(prefix: &[u8; 4]) -> (len: u32)
    ensures
        len == be32_value(prefix@),
{
    let b0: u32 = prefix[0] as u32;
    let b1: u32 = prefix[1] as u32;
    let b2: u32 = prefix[2] as u32;
    let b3: u32 = prefix[3] as u32;
    b0 * 0x100_0000 + b1 * 0x1_0000 + b2 * 0x100 + b3
}

/// Builds the frame for a payload.
///
/// A payload longer than `MAX_PAYLOAD` has no frame: its length does not fit
/// the prefix, and a prefix that disagreed with the payload would mislead the
/// reader.
pub fn encode_frame(payload: &[u8]) -> (result: Result<Vec<u8>, VeriflowError>)
    ensures
        payload@.len() <= MAX_PAYLOAD ==> result is Ok && result->Ok_0@ == frame(payload@),
        payload@.len() > MAX_PAYLOAD ==> result == Err::<Vec<u8>, VeriflowError>(
            VeriflowError::Protocol,
        ),
{
    if payload.len() > MAX_PAYLOAD {
        return Err(VeriflowError::Protocol);
    }
    let prefix = encode_prefix(payload.len() as u32);
    let mut bytes: Vec<u8> = Vec::new();
    bytes.extend_from_slice(prefix.as_slice());
    bytes.extend_from_slice(payload);
    assert(bytes@ =~= frame(payload@));
    Ok(bytes)
}

/// Takes the first frame off `bytes`.
///
/// Returns the payload and the number of bytes that the frame took, or
/// `None` while `bytes` does not yet hold the whole frame.
pub fn decode_frame(bytes: &[u8]) -> (result: Option<(Vec<u8>, usize)>)
    ensures
        match result {
            Some((payload, taken)) => has_frame(bytes@) && payload@ == first_payload(bytes@)
                && taken == 4 + be32_value(bytes@),
            None => !has_frame(bytes@),
        },
{
    if bytes.len() < PREFIX_LEN {
        return None;
    }
    let prefix: [u8; 4] = [bytes[0], bytes[1], bytes[2], bytes[3]];
    let len = decode_prefix(&prefix);
    assert(be32_value(prefix@) == be32_value(bytes@));
    if bytes.len() - PREFIX_LEN < len as usize {
        return None;
    }
    let end: usize = PREFIX_LEN + len as usize;
    let payload = vstd::slice::slice_to_vec(vstd::slice::slice_subrange(bytes, PREFIX_LEN, end));
    Some((payload, end))
}

/// The prefix of a frame states the length of its payload.
pub proof fn lemma_prefix_states_length(n: nat)
    requires
        n <= u32::MAX,
    ensures
        be32(n).len() == 4,
        be32_value(be32(n)) == n,
{
    let low = n / 0x100;
    let mid = low / 0x100;
    let top = mid / 0x100;
    assert(n == low * 0x100 + n % 0x100);
    assert(low == mid * 0x100 + low % 0x100);
    assert(mid == top * 0x100 + mid % 0x100);
    assert(n / 0x1_0000 == mid);
    assert(n / 0x100_0000 == top);
    assert(top < 0x100);
}

/// A prefix is determined by the length it states: decoding four bytes and
/// encoding the result gives the same four bytes.
pub proof fn lemma_prefix_is_canonical(bytes: Seq<u8>)
    requires
        bytes.len() == 4,
    ensures
        be32_value(bytes) <= u32::MAX,
        be32(be32_value(bytes)) == bytes,
{
    let n = be32_value(bytes);
    let b0 = bytes[0] as nat;
    let b1 = bytes[1] as nat;
    let b2 = bytes[2] as nat;
    let b3 = bytes[3] as nat;
    assert(n == ((b0 * 0x100 + b1) * 0x100 + b2) * 0x100 + b3);
    assert(n % 0x100 == b3);
    assert(n / 0x100 == (b0 * 0x100 + b1) * 0x100 + b2);
    assert(n / 0x100 % 0x100 == b2);
    assert(n / 0x1_0000 == b0 * 0x100 + b1);
    assert(n / 0x1_0000 % 0x100 == b1);
    assert(n / 0x100_0000 == b0);
    assert(be32(n) =~= bytes);
}

/// Writing a frame and reading it back gives the payload that was written,
/// byte for byte, whatever follows the frame on the wire; the prefix that is
/// read states the payload's length.
pub proof fn lemma_frame_round_trip(payload: Seq<u8>, rest: Seq<u8>)
    requires
        payload.len() <= u32::MAX,
    ensures
        has_frame(frame(payload) + rest),
        be32_value(frame(payload) + rest) == payload.len(),
        first_payload(frame(payload) + rest) == payload,
        after_frame(frame(payload) + rest) == rest,
{
    let wire = frame(payload) + rest;
    lemma_prefix_states_length(payload.len());
    assert(be32_value(wire) == be32_value(be32(payload.len())));
    assert(first_payload(wire) =~= payload);
    assert(after_frame(wire) =~= rest);
}

} // verus!
