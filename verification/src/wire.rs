//! The wire format of a message: four bytes of header length, little-endian,
//! then the ratchet header, then the ciphertext.

use crate::bytes::{
    append_bytes, le_u32, lemma_bytes_of_le_u32, lemma_le_u32_of_bytes, read_le_u32,
    u32_le_bytes, write_le_u32,
};
use crate::error::FramingError;
use vstd::prelude::*;
use vstd::slice::slice_subrange;

verus! {

/// The length of the length prefix.
pub const HEADER_LEN_BYTES: usize = 4;

/// The most bytes that a buffer can hold.
pub const MAX_WIRE_LEN: usize = isize::MAX as usize;

/// The wire form of a header and a ciphertext.
pub open spec fn framed(header: Seq<u8>, ciphertext: Seq<u8>) -> Seq<u8>
    recommends
        header.len() <= u32::MAX,
{
    u32_le_bytes(header.len() as u32) + header + ciphertext
}

/// Why a header and a ciphertext of these lengths have no wire form, if they
/// have none.
pub open spec fn frame_fault(header_len: nat, ciphertext_len: nat) -> Option<FramingError> {
    if header_len > u32::MAX {
        Some(FramingError::HeaderTooLong { actual: header_len as usize })
    } else if 4 + header_len + ciphertext_len > MAX_WIRE_LEN {
        Some(FramingError::MessageTooLong)
    } else {
        None
    }
}

/// The header length that wire bytes announce.
pub open spec fn announced_header_len(wire: Seq<u8>) -> int
    recommends
        wire.len() >= 4,
{
    le_u32(wire.subrange(0, 4))
}

/// Why wire bytes cannot be taken apart, if they cannot: they end before the
/// length prefix does, or before the header that it announces.
pub open spec fn wire_fault(wire: Seq<u8>) -> Option<FramingError> {
    if wire.len() < 4 {
        Some(FramingError::TooShort { actual: wire.len() as usize })
    } else if wire.len() < 4 + announced_header_len(wire) {
        Some(
            FramingError::Truncated {
                needed: (4 + announced_header_len(wire)) as u64,
                actual: wire.len() as usize,
            },
        )
    } else {
        None
    }
}

/// The ratchet header in wire bytes.
pub open spec fn wire_header(wire: Seq<u8>) -> Seq<u8>
    recommends
        wire_fault(wire) is None,
{
    wire.subrange(4, 4 + announced_header_len(wire))
}

/// The ciphertext in wire bytes: all that follows the header.
pub open spec fn wire_ciphertext(wire: Seq<u8>) -> Seq<u8>
    recommends
        wire_fault(wire) is None,
{
    wire.subrange(4 + announced_header_len(wire), wire.len() as int)
}

/// Wire bytes are never shorter than their length prefix, and hold header and
/// ciphertext in full.
pub proof fn lemma_framed_len(header: Seq<u8>, ciphertext: Seq<u8>)
    ensures
        framed(header, ciphertext).len() == 4 + header.len() + ciphertext.len(),
        framed(header, ciphertext).len() >= 4,
{
}

/// Taking apart what was put together gives back the header and the
/// ciphertext, byte for byte.
pub proof fn lemma_parse_framed(header: Seq<u8>, ciphertext: Seq<u8>)
    requires
        header.len() <= u32::MAX,
    ensures
        wire_fault(framed(header, ciphertext)) is None,
        announced_header_len(framed(header, ciphertext)) == header.len(),
        wire_header(framed(header, ciphertext)) == header,
        wire_ciphertext(framed(header, ciphertext)) == ciphertext,
{
    let wire = framed(header, ciphertext);
    lemma_le_u32_of_bytes(header.len() as u32);
    assert(wire.subrange(0, 4) =~= u32_le_bytes(header.len() as u32));
    assert(wire_header(wire) =~= header);
    assert(wire_ciphertext(wire) =~= ciphertext);
}

/// Wire bytes that can be taken apart are the wire form of their parts: the
/// format says of itself where the header ends.
pub proof fn lemma_frame_parsed(wire: Seq<u8>)
    requires
        wire_fault(wire) is None,
    ensures
        wire_header(wire).len() <= u32::MAX,
        framed(wire_header(wire), wire_ciphertext(wire)) == wire,
{
    lemma_bytes_of_le_u32(wire.subrange(0, 4));
    assert(framed(wire_header(wire), wire_ciphertext(wire)) =~= wire);
}

/// A change anywhere in wire bytes changes the header or the ciphertext that
/// is read from them: no two messages are taken apart into the same parts.
pub proof fn lemma_parts_tell_wires_apart(first: Seq<u8>, second: Seq<u8>)
    requires
        wire_fault(first) is None,
        wire_fault(second) is None,
        first != second,
    ensures
        wire_header(first) != wire_header(second) || wire_ciphertext(first) != wire_ciphertext(
            second,
        ),
{
    lemma_frame_parsed(first);
    lemma_frame_parsed(second);
}

/// Puts a ratchet header and a ciphertext into the wire format.
pub fn frame_message(header: &[u8], ciphertext: &[u8]) -> (r: Result<Vec<u8>, FramingError>)
    ensures
        match r {
            Ok(wire) => frame_fault(header@.len(), ciphertext@.len()) is None && wire@ == framed(
                header@,
                ciphertext@,
            ),
            Err(e) => frame_fault(header@.len(), ciphertext@.len()) == Some(e),
        },
{
    if header.len() > u32::MAX as usize {
        return Err(FramingError::HeaderTooLong { actual: header.len() });
    }
    let total: u128 = 4 + header.len() as u128 + ciphertext.len() as u128;
    if total > MAX_WIRE_LEN as u128 {
        return Err(FramingError::MessageTooLong);
    }
    let prefix: [u8; 4] = write_le_u32(header.len() as u32);
    let mut wire: Vec<u8> = Vec::new();
    append_bytes(&mut wire, prefix.as_slice());
    append_bytes(&mut wire, header);
    append_bytes(&mut wire, ciphertext);
    Ok(wire)
}

/// Takes wire bytes apart into the ratchet header and the ciphertext.
pub fn parse_wire(wire: &[u8]) -> (r: Result<(&[u8], &[u8]), FramingError>)
    ensures
        match r {
            Ok(parts) => {
                &&& wire_fault(wire@) is None
                &&& parts.0@ == wire_header(wire@)
                &&& parts.1@ == wire_ciphertext(wire@)
            },
            Err(e) => wire_fault(wire@) == Some(e),
        },
{
    if wire.len() < HEADER_LEN_BYTES {
        return Err(FramingError::TooShort { actual: wire.len() });
    }
    let header_len: u32 = read_le_u32(wire);
    let needed: u64 = 4 + header_len as u64;
    if (wire.len() as u64) < needed {
        return Err(FramingError::Truncated { needed, actual: wire.len() });
    }
    let header_end: usize = needed as usize;
    let header: &[u8] = slice_subrange(wire, HEADER_LEN_BYTES, header_end);
    let ciphertext: &[u8] = slice_subrange(wire, header_end, wire.len());
    Ok((header, ciphertext))
}

} // verus!
