//! Byte strings: arrays of fixed length, appending, and little-endian
//! length fields.

use crate::error::LengthError;
use vstd::arithmetic::div_mod::{
    lemma_div_denominator, lemma_fundamental_div_mod, lemma_fundamental_div_mod_converse,
};
use vstd::prelude::*;

verus! {

/// Copies a slice of exactly `N` bytes into an array. A slice of any other
/// length is refused, with the length asked for and the length found.
pub fn to_array<const N: usize>(v: &[u8]) -> (r: Result<[u8; N], LengthError>)
    ensures
        match r {
            Ok(a) => v@.len() == N && a@ == v@,
            Err(e) => v@.len() != N && e == (LengthError {
                expected: N,
                actual: v@.len() as usize,
            }),
        },
{
    if v.len() != N {
        return Err(LengthError { expected: N, actual: v.len() });
    }
    let mut a: [u8; N] = [0u8; N];
    let mut i: usize = 0;
    while i < N
        invariant
            i <= N,
            v@.len() == N,
            forall|j: int| 0 <= j < i ==> a@[j] == v@[j],
        decreases N - i,
    {
        a[i] = v[i];
        i += 1;
    }
    assert(a@ =~= v@);
    Ok(a)
}

/// Copies a slice of exactly 32 bytes, the length of a private key, into an
/// array. The error says that 32 bytes were expected, and how many came.
pub fn try_array_32(v: &[u8]) -> (r: Result<[u8; 32], LengthError>)
    ensures
        match r {
            Ok(a) => v@.len() == 32 && a@ == v@,
            Err(e) => v@.len() != 32 && e == (LengthError {
                expected: 32,
                actual: v@.len() as usize,
            }),
        },
{
    to_array::<32>(v)
}

/// Copies a slice of exactly 33 bytes, the length of an encoded public key,
/// into an array.
pub fn try_array_33(v: &[u8]) -> (r: Result<[u8; 33], ()>)
    ensures
        r is Ok <==> v@.len() == 33,
        r matches Ok(a) ==> a@ == v@,
{
    match to_array::<33>(v) {
        Ok(a) => Ok(a),
        Err(_) => Err(()),
    }
}

/// Copies a slice of exactly 96 bytes, the length of a signature, into an
/// array.
pub fn try_array_96(v: &[u8]) -> (r: Result<[u8; 96], ()>)
    ensures
        r is Ok <==> v@.len() == 96,
        r matches Ok(a) ==> a@ == v@,
{
    match to_array::<96>(v) {
        Ok(a) => Ok(a),
        Err(_) => Err(()),
    }
}

/// Appends the bytes of `tail` to `buf`.
pub fn append_bytes(buf: &mut Vec<u8>, tail: &[u8])
    ensures
        final(buf)@ == old(buf)@ + tail@,
{
    let mut i: usize = 0;
    while i < tail.len()
        invariant
            i <= tail@.len(),
            buf@ == old(buf)@ + tail@.subrange(0, i as int),
        decreases tail@.len() - i,
    {
        buf.push(tail[i]);
        i += 1;
        assert(buf@ =~= old(buf)@ + tail@.subrange(0, i as int));
    }
    assert(tail@.subrange(0, tail@.len() as int) =~= tail@);
}

/// The value that four bytes hold as a little-endian unsigned integer.
pub open spec fn le_u32(b: Seq<u8>) -> int
    recommends
        b.len() == 4,
{
    b[0] as int + 256 * (b[1] as int) + 65536 * (b[2] as int) + 16777216 * (b[3] as int)
}

/// The four bytes that hold `x` as a little-endian unsigned integer.
pub open spec fn u32_le_bytes(x: u32) -> Seq<u8> {
    seq![
        (x as int % 256) as u8,
        (x as int / 256 % 256) as u8,
        (x as int / 65536 % 256) as u8,
        (x as int / 16777216) as u8,
    ]
}

/// Reading back the bytes of a little-endian `u32` gives the integer.
pub proof fn lemma_le_u32_of_bytes(x: u32)
    ensures
        u32_le_bytes(x).len() == 4,
        le_u32(u32_le_bytes(x)) == x,
{
    let v: int = x as int;
    lemma_fundamental_div_mod(v, 256);
    lemma_fundamental_div_mod(v / 256, 256);
    lemma_fundamental_div_mod(v / 65536, 256);
    lemma_div_denominator(v, 256, 256);
    lemma_div_denominator(v, 65536, 256);
}

/// Writing out the integer that four bytes hold gives the four bytes.
pub proof fn lemma_bytes_of_le_u32(b: Seq<u8>)
    requires
        b.len() == 4,
    ensures
        0 <= le_u32(b) <= u32::MAX,
        u32_le_bytes(le_u32(b) as u32) == b,
{
    let b0: int = b[0] as int;
    let b1: int = b[1] as int;
    let b2: int = b[2] as int;
    let b3: int = b[3] as int;
    let x: int = le_u32(b);
    lemma_fundamental_div_mod_converse(x, 256, b1 + 256 * b2 + 65536 * b3, b0);
    lemma_fundamental_div_mod_converse(x, 65536, b2 + 256 * b3, b0 + 256 * b1);
    lemma_fundamental_div_mod_converse(x, 16777216, b3, b0 + 256 * b1 + 65536 * b2);
    lemma_fundamental_div_mod_converse(x / 256, 256, b2 + 256 * b3, b1);
    lemma_fundamental_div_mod_converse(x / 65536, 256, b3, b2);
    assert(u32_le_bytes(x as u32) =~= b);
}

/// Decodes a little-endian `u32` from the first four bytes of `b`.
pub fn read_le_u32(b: &[u8]) -> (x: u32)
    requires
        b@.len() >= 4,
    ensures
        x == le_u32(b@.subrange(0, 4)),
{
    let b0: u32 = b[0] as u32;
    let b1: u32 = b[1] as u32;
    let b2: u32 = b[2] as u32;
    let b3: u32 = b[3] as u32;
    b0 + 256 * b1 + 65536 * b2 + 16777216 * b3
}

/// Encodes `x` as four little-endian bytes.
pub fn write_le_u32(x: u32) -> (b: [u8; 4])
    ensures
        b@ == u32_le_bytes(x),
{
    let b: [u8; 4] = [
        (x % 256) as u8,
        (x / 256 % 256) as u8,
        (x / 65536 % 256) as u8,
        (x / 16777216) as u8,
    ];
    assert(b@ =~= u32_le_bytes(x));
    b
}

} // verus!
