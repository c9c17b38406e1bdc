//! How public keys are written down: a type tag and a curve point.

use crate::bytes::{append_bytes, to_array, try_array_32, try_array_33, try_array_96};
use crate::error::{wrong_length, CryptoError, KeyField};
use crate::primitives::{
    derive_public_key, entropy_code, is_on_curve, montgomery_u_on_curve, random_bytes,
    x25519_public_key,
};
use vstd::prelude::*;

verus! {

/// The type tag that stands in front of a Curve25519 public key.
pub const KEY_TYPE_TAG: u8 = 0x05;

/// The length of a private key.
pub const PRIVATE_KEY_LEN: usize = 32;

/// The length of an encoded public key: the type tag and the curve point.
pub const PUBLIC_KEY_LEN: usize = 33;

/// The length of a signature over a signed pre-key.
pub const SIGNATURE_LEN: usize = 96;

/// An encoded public key: the type tag, then 32 bytes of curve point.
pub open spec fn is_encoded_public_key(key: Seq<u8>) -> bool {
    key.len() == 33 && key[0] == KEY_TYPE_TAG
}

/// The encoding of the 32 bytes of a curve point.
pub open spec fn encoded_public_key(point: Seq<u8>) -> Seq<u8> {
    seq![KEY_TYPE_TAG] + point
}

/// The 32 bytes of curve point in an encoded public key.
pub open spec fn public_key_point(key: Seq<u8>) -> Seq<u8>
    recommends
        key.len() == 33,
{
    key.subrange(1, 33)
}

/// A private key and the encoded public key that belongs to it.
pub open spec fn is_key_pair(private: Seq<u8>, public: Seq<u8>) -> bool {
    &&& private.len() == 32
    &&& is_encoded_public_key(public)
    &&& public_key_point(public) == x25519_public_key(private)
}

/// A u-coordinate without its top bit, which key agreement ignores.
pub open spec fn masked_u(point: Seq<u8>) -> Seq<u8>
    recommends
        point.len() == 32,
{
    point.update(31, point[31] & 0x7f)
}

/// A public key that a key agreement can be run on: it carries the type tag
/// and its u-coordinate lies on the curve, not on the twist.
pub open spec fn is_usable_public_key(key: Seq<u8>) -> bool {
    is_encoded_public_key(key) && montgomery_u_on_curve(masked_u(public_key_point(key)))
}

/// Takes the bytes of `field` for a private key: 32 bytes, or an error that
/// names the field and both lengths.
pub fn private_key_from(bytes: &[u8], field: KeyField) -> (r: Result<[u8; 32], CryptoError>)
    ensures
        match r {
            Ok(key) => bytes@.len() == 32 && key@ == bytes@,
            Err(e) => bytes@.len() != 32 && e == wrong_length(field, 32, bytes@.len()),
        },
{
    match try_array_32(bytes) {
        Ok(key) => Ok(key),
        Err(e) => Err(
            CryptoError::Validation { field, expected: e.expected, actual: e.actual },
        ),
    }
}

/// Takes the bytes of `field` for an encoded public key: 33 bytes, or an
/// error that names the field and both lengths.
pub fn public_key_from(bytes: &[u8], field: KeyField) -> (r: Result<[u8; 33], CryptoError>)
    ensures
        match r {
            Ok(key) => bytes@.len() == 33 && key@ == bytes@,
            Err(e) => bytes@.len() != 33 && e == wrong_length(field, 33, bytes@.len()),
        },
{
    match try_array_33(bytes) {
        Ok(key) => Ok(key),
        Err(_) => Err(
            CryptoError::Validation { field, expected: PUBLIC_KEY_LEN, actual: bytes.len() },
        ),
    }
}

/// Takes the bytes of `field` for a signature: 96 bytes, or an error that
/// names the field and both lengths.
pub fn signature_from(bytes: &[u8], field: KeyField) -> (r: Result<[u8; 96], CryptoError>)
    ensures
        match r {
            Ok(signature) => bytes@.len() == 96 && signature@ == bytes@,
            Err(e) => bytes@.len() != 96 && e == wrong_length(field, 96, bytes@.len()),
        },
{
    match try_array_96(bytes) {
        Ok(signature) => Ok(signature),
        Err(_) => Err(
            CryptoError::Validation { field, expected: SIGNATURE_LEN, actual: bytes.len() },
        ),
    }
}

/// Puts the type tag in front of a curve point.
pub fn encode_public_key(point: &[u8; 32]) -> (key: Vec<u8>)
    ensures
        key@ == encoded_public_key(point@),
        is_encoded_public_key(key@),
        public_key_point(key@) == point@,
{
    let mut key: Vec<u8> = Vec::new();
    key.push(KEY_TYPE_TAG);
    append_bytes(&mut key, point.as_slice());
    assert(key@ =~= encoded_public_key(point@));
    assert(public_key_point(key@) =~= point@);
    key
}

/// Takes the curve point out of an encoded public key. A key that does not
/// begin with the type tag is refused.
pub fn decode_public_key(key: &[u8; 33]) -> (r: Option<[u8; 32]>)
    ensures
        match r {
            Some(point) => is_encoded_public_key(key@) && point@ == public_key_point(key@),
            None => !is_encoded_public_key(key@),
        },
{
    if key[0] != KEY_TYPE_TAG {
        return None;
    }
    let mut point: [u8; 32] = [0u8; 32];
    let mut i: usize = 0;
    while i < 32
        invariant
            i <= 32,
            forall|j: int| 0 <= j < i ==> point@[j] == key@[j + 1],
        decreases 32 - i,
    {
        point[i] = key[i + 1];
        i += 1;
    }
    assert(point@ =~= public_key_point(key@));
    Some(point)
}

/// Draws `N` bytes from the system's random source. It fails only where the
/// source does, with the code that the source reported.
pub fn fresh_bytes<const N: usize>() -> (r: Result<[u8; N], CryptoError>)
    ensures
        r matches Err(e) ==> e is Entropy,
{
    match random_bytes(N) {
        Ok(bytes) => match to_array::<N>(bytes.as_slice()) {
            Ok(array) => Ok(array),
            Err(_) => vstd::pervasive::unreached(),
        },
        Err(e) => Err(CryptoError::Entropy { code: entropy_code(&e) }),
    }
}

/// The encoded public key that belongs to a private key.
pub fn public_key_of(private_key: &[u8; 32]) -> (public: Vec<u8>)
    ensures
        public@ == encoded_public_key(x25519_public_key(private_key@)),
        is_key_pair(private_key@, public@),
{
    let point: [u8; 32] = derive_public_key(private_key);
    encode_public_key(&point)
}

/// Generates a key pair: 32 fresh random bytes as the private key, and the
/// encoded public key that belongs to them. It fails only where the random
/// source does.
pub fn generate_key_pair() -> (r: Result<([u8; 32], Vec<u8>), CryptoError>)
    ensures
        match r {
            Ok(pair) => is_key_pair(pair.0@, pair.1@),
            Err(e) => e is Entropy,
        },
{
    let private_key: [u8; 32] = fresh_bytes::<32>()?;
    let public_key: Vec<u8> = public_key_of(&private_key);
    Ok((private_key, public_key))
}

/// Tells whether a key agreement can be run on an encoded public key.
pub fn check_public_key(key: &[u8; 33]) -> (usable: bool)
    ensures
        usable == is_usable_public_key(key@),
{
    if key[0] != KEY_TYPE_TAG {
        return false;
    }
    let mut u: [u8; 32] = [0u8; 32];
    let mut i: usize = 0;
    while i < 32
        invariant
            i <= 32,
            forall|j: int| 0 <= j < i ==> u@[j] == key@[j + 1],
        decreases 32 - i,
    {
        u[i] = key[i + 1];
        i += 1;
    }
    u[31] = key[32] & 0x7f;
    assert(u@ =~= masked_u(public_key_point(key@)));
    is_on_curve(&u)
}

} // verus!
