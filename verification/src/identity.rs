//! Long-term identity keys and registration ids.

use crate::bytes::{le_u32, read_le_u32};
use crate::error::CryptoError;
use crate::keys::{encoded_public_key, fresh_bytes, is_key_pair, public_key_of};
use crate::primitives::x25519_public_key;
use vstd::prelude::*;
use vstd::slice::slice_to_vec;

verus! {

/// The bits of a registration id: fourteen.
pub const REGISTRATION_ID_MASK: u32 = 0x3FFF;

/// An identity: the encoded public key, the private key and the registration
/// id of a device.
#[derive(Clone, Debug)]
pub struct IdentityKeyPair {
    pub public_key: Vec<u8>,
    pub private_key: Vec<u8>,
    pub registration_id: u32,
}

impl IdentityKeyPair {
    /// The public key is the encoded X25519 public key of the private key,
    /// and the registration id fits in fourteen bits.
    pub open spec fn wf(&self) -> bool {
        &&& is_key_pair(self.private_key@, self.public_key@)
        &&& self.registration_id <= REGISTRATION_ID_MASK
    }
}

/// The registration id that four random bytes stand for: their value as a
/// little-endian integer, cut down to its low fourteen bits.
pub open spec fn registration_id_of(bytes: Seq<u8>) -> int
    recommends
        bytes.len() == 4,
{
    le_u32(bytes) % 16384
}

/// Makes a registration id of four random bytes.
pub fn registration_id_from(bytes: &[u8; 4]) -> (id: u32)
    ensures
        id == registration_id_of(bytes@),
        id <= REGISTRATION_ID_MASK,
{
    let raw: u32 = read_le_u32(bytes.as_slice());
    assert(bytes@.subrange(0, 4) =~= bytes@);
    assert(raw & 0x3FFF == raw % 16384) by (bit_vector);
    raw & REGISTRATION_ID_MASK
}

/// Makes the identity that belongs to a private key and to the four bytes
/// that its registration id is drawn from.
pub fn identity_from_entropy(private_key: &[u8; 32], id_bytes: &[u8; 4]) -> (pair: IdentityKeyPair)
    ensures
        pair.wf(),
        pair.private_key@ == private_key@,
        pair.public_key@ == encoded_public_key(x25519_public_key(private_key@)),
        pair.registration_id == registration_id_of(id_bytes@),
{
    IdentityKeyPair {
        public_key: public_key_of(private_key),
        private_key: slice_to_vec(private_key.as_slice()),
        registration_id: registration_id_from(id_bytes),
    }
}

/// Generates a new identity: 32 random bytes as the private key, and four
/// more for the registration id. It fails only where the random source does.
pub fn generate_identity() -> (r: Result<IdentityKeyPair, CryptoError>)
    ensures
        match r {
            Ok(pair) => pair.wf(),
            Err(e) => e is Entropy,
        },
{
    let private_key: [u8; 32] = fresh_bytes::<32>()?;
    let id_bytes: [u8; 4] = fresh_bytes::<4>()?;
    Ok(identity_from_entropy(&private_key, &id_bytes))
}

} // verus!
