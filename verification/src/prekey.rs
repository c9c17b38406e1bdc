//! Pre-keys for upload: the signed pre-key and batches of one-time pre-keys.

use crate::error::{wrong_length, CryptoError, KeyField};
use crate::keys::{generate_key_pair, is_encoded_public_key, is_key_pair, private_key_from};
use crate::primitives::sign_message;
use vstd::arithmetic::div_mod::{
    lemma_fundamental_div_mod, lemma_fundamental_div_mod_converse, lemma_mod_bound,
};
use vstd::prelude::*;
use vstd::slice::slice_to_vec;

verus! {

/// A one-time pre-key: the public half is for upload, the private half stays
/// on the device until a responder handshake has used it up.
#[derive(Clone, Debug)]
pub struct OneTimePreKeyEntry {
    pub key_id: u32,
    pub public_key: Vec<u8>,
    pub private_key: Vec<u8>,
}

impl OneTimePreKeyEntry {
    /// The public key is the encoded X25519 public key of the private key.
    pub open spec fn wf(&self) -> bool {
        is_key_pair(self.private_key@, self.public_key@)
    }
}

/// What a device publishes for others to start sessions with it. The
/// one-time pre-keys still hold their private halves: those stay on the
/// device.
#[derive(Clone, Debug)]
pub struct PreKeyBundleForUpload {
    pub identity_key: Vec<u8>,
    pub signed_pre_key: Vec<u8>,
    pub signed_pre_key_signature: Vec<u8>,
    pub registration_id: u32,
    pub one_time_pre_keys: Vec<OneTimePreKeyEntry>,
}

impl PreKeyBundleForUpload {
    /// The signed pre-key is an encoded public key with a signature of 96
    /// bytes, and every one-time pre-key is a key pair.
    pub open spec fn wf(&self) -> bool {
        &&& is_encoded_public_key(self.signed_pre_key@)
        &&& self.signed_pre_key_signature@.len() == 96
        &&& forall|i: int|
            0 <= i < self.one_time_pre_keys@.len() ==> (#[trigger] self.one_time_pre_keys@[i]).wf()
    }
}

/// The id that a freshly generated signed pre-key goes by.
pub const SIGNED_PRE_KEY_ID: u32 = 1;

/// The id of the first one-time pre-key of a fresh bundle.
pub const FIRST_ONE_TIME_PRE_KEY_ID: u32 = 0;

/// The id of the `i`-th key of a batch that starts at `start_id`: ids count
/// up and wrap round at the end of `u32`.
pub open spec fn one_time_key_id(start_id: u32, i: int) -> u32 {
    ((start_id + i) % 0x1_0000_0000) as u32
}

/// The first id of a batch is its start id, and from key to key the id goes
/// up by one, wrapping round at the end of `u32`.
pub proof fn lemma_one_time_key_ids_count_up(start_id: u32, i: int)
    requires
        0 <= i,
    ensures
        one_time_key_id(start_id, 0) == start_id,
        one_time_key_id(start_id, i + 1) == one_time_key_id(start_id, i).wrapping_add(1),
{
    lemma_fundamental_div_mod_converse(start_id as int, 0x1_0000_0000, 0, start_id as int);
    let here: int = start_id + i;
    lemma_fundamental_div_mod(here, 0x1_0000_0000);
    lemma_mod_bound(here, 0x1_0000_0000);
    if here % 0x1_0000_0000 + 1 < 0x1_0000_0000 {
        lemma_fundamental_div_mod_converse(
            here + 1,
            0x1_0000_0000,
            here / 0x1_0000_0000,
            here % 0x1_0000_0000 + 1,
        );
    } else {
        lemma_fundamental_div_mod_converse(here + 1, 0x1_0000_0000, here / 0x1_0000_0000 + 1, 0);
    }
}

/// Two keys of a batch that are less than 2^32 places apart have different
/// ids: within a batch of no more than 2^32 keys no id is given twice.
pub proof fn lemma_one_time_key_ids_differ(start_id: u32, i: int, j: int)
    requires
        0 <= i < j < i + 0x1_0000_0000,
    ensures
        one_time_key_id(start_id, i) != one_time_key_id(start_id, j),
{
    lemma_fundamental_div_mod(start_id + i, 0x1_0000_0000);
    lemma_fundamental_div_mod(start_id + j, 0x1_0000_0000);
    lemma_mod_bound(start_id + i, 0x1_0000_0000);
    lemma_mod_bound(start_id + j, 0x1_0000_0000);
}

/// Generates a signed pre-key: a fresh key pair, and the signature of the
/// identity private key over the encoded public half. Returns the public
/// key, the signature and the private key, in this order.
///
/// An identity private key that is not 32 bytes long is refused. Past that,
/// only the random source and the signing can fail.
pub fn generate_signed_pre_key(identity_private: &[u8], _signed_pre_key_id: u32) -> (r: Result<
    (Vec<u8>, Vec<u8>, Vec<u8>),
    CryptoError,
>)
    ensures
        identity_private@.len() != 32 ==> (r matches Err(e) && e == wrong_length(
            KeyField::IdentityPrivate,
            32,
            identity_private@.len(),
        )),
        identity_private@.len() == 32 ==> match r {
            Ok(record) => is_key_pair(record.2@, record.0@) && record.1@.len() == 96,
            Err(e) => e is Entropy || e is Signing,
        },
{
    let identity: [u8; 32] = private_key_from(identity_private, KeyField::IdentityPrivate)?;
    let (private_key, public_key) = generate_key_pair()?;
    match sign_message(&identity, public_key.as_slice()) {
        Ok(signature) => Ok(
            (public_key, slice_to_vec(signature.as_slice()), slice_to_vec(private_key.as_slice())),
        ),
        Err(_) => Err(CryptoError::Signing),
    }
}

/// Generates `n` one-time pre-keys with the ids `start_id`, `start_id + 1`
/// and so on, wrapping round at the end of `u32`. It fails only where the
/// random source does.
pub fn generate_one_time_pre_keys(n: usize, start_id: u32) -> (r: Result<
    Vec<OneTimePreKeyEntry>,
    CryptoError,
>)
    ensures
        match r {
            Ok(keys) => {
                &&& keys@.len() == n
                &&& forall|i: int|
                    0 <= i < n ==> (#[trigger] keys@[i]).key_id == one_time_key_id(start_id, i)
                        && keys@[i].wf()
            },
            Err(e) => e is Entropy,
        },
{
    let mut keys: Vec<OneTimePreKeyEntry> = Vec::new();
    let mut next_id: u32 = start_id;
    proof {
        lemma_one_time_key_ids_count_up(start_id, 0);
    }
    let mut i: usize = 0;
    while i < n
        invariant
            i <= n,
            keys@.len() == i,
            next_id == one_time_key_id(start_id, i as int),
            forall|j: int|
                0 <= j < i ==> (#[trigger] keys@[j]).key_id == one_time_key_id(start_id, j)
                    && keys@[j].wf(),
        decreases n - i,
    {
        let (private_key, public_key) = generate_key_pair()?;
        keys.push(
            OneTimePreKeyEntry {
                key_id: next_id,
                public_key,
                private_key: slice_to_vec(private_key.as_slice()),
            },
        );
        proof {
            lemma_one_time_key_ids_count_up(start_id, i as int);
        }
        next_id = next_id.wrapping_add(1);
        i += 1;
    }
    Ok(keys)
}

/// Generates what a device publishes: a signed pre-key under the identity
/// given, and `num_one_time` one-time pre-keys with ids from 0. Returns the
/// bundle and the private half of the signed pre-key, which is not part of
/// it.
///
/// An identity private key that is not 32 bytes long is refused. Past that,
/// only the random source and the signing can fail.
pub fn generate_pre_key_bundle(
    identity_public: &[u8],
    identity_private: &[u8],
    registration_id: u32,
    num_one_time: usize,
) -> (r: Result<(PreKeyBundleForUpload, Vec<u8>), CryptoError>)
    ensures
        identity_private@.len() != 32 ==> (r matches Err(e) && e == wrong_length(
            KeyField::IdentityPrivate,
            32,
            identity_private@.len(),
        )),
        identity_private@.len() == 32 ==> match r {
            Ok(generated) => {
                &&& generated.0.wf()
                &&& generated.0.identity_key@ == identity_public@
                &&& generated.0.registration_id == registration_id
                &&& is_key_pair(generated.1@, generated.0.signed_pre_key@)
                &&& generated.0.one_time_pre_keys@.len() == num_one_time
                &&& forall|i: int|
                    0 <= i < num_one_time ==> (#[trigger] generated.0.one_time_pre_keys@[i]).key_id
                        == one_time_key_id(FIRST_ONE_TIME_PRE_KEY_ID, i)
            },
            Err(e) => e is Entropy || e is Signing,
        },
{
    let (signed_pre_key, signed_pre_key_signature, signed_pre_key_private) =
        generate_signed_pre_key(identity_private, SIGNED_PRE_KEY_ID)?;
    let one_time_pre_keys: Vec<OneTimePreKeyEntry> = generate_one_time_pre_keys(
        num_one_time,
        FIRST_ONE_TIME_PRE_KEY_ID,
    )?;
    let bundle = PreKeyBundleForUpload {
        identity_key: slice_to_vec(identity_public),
        signed_pre_key,
        signed_pre_key_signature,
        registration_id,
        one_time_pre_keys,
    };
    Ok((bundle, signed_pre_key_private))
}

} // verus!
