//! A remote key bundle, as it is fetched and as the key agreement takes it.

use crate::error::{wrong_length, CryptoError, KeyField};
use crate::keys::{check_public_key, is_usable_public_key, public_key_from, signature_from};
use vstd::prelude::*;

verus! {

/// A key bundle as the directory service hands it out: byte strings of any
/// length, and a one-time pre-key that may be there or not.
#[derive(Clone, Debug)]
pub struct ServerBundle {
    pub identity_key: Vec<u8>,
    pub signed_pre_key: Vec<u8>,
    pub signed_pre_key_signature: Vec<u8>,
    pub registration_id: u32,
    pub one_time_pre_key_id: Option<u32>,
    pub one_time_pre_key: Option<Vec<u8>>,
}

/// A one-time pre-key of a remote party.
#[derive(Clone, Copy, Debug)]
pub struct OneTimeKey {
    pub id: u32,
    pub public_key: [u8; 33],
}

/// A key bundle whose keys and signature have the length of their kind.
#[derive(Clone, Copy, Debug)]
pub struct RemoteBundle {
    pub identity_key: [u8; 33],
    pub signed_pre_key: [u8; 33],
    pub signed_pre_key_signature: [u8; 96],
    pub one_time_pre_key: Option<OneTimeKey>,
}

/// A one-time pre-key on offer.
pub struct OfferedKey {
    pub id: u32,
    pub public_key: Seq<u8>,
}

/// The key material of a bundle.
pub struct BundleKeys {
    pub identity_key: Seq<u8>,
    pub signed_pre_key: Seq<u8>,
    pub signed_pre_key_signature: Seq<u8>,
    pub one_time_pre_key: Option<OfferedKey>,
}

impl BundleKeys {
    /// The id of the one-time pre-key that an initiator uses up, if any.
    pub open spec fn one_time_pre_key_id(self) -> Option<u32> {
        match self.one_time_pre_key {
            Some(key) => Some(key.id),
            None => None,
        }
    }

    /// Every public key of the bundle can take part in a key agreement.
    pub open spec fn usable(self) -> bool {
        &&& is_usable_public_key(self.identity_key)
        &&& is_usable_public_key(self.signed_pre_key)
        &&& self.one_time_pre_key matches Some(key) ==> is_usable_public_key(key.public_key)
    }
}

impl View for ServerBundle {
    type V = BundleKeys;

    /// A one-time pre-key is on offer only where both its id and its key are
    /// there: one without the other counts as none.
    open spec fn view(&self) -> BundleKeys {
        BundleKeys {
            identity_key: self.identity_key@,
            signed_pre_key: self.signed_pre_key@,
            signed_pre_key_signature: self.signed_pre_key_signature@,
            one_time_pre_key: match (self.one_time_pre_key_id, self.one_time_pre_key) {
                (Some(id), Some(key)) => Some(OfferedKey { id, public_key: key@ }),
                _ => None,
            },
        }
    }
}

impl View for RemoteBundle {
    type V = BundleKeys;

    open spec fn view(&self) -> BundleKeys {
        BundleKeys {
            identity_key: self.identity_key@,
            signed_pre_key: self.signed_pre_key@,
            signed_pre_key_signature: self.signed_pre_key_signature@,
            one_time_pre_key: match self.one_time_pre_key {
                Some(key) => Some(OfferedKey { id: key.id, public_key: key.public_key@ }),
                None => None,
            },
        }
    }
}

/// The first field of a bundle that does not have the length of its kind:
/// the signed pre-key, its signature, the one-time pre-key on offer, the
/// identity key, in this order.
pub open spec fn bundle_fault(keys: BundleKeys) -> Option<CryptoError> {
    if keys.signed_pre_key.len() != 33 {
        Some(wrong_length(KeyField::SignedPreKey, 33, keys.signed_pre_key.len()))
    } else if keys.signed_pre_key_signature.len() != 96 {
        Some(wrong_length(KeyField::SignedPreKeySignature, 96, keys.signed_pre_key_signature.len()))
    } else if keys.one_time_pre_key is Some && keys.one_time_pre_key->0.public_key.len() != 33 {
        Some(wrong_length(KeyField::OneTimePreKey, 33, keys.one_time_pre_key->0.public_key.len()))
    } else if keys.identity_key.len() != 33 {
        Some(wrong_length(KeyField::IdentityKey, 33, keys.identity_key.len()))
    } else {
        None
    }
}

/// Takes a fetched bundle apart into keys of fixed length. A field of the
/// wrong length is rejected; an id without a key, or a key without an id, is
/// no one-time pre-key and no error.
pub fn parse_bundle(server: &ServerBundle) -> (r: Result<RemoteBundle, CryptoError>)
    ensures
        match r {
            Ok(bundle) => bundle_fault(server@) is None && bundle@ == server@,
            Err(e) => bundle_fault(server@) == Some(e),
        },
{
    let signed_pre_key: [u8; 33] = public_key_from(
        server.signed_pre_key.as_slice(),
        KeyField::SignedPreKey,
    )?;
    let signed_pre_key_signature: [u8; 96] = signature_from(
        server.signed_pre_key_signature.as_slice(),
        KeyField::SignedPreKeySignature,
    )?;
    let one_time_pre_key: Option<OneTimeKey> = match (
        server.one_time_pre_key_id,
        &server.one_time_pre_key,
    ) {
        (Some(id), Some(key)) => {
            let public_key: [u8; 33] = public_key_from(key.as_slice(), KeyField::OneTimePreKey)?;
            Some(OneTimeKey { id, public_key })
        },
        _ => None,
    };
    let identity_key: [u8; 33] = public_key_from(
        server.identity_key.as_slice(),
        KeyField::IdentityKey,
    )?;
    Ok(RemoteBundle { identity_key, signed_pre_key, signed_pre_key_signature, one_time_pre_key })
}

/// Tells whether every public key of a bundle can take part in a key
/// agreement.
pub fn check_bundle_keys(bundle: &RemoteBundle) -> (usable: bool)
    ensures
        usable == bundle@.usable(),
{
    if !check_public_key(&bundle.identity_key) {
        return false;
    }
    if !check_public_key(&bundle.signed_pre_key) {
        return false;
    }
    match &bundle.one_time_pre_key {
        Some(key) => check_public_key(&key.public_key),
        None => true,
    }
}

} // verus!
