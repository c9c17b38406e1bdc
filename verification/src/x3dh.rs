//! X3DH key agreement in both roles: the initiator, who works from a fetched
//! bundle, and the responder, who works from the initiator's first message.

use crate::bundle::{
    bundle_fault, check_bundle_keys, parse_bundle, BundleKeys, RemoteBundle, ServerBundle,
};
use crate::error::{wrong_length, AgreementFailure, CryptoError, KeyField, StateFailure};
use crate::keys::{
    check_public_key, decode_public_key, is_encoded_public_key, is_key_pair,
    is_usable_public_key, private_key_from, public_key_from, public_key_point, KEY_TYPE_TAG,
};
use crate::prekey::SIGNED_PRE_KEY_ID;
use crate::primitives::{
    init_sender_state, ratchet_failure, receiver_state, receiver_state_bytes, store_state,
    x3dh_failure, x3dh_initiator, x3dh_responder, x3dh_responder_secret,
};
use crate::session::SessionState;
use vstd::prelude::*;
use vstd::slice::slice_to_vec;

verus! {

/// What the initiator has after the key agreement: the session, and what the
/// first message has to carry to the responder.
#[derive(Clone, Debug)]
pub struct X3DHInitiatorResult {
    /// The session, ready to encrypt.
    pub state: SessionState,
    /// The ephemeral public key, for the responder to finish the agreement.
    pub ephemeral_public: Vec<u8>,
    /// The id of the one-time pre-key that was used up, if one was.
    pub used_opk_id: Option<u32>,
}

/// Why the initiator refuses its inputs before any key agreement, if it
/// does: the identity private key or a field of the bundle has the wrong
/// length, or a public key of the bundle is no usable curve point.
pub open spec fn initiator_fault(bundle: BundleKeys, identity_private: Seq<u8>) -> Option<
    CryptoError,
> {
    if identity_private.len() != 32 {
        Some(wrong_length(KeyField::IdentityPrivate, 32, identity_private.len()))
    } else if bundle_fault(bundle) is Some {
        bundle_fault(bundle)
    } else if !bundle.usable() {
        Some(CryptoError::KeyAgreement(AgreementFailure::InvalidKey))
    } else {
        None
    }
}

/// The public key that the initiator's ratchet is started against: the
/// curve point of the responder's signed pre-key. The ephemeral key is used
/// once in the agreement and plays no part here.
pub fn receiver_ratchet_key(bundle: &RemoteBundle) -> (point: [u8; 32])
    requires
        is_encoded_public_key(bundle.signed_pre_key@),
    ensures
        point@ == public_key_point(bundle@.signed_pre_key),
{
    match decode_public_key(&bundle.signed_pre_key) {
        Some(point) => point,
        None => vstd::pervasive::unreached(),
    }
}

/// Puts together what the initiator returns.
pub fn initiator_result(
    state_bytes: Vec<u8>,
    ephemeral_public: &[u8; 33],
    bundle: &RemoteBundle,
) -> (res: X3DHInitiatorResult)
    ensures
        res.state@ == state_bytes@,
        res.ephemeral_public@ == ephemeral_public@,
        res.used_opk_id == bundle@.one_time_pre_key_id(),
{
    let used_opk_id: Option<u32> = match &bundle.one_time_pre_key {
        Some(key) => Some(key.id),
        None => None,
    };
    X3DHInitiatorResult {
        state: SessionState { state_bytes },
        ephemeral_public: slice_to_vec(ephemeral_public.as_slice()),
        used_opk_id,
    }
}

/// Runs the key agreement as initiator against a fetched bundle, with the
/// initiator's own identity private key.
///
/// Inputs of the wrong length and public keys that are no usable curve
/// points are refused, each with its own error. Past that, the agreement
/// decides: it checks the signature over the signed pre-key and draws a
/// fresh ephemeral key. Where it succeeds, the result carries a session that
/// is not empty, the ephemeral public key, which is the encoded public key
/// of the secret drawn, and the id of the one-time pre-key that the bundle
/// offered.
pub fn perform_x3dh(server: &ServerBundle, identity_private: &[u8]) -> (r: Result<
    X3DHInitiatorResult,
    CryptoError,
>)
    ensures
        initiator_fault(server@, identity_private@) matches Some(fault) ==> (r matches Err(e)
            && e == fault),
        initiator_fault(server@, identity_private@) is None ==> match r {
            Ok(res) => {
                &&& res.state@.len() > 0
                &&& exists|secret: Seq<u8>| is_key_pair(secret, res.ephemeral_public@)
                &&& res.used_opk_id == server@.one_time_pre_key_id()
            },
            Err(e) => e is KeyAgreement || e is State,
        },
{
    let identity: [u8; 32] = private_key_from(identity_private, KeyField::IdentityPrivate)?;
    let bundle: RemoteBundle = parse_bundle(server)?;
    if !check_bundle_keys(&bundle) {
        return Err(CryptoError::KeyAgreement(AgreementFailure::InvalidKey));
    }
    let (shared_secret, ephemeral_public) = match x3dh_initiator(
        &identity,
        SIGNED_PRE_KEY_ID,
        &bundle,
    ) {
        Ok(agreed) => agreed,
        Err(e) => {
            return Err(CryptoError::KeyAgreement(x3dh_failure(e)));
        },
    };
    let receiver_key: [u8; 32] = receiver_ratchet_key(&bundle);
    let state = match init_sender_state(shared_secret, receiver_key) {
        Ok(state) => state,
        Err(e) => {
            return Err(
                CryptoError::KeyAgreement(AgreementFailure::RatchetInit(ratchet_failure(e))),
            );
        },
    };
    match store_state(&state) {
        Ok(state_bytes) => Ok(initiator_result(state_bytes, &ephemeral_public, &bundle)),
        Err(_) => Err(CryptoError::State(StateFailure::Unwritable)),
    }
}

/// The one-time pre-key private half that a responder was given, if any.
pub open spec fn given_key(key: Option<&[u8]>) -> Option<Seq<u8>> {
    match key {
        Some(bytes) => Some(bytes@),
        None => None,
    }
}

/// Why the responder refuses its inputs before any key agreement, if it
/// does. A key of the wrong length comes first, in the order identity
/// private key, signed pre-key private half, initiator's identity key,
/// initiator's ephemeral key, one-time pre-key private half, signed pre-key
/// public half. Then a signed pre-key public half without the type tag, then
/// a key of the initiator that is no usable curve point.
pub open spec fn responder_fault(
    identity_private: Seq<u8>,
    spk_private: Seq<u8>,
    spk_public: Seq<u8>,
    opk_private: Option<Seq<u8>>,
    remote_identity_public: Seq<u8>,
    remote_ephemeral_public: Seq<u8>,
) -> Option<CryptoError> {
    if identity_private.len() != 32 {
        Some(wrong_length(KeyField::IdentityPrivate, 32, identity_private.len()))
    } else if spk_private.len() != 32 {
        Some(wrong_length(KeyField::SignedPreKeyPrivate, 32, spk_private.len()))
    } else if remote_identity_public.len() != 33 {
        Some(wrong_length(KeyField::RemoteIdentityPublic, 33, remote_identity_public.len()))
    } else if remote_ephemeral_public.len() != 33 {
        Some(wrong_length(KeyField::RemoteEphemeralPublic, 33, remote_ephemeral_public.len()))
    } else if opk_private is Some && opk_private->0.len() != 32 {
        Some(wrong_length(KeyField::OneTimePreKeyPrivate, 32, opk_private->0.len()))
    } else if spk_public.len() != 33 {
        Some(wrong_length(KeyField::SignedPreKeyPublic, 33, spk_public.len()))
    } else if spk_public[0] != KEY_TYPE_TAG {
        Some(CryptoError::KeyAgreement(AgreementFailure::DecodeFailed))
    } else if !is_usable_public_key(remote_identity_public) || !is_usable_public_key(
        remote_ephemeral_public,
    ) {
        Some(CryptoError::KeyAgreement(AgreementFailure::InvalidKey))
    } else {
        None
    }
}

/// Runs the key agreement as responder: with the responder's own identity
/// private key, its signed pre-key pair and, where the initiator used one up,
/// the private half of that one-time pre-key, against the identity and
/// ephemeral public keys that the initiator's first message carried.
///
/// Inputs of the wrong length, a signed pre-key without the type tag and
/// keys of the initiator that are no usable curve points are refused, each
/// with its own error. Past that, the responder draws nothing, so the keys
/// decide: where the agreement refuses them, the error is a key-agreement
/// error; where it derives a secret, the session that comes back is the one
/// that this secret and the responder's signed pre-key pair make, written
/// out as bytes.
pub fn perform_x3dh_responder(
    identity_private: &[u8],
    spk_private: &[u8],
    spk_public: &[u8],
    opk_private: Option<&[u8]>,
    alice_identity_public: &[u8],
    alice_ephemeral_public: &[u8],
) -> (r: Result<SessionState, CryptoError>)
    ensures
        responder_fault(
            identity_private@,
            spk_private@,
            spk_public@,
            given_key(opk_private),
            alice_identity_public@,
            alice_ephemeral_public@,
        ) matches Some(fault) ==> (r matches Err(e) && e == fault),
        responder_fault(
            identity_private@,
            spk_private@,
            spk_public@,
            given_key(opk_private),
            alice_identity_public@,
            alice_ephemeral_public@,
        ) is None ==> match x3dh_responder_secret(
            identity_private@,
            spk_private@,
            given_key(opk_private),
            alice_identity_public@,
            alice_ephemeral_public@,
        ) {
            None => r matches Err(e) && e is KeyAgreement,
            Some(secret) => match receiver_state_bytes(
                secret,
                spk_private@,
                public_key_point(spk_public@),
            ) {
                Some(bytes) => r matches Ok(session) && session@ == bytes,
                None => r matches Err(e) && e == CryptoError::State(StateFailure::Unwritable),
            },
        },
{
    let identity: [u8; 32] = private_key_from(identity_private, KeyField::IdentityPrivate)?;
    let own_private: [u8; 32] = private_key_from(spk_private, KeyField::SignedPreKeyPrivate)?;
    let remote_identity: [u8; 33] = public_key_from(
        alice_identity_public,
        KeyField::RemoteIdentityPublic,
    )?;
    let remote_ephemeral: [u8; 33] = public_key_from(
        alice_ephemeral_public,
        KeyField::RemoteEphemeralPublic,
    )?;
    let one_time: Option<[u8; 32]> = match opk_private {
        Some(bytes) => Some(private_key_from(bytes, KeyField::OneTimePreKeyPrivate)?),
        None => None,
    };
    let own_public: [u8; 33] = public_key_from(spk_public, KeyField::SignedPreKeyPublic)?;
    let own_point: [u8; 32] = match decode_public_key(&own_public) {
        Some(point) => point,
        None => {
            return Err(CryptoError::KeyAgreement(AgreementFailure::DecodeFailed));
        },
    };
    if !check_public_key(&remote_identity) || !check_public_key(&remote_ephemeral) {
        return Err(CryptoError::KeyAgreement(AgreementFailure::InvalidKey));
    }
    let shared_secret: [u8; 32] = match x3dh_responder(
        &identity,
        &own_private,
        one_time.as_ref(),
        &remote_identity,
        &remote_ephemeral,
    ) {
        Ok(secret) => secret,
        Err(e) => {
            return Err(CryptoError::KeyAgreement(x3dh_failure(e)));
        },
    };
    match receiver_state(shared_secret, own_private, own_point) {
        Ok(state_bytes) => Ok(SessionState { state_bytes }),
        Err(_) => Err(CryptoError::State(StateFailure::Unwritable)),
    }
}

} // verus!
