//! The outside cryptography that the library is built on, with what the
//! library takes for granted about it. The contracts of the functions marked
//! `external_body` are claims about code of other crates: none of them is
//! proved.

use crate::bundle::RemoteBundle;
use crate::error::{AgreementFailure, RatchetFailure};
use crate::keys::{is_key_pair, is_usable_public_key};
use libsignal_dezire::ratchet::RatchetError;
use libsignal_dezire::x3dh::X3DHError;
use vstd::prelude::*;

verus! {

/// `libsignal_dezire::ratchet::RatchetState`: a Double Ratchet session. The
/// library carries it through and never looks inside.
#[verifier::external_type_specification]
#[verifier::external_body]
pub struct ExRatchetState(libsignal_dezire::ratchet::RatchetState);

/// `libsignal_dezire::ratchet::RatchetError`, as the ratchet returns it.
#[verifier::external_type_specification]
#[verifier::external_body]
pub struct ExRatchetError(libsignal_dezire::ratchet::RatchetError);

/// `libsignal_dezire::x3dh::X3DHError`, as the key agreement returns it.
#[verifier::external_type_specification]
#[verifier::external_body]
pub struct ExX3DHError(libsignal_dezire::x3dh::X3DHError);

/// `libsignal_dezire::vxeddsa::VXEdDSAError`, as signing returns it.
#[verifier::external_type_specification]
#[verifier::external_body]
pub struct ExVXEdDSAError(libsignal_dezire::vxeddsa::VXEdDSAError);

/// `serde_json::Error`, as reading and writing a session state returns it.
#[verifier::external_type_specification]
#[verifier::external_body]
pub struct ExJsonError(serde_json::Error);

/// `getrandom::Error`, as the random source returns it.
#[verifier::external_type_specification]
#[verifier::external_body]
pub struct ExEntropyError(getrandom::Error);

/// The X25519 public key of a private key: what
/// `x25519_dalek::PublicKey::from(&StaticSecret)` computes from the 32 bytes
/// of the secret, as 32 bytes.
pub uninterp spec fn x25519_public_key(secret: Seq<u8>) -> Seq<u8>;

/// Whether 32 bytes are the u-coordinate of a point of Curve25519 rather than
/// of its twist: whether `MontgomeryPoint::to_edwards` of `curve25519_dalek`,
/// asked for the positive sign, returns a point for them.
pub uninterp spec fn montgomery_u_on_curve(u: Seq<u8>) -> bool;

/// The shared secret that `libsignal_dezire::x3dh::x3dh_responder` derives
/// from the responder's private keys and the initiator's public keys, or
/// nothing where it refuses them.
pub uninterp spec fn x3dh_responder_secret(
    identity_private: Seq<u8>,
    signed_pre_key_private: Seq<u8>,
    one_time_pre_key_private: Option<Seq<u8>>,
    remote_identity_public: Seq<u8>,
    remote_ephemeral_public: Seq<u8>,
) -> Option<Seq<u8>>;

/// The bytes of the session that `libsignal_dezire::ratchet::init_receiver_state`
/// makes of a shared secret and the receiver's own ratchet key pair, or
/// nothing where the session cannot be written out.
pub uninterp spec fn receiver_state_bytes(
    shared_secret: Seq<u8>,
    own_private: Seq<u8>,
    own_public: Seq<u8>,
) -> Option<Seq<u8>>;

/// The count of received messages in the session that bytes hold, as
/// `serde_json::from_slice` reads it, or nothing where the bytes hold no
/// session.
pub uninterp spec fn stored_receive_counter(state_bytes: Seq<u8>) -> Option<u32>;

/// The length of the header that the ratchet puts in front of a message: a
/// nonce of 12 bytes, the 40 bytes of the header proper, and a tag of 16.
pub const ENCRYPTED_HEADER_LEN: usize = 68;

/// The most associated data, in bytes, that the ratchet takes.
pub const MAX_ASSOCIATED_DATA: usize = 65536;

/// The highest count of received messages at which the ratchet can still be
/// asked to decrypt: above it, the ratchet's own sum of the count and its
/// skip limit of 1000 no longer fits in `u32`.
pub const MAX_RECEIVE_COUNTER: u32 = 4294966295;

/// The length of the ciphertext that the ratchet makes of a plaintext: the
/// plaintext padded up to the next full block of 16 bytes, and a tag of 32.
pub open spec fn ciphertext_len(plaintext_len: nat) -> nat {
    16 * (plaintext_len / 16 + 1) + 32
}

/// A session as it was read from its bytes, together with its count of
/// messages received in the current chain, which the session itself keeps
/// out of sight. Only `load_state` makes one.
pub struct LoadedSession {
    state: libsignal_dezire::ratchet::RatchetState,
    receive_counter: u32,
}

impl LoadedSession {
    /// The count of messages received in the current chain.
    pub closed spec fn received(&self) -> u32 {
        self.receive_counter
    }

    /// The count of messages received in the current chain.
    pub(crate) fn receive_counter(&self) -> (n: u32)
        ensures
            n == self.received(),
    {
        self.receive_counter
    }

    /// The session itself.
    pub(crate) fn state(&self) -> &libsignal_dezire::ratchet::RatchetState {
        &self.state
    }
}

/// Calls `getrandom::getrandom` on a fresh buffer of `n` bytes. The claim: on
/// success the buffer still has its `n` bytes. Nothing is said of what they
/// are.
#[verifier::external_body]
pub(crate) fn random_bytes(n: usize) -> (r: Result<Vec<u8>, getrandom::Error>)
    ensures
        r matches Ok(v) ==> v@.len() == n,
{
    let mut buf = vec![0u8; n];
    getrandom::getrandom(&mut buf)?;
    Ok(buf)
}

/// Calls `getrandom::Error::code`. The claim: the code is not zero.
#[verifier::external_body]
pub(crate) fn entropy_code(e: &getrandom::Error) -> (code: u32)
    ensures
        code != 0,
{
    e.code().get()
}

/// Calls `x25519_dalek::PublicKey::from` on the `StaticSecret` made of
/// `secret`. The claim: the result is a function of the secret's bytes.
#[verifier::external_body]
pub(crate) fn derive_public_key(secret: &[u8; 32]) -> (public: [u8; 32])
    ensures
        public@ == x25519_public_key(secret@),
{
    x25519_dalek::PublicKey::from(&x25519_dalek::StaticSecret::from(*secret)).to_bytes()
}

/// Calls `curve25519_dalek::montgomery::MontgomeryPoint::to_edwards` with
/// sign 0 and says whether it returned a point.
#[verifier::external_body]
pub(crate) fn is_on_curve(u: &[u8; 32]) -> (r: bool)
    ensures
        r == montgomery_u_on_curve(u@),
{
    curve25519_dalek::montgomery::MontgomeryPoint(*u).to_edwards(0).is_some()
}

/// Calls `libsignal_dezire::vxeddsa::vxeddsa_sign` and keeps the signature.
/// The signature depends on a fresh random nonce, which the outside function
/// draws itself, aborting where the random source fails: nothing is claimed
/// of it.
#[verifier::external_body]
pub(crate) fn sign_message(private_key: &[u8; 32], message: &[u8]) -> (r: Result<
    [u8; 96],
    libsignal_dezire::vxeddsa::VXEdDSAError,
>) {
    libsignal_dezire::vxeddsa::vxeddsa_sign(private_key, message).map(|out| out.signature)
}

/// Calls `libsignal_dezire::x3dh::x3dh_initiator` on the bundle, and returns
/// the shared secret and the ephemeral public key. The outside function
/// aborts on a public key whose u-coordinate lies on the twist, so such
/// bundles are left out; it also aborts where the random source fails. The
/// claim: the ephemeral public key is the encoded public key of some secret,
/// the one that the outside function drew. The rest depends on that draw.
#[verifier::external_body]
pub(crate) fn x3dh_initiator(
    identity_private: &[u8; 32],
    signed_pre_key_id: u32,
    bundle: &RemoteBundle,
) -> (r: Result<([u8; 32], [u8; 33]), libsignal_dezire::x3dh::X3DHError>)
    requires
        bundle@.usable(),
    ensures
        r matches Ok(agreed) ==> exists|secret: Seq<u8>| is_key_pair(secret, agreed.1@),
{
    let remote = libsignal_dezire::x3dh::PreKeyBundle {
        identity_key: bundle.identity_key,
        signed_prekey: libsignal_dezire::x3dh::SignedPreKey {
            id: signed_pre_key_id,
            public_key: bundle.signed_pre_key,
            signature: bundle.signed_pre_key_signature,
        },
        one_time_prekey: bundle.one_time_pre_key.map(
            |key| libsignal_dezire::x3dh::OneTimePreKey { id: key.id, public_key: key.public_key },
        ),
    };
    libsignal_dezire::x3dh::x3dh_initiator(identity_private, &remote).map(
        |agreed| (agreed.shared_secret, agreed.ephemeral_public),
    )
}

/// The bytes of a one-time pre-key private half that may be there or not.
pub open spec fn key_bytes(key: Option<&[u8; 32]>) -> Option<Seq<u8>> {
    match key {
        Some(bytes) => Some(bytes@),
        None => None,
    }
}

/// Calls `libsignal_dezire::x3dh::x3dh_responder`. The outside function
/// aborts on a public key whose u-coordinate lies on the twist, so such keys
/// are left out. It draws nothing: the claim is that its result, the shared
/// secret or a refusal, is a function of the keys given.
#[verifier::external_body]
pub(crate) fn x3dh_responder(
    identity_private: &[u8; 32],
    signed_pre_key_private: &[u8; 32],
    one_time_pre_key_private: Option<&[u8; 32]>,
    remote_identity_public: &[u8; 33],
    remote_ephemeral_public: &[u8; 33],
) -> (r: Result<[u8; 32], libsignal_dezire::x3dh::X3DHError>)
    requires
        is_usable_public_key(remote_identity_public@),
        is_usable_public_key(remote_ephemeral_public@),
    ensures
        match r {
            Ok(secret) => x3dh_responder_secret(
                identity_private@,
                signed_pre_key_private@,
                key_bytes(one_time_pre_key_private),
                remote_identity_public@,
                remote_ephemeral_public@,
            ) == Some(secret@),
            Err(_) => x3dh_responder_secret(
                identity_private@,
                signed_pre_key_private@,
                key_bytes(one_time_pre_key_private),
                remote_identity_public@,
                remote_ephemeral_public@,
            ) is None,
        },
{
    libsignal_dezire::x3dh::x3dh_responder(
        identity_private,
        signed_pre_key_private,
        one_time_pre_key_private,
        remote_identity_public,
        remote_ephemeral_public,
    )
}

/// Tells the variants of `libsignal_dezire::x3dh::X3DHError` apart.
#[verifier::external_body]
pub(crate) fn x3dh_failure(e: libsignal_dezire::x3dh::X3DHError) -> (f: AgreementFailure) {
    match e {
        X3DHError::InvalidSignature => AgreementFailure::InvalidSignature,
        X3DHError::InvalidKey => AgreementFailure::InvalidKey,
        X3DHError::MissingOneTimeKey => AgreementFailure::MissingOneTimeKey,
        X3DHError::DecodeFailed => AgreementFailure::DecodeFailed,
    }
}

/// Calls `libsignal_dezire::ratchet::init_sender_state` with the receiver's
/// ratchet public key made of `receiver_public`. The state holds a fresh
/// random key, drawn by the outside function, which aborts where the random
/// source fails: nothing is claimed of it.
#[verifier::external_body]
pub(crate) fn init_sender_state(shared_secret: [u8; 32], receiver_public: [u8; 32]) -> (r: Result<
    libsignal_dezire::ratchet::RatchetState,
    libsignal_dezire::ratchet::RatchetError,
>) {
    libsignal_dezire::ratchet::init_sender_state(
        shared_secret,
        x25519_dalek::PublicKey::from(receiver_public),
    )
}

/// Calls `libsignal_dezire::ratchet::init_receiver_state` with the receiver's
/// own ratchet key pair made of the two halves given, and hands the session
/// out as the bytes that `serde_json::to_vec` writes of it: the session has
/// no other form that can be spoken of. The outside function draws nothing
/// and the fresh session holds no skipped keys, so the claim is that the
/// bytes, or the failure to write them, are a function of the three inputs.
#[verifier::external_body]
pub(crate) fn receiver_state(
    shared_secret: [u8; 32],
    own_private: [u8; 32],
    own_public: [u8; 32],
) -> (r: Result<Vec<u8>, serde_json::Error>)
    ensures
        match r {
            Ok(bytes) => receiver_state_bytes(shared_secret@, own_private@, own_public@) == Some(
                bytes@,
            ),
            Err(_) => receiver_state_bytes(shared_secret@, own_private@, own_public@) is None,
        },
{
    let own_pair =
        (x25519_dalek::StaticSecret::from(own_private), x25519_dalek::PublicKey::from(own_public));
    serde_json::to_vec(&libsignal_dezire::ratchet::init_receiver_state(shared_secret, own_pair))
}

/// Calls `libsignal_dezire::ratchet::encrypt`, which returns the encrypted
/// header and the ciphertext and moves the state on. The claims: associated
/// data above the ratchet's limit is refused; the header has 68 bytes; the
/// ciphertext is the plaintext padded to full blocks, and a tag.
#[verifier::external_body]
pub(crate) fn ratchet_encrypt(
    session: &mut LoadedSession,
    plaintext: &[u8],
    associated_data: &[u8],
) -> (r: Result<(Vec<u8>, Vec<u8>), libsignal_dezire::ratchet::RatchetError>)
    ensures
        associated_data@.len() > MAX_ASSOCIATED_DATA ==> r is Err,
        r matches Ok(produced) ==> produced.0@.len() == ENCRYPTED_HEADER_LEN
            && produced.1@.len() == ciphertext_len(plaintext@.len()),
{
    libsignal_dezire::ratchet::encrypt(&mut session.state, plaintext, associated_data)
}

/// Calls `libsignal_dezire::ratchet::decrypt`, which returns the plaintext
/// and moves the state on. The ratchet adds its skip limit of 1000 to the
/// count of received messages without a check, so sessions whose count is
/// too high for that are left out. The claims: associated data above the
/// ratchet's limit is refused; a message that is opened had a header of 68
/// bytes, and a ciphertext that is longer than the plaintext by a tag of 32
/// bytes and a padding of 1 to 16. Whether a message authenticates is the
/// ratchet's to say.
#[verifier::external_body]
pub(crate) fn ratchet_decrypt(
    session: &mut LoadedSession,
    header: &[u8],
    ciphertext: &[u8],
    associated_data: &[u8],
) -> (r: Result<Vec<u8>, libsignal_dezire::ratchet::RatchetError>)
    requires
        old(session).received() <= MAX_RECEIVE_COUNTER,
    ensures
        associated_data@.len() > MAX_ASSOCIATED_DATA ==> r is Err,
        r matches Ok(plaintext) ==> header@.len() == ENCRYPTED_HEADER_LEN && plaintext@.len() + 32
            < ciphertext@.len() <= plaintext@.len() + 48,
{
    libsignal_dezire::ratchet::decrypt(&mut session.state, header, ciphertext, associated_data)
}

/// Tells the variants of `libsignal_dezire::ratchet::RatchetError` apart.
#[verifier::external_body]
pub(crate) fn ratchet_failure(e: libsignal_dezire::ratchet::RatchetError) -> (f: RatchetFailure) {
    match e {
        RatchetError::InvalidKey => RatchetFailure::InvalidKey,
        RatchetError::DecryptionFailed => RatchetFailure::DecryptionFailed,
        RatchetError::OldMessageKeysLimitReached => RatchetFailure::OldMessageKeysLimitReached,
        RatchetError::DuplicateMessage => RatchetFailure::DuplicateMessage,
        RatchetError::InvalidHeader => RatchetFailure::InvalidHeader,
        RatchetError::HeaderDecryptionFailed => RatchetFailure::HeaderDecryptionFailed,
        RatchetError::CounterOverflow => RatchetFailure::CounterOverflow,
        RatchetError::ADTooLarge => RatchetFailure::AdTooLarge,
        RatchetError::InvalidState => RatchetFailure::InvalidState,
        RatchetError::TooManyMessages => RatchetFailure::TooManyMessages,
    }
}

/// Calls `serde_json::from_slice` to read a session from its bytes. The
/// session keeps its count of received messages out of sight, so the count
/// is read off the session's own JSON form, with `serde_json::to_value` and
/// `serde_json::from_value`, and handed out beside it. The claim: whether
/// the bytes can be read, and the count they hold, is a function of the
/// bytes.
#[verifier::external_body]
pub(crate) fn load_state(bytes: &[u8]) -> (r: Result<LoadedSession, serde_json::Error>)
    ensures
        match r {
            Ok(session) => stored_receive_counter(bytes@) == Some(session.received()),
            Err(_) => stored_receive_counter(bytes@) is None,
        },
{
    let state: libsignal_dezire::ratchet::RatchetState = serde_json::from_slice(bytes)?;
    let mut fields = serde_json::to_value(&state)?;
    let receive_counter: u32 = serde_json::from_value(fields["nr"].take())?;
    Ok(LoadedSession { state, receive_counter })
}

/// Calls `serde_json::to_vec` to write a session out as bytes. The claim:
/// what is written is not empty.
#[verifier::external_body]
pub(crate) fn store_state(state: &libsignal_dezire::ratchet::RatchetState) -> (r: Result<
    Vec<u8>,
    serde_json::Error,
>)
    ensures
        r matches Ok(bytes) ==> bytes@.len() > 0,
{
    serde_json::to_vec(state)
}

} // verus!
