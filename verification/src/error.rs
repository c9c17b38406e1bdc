//! The failures that the library reports.

use vstd::prelude::*;

verus! {

/// A key or signature that is handed to the library as bytes.
#[derive(Clone, Copy, Debug, PartialEq, Eq, Structural)]
pub enum KeyField {
    /// The caller's own identity private key.
    IdentityPrivate,
    /// The remote identity public key of a bundle.
    IdentityKey,
    /// The signed pre-key of a bundle.
    SignedPreKey,
    /// The signature over the signed pre-key of a bundle.
    SignedPreKeySignature,
    /// The one-time pre-key of a bundle.
    OneTimePreKey,
    /// The responder's signed pre-key, private half.
    SignedPreKeyPrivate,
    /// The responder's signed pre-key, public half.
    SignedPreKeyPublic,
    /// The responder's one-time pre-key, private half.
    OneTimePreKeyPrivate,
    /// The initiator's identity public key, as the responder received it.
    RemoteIdentityPublic,
    /// The initiator's ephemeral public key, as the responder received it.
    RemoteEphemeralPublic,
}

/// A byte string that does not have the length asked of it.
#[derive(Clone, Copy, Debug, PartialEq, Eq, Structural)]
pub struct LengthError {
    /// The length that was asked for.
    pub expected: usize,
    /// The length that was found.
    pub actual: usize,
}

/// What the ratchet reports when it refuses a message or a state.
#[derive(Clone, Copy, Debug, PartialEq, Eq, Structural)]
pub enum RatchetFailure {
    /// A key that the operation needs is missing or invalid.
    InvalidKey,
    /// The message did not authenticate.
    DecryptionFailed,
    /// The message is further ahead than the ratchet will skip.
    OldMessageKeysLimitReached,
    /// The message was received before.
    DuplicateMessage,
    /// The header is malformed.
    InvalidHeader,
    /// The header did not authenticate.
    HeaderDecryptionFailed,
    /// A message counter is at its limit.
    CounterOverflow,
    /// The associated data is longer than the ratchet takes.
    AdTooLarge,
    /// The state lacks what the operation needs.
    InvalidState,
    /// The session has received more messages than it keeps track of.
    TooManyMessages,
}

/// Why a key agreement was aborted.
#[derive(Clone, Copy, Debug, PartialEq, Eq, Structural)]
pub enum AgreementFailure {
    /// The signature over the signed pre-key does not verify.
    InvalidSignature,
    /// A public key is not a usable curve point.
    InvalidKey,
    /// A one-time pre-key was expected and is missing.
    MissingOneTimeKey,
    /// A public key does not carry the key-type tag.
    DecodeFailed,
    /// The ratchet could not be started from the shared secret.
    RatchetInit(RatchetFailure),
}

/// Why a session state could not be used.
#[derive(Clone, Copy, Debug, PartialEq, Eq, Structural)]
pub enum StateFailure {
    /// The stored bytes do not hold a session state.
    Unreadable,
    /// The updated state could not be turned into bytes.
    Unwritable,
    /// The ratchet refused the operation in this state.
    Ratchet(RatchetFailure),
}

/// Why wire bytes could not be taken apart or put together.
#[derive(Clone, Copy, Debug, PartialEq, Eq, Structural)]
pub enum FramingError {
    /// The bytes end before the length prefix does.
    TooShort { actual: usize },
    /// The bytes end before the header that the prefix announces.
    Truncated { needed: u64, actual: usize },
    /// The header is longer than the length prefix can say.
    HeaderTooLong { actual: usize },
    /// Header and ciphertext together are longer than a buffer can be.
    MessageTooLong,
}

/// The failures of the library's operations.
#[derive(Clone, Copy, Debug, PartialEq, Eq, Structural)]
pub enum CryptoError {
    /// The random source is not available. The code is the one that the
    /// source reported, never zero.
    Entropy { code: u32 },
    /// A key or signature does not have the length of its kind.
    Validation { field: KeyField, expected: usize, actual: usize },
    /// A signature could not be made.
    Signing,
    /// The key agreement failed.
    KeyAgreement(AgreementFailure),
    /// A message did not authenticate. No detail is given on purpose.
    Authentication,
    /// Wire bytes are truncated or too long.
    Framing(FramingError),
    /// The session state cannot be used.
    State(StateFailure),
}

/// The error for a field that does not have the length of its kind.
pub open spec fn wrong_length(field: KeyField, expected: usize, actual: nat) -> CryptoError {
    CryptoError::Validation { field, expected, actual: actual as usize }
}

/// Whether a refusal by the ratchet means that a message did not authenticate.
pub open spec fn is_authentication_failure(f: RatchetFailure) -> bool {
    f is DecryptionFailed || f is HeaderDecryptionFailed || f is DuplicateMessage
        || f is OldMessageKeysLimitReached || f is InvalidHeader
}

/// The error that a refusal by the ratchet is reported as.
pub open spec fn ratchet_error(f: RatchetFailure) -> CryptoError {
    if is_authentication_failure(f) {
        CryptoError::Authentication
    } else {
        CryptoError::State(StateFailure::Ratchet(f))
    }
}

/// Reports a refusal by the ratchet: a message that did not authenticate
/// loses every detail, anything else keeps its cause.
pub fn classify_ratchet_failure(f: RatchetFailure) -> (e: CryptoError)
    ensures
        e == ratchet_error(f),
{
    match f {
        RatchetFailure::DecryptionFailed
        | RatchetFailure::HeaderDecryptionFailed
        | RatchetFailure::DuplicateMessage
        | RatchetFailure::OldMessageKeysLimitReached
        | RatchetFailure::InvalidHeader => CryptoError::Authentication,
        _ => CryptoError::State(StateFailure::Ratchet(f)),
    }
}

} // verus!
