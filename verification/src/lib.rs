//! End-to-end encrypted sessions between two parties: identity and pre-key
//! generation, X3DH key agreement in both roles, Double Ratchet encryption of
//! single messages, and the wire format that binds a ratchet header to its
//! ciphertext.
//!
//! The cryptography itself is that of `libsignal-dezire`, `x25519-dalek` and
//! `curve25519-dalek`; what this library takes for granted about them stands
//! in the module `primitives`. Everything else is proved: which inputs are
//! refused and with which error, how keys and ids are laid out, and that wire
//! bytes are put together and taken apart without loss.

pub mod bundle;
pub mod bytes;
pub mod error;
pub mod identity;
pub mod keys;
pub mod prekey;
pub mod primitives;
pub mod session;
pub mod wire;
pub mod x3dh;

pub use bundle::{parse_bundle, OneTimeKey, RemoteBundle, ServerBundle};
pub use bytes::{try_array_32, try_array_33, try_array_96};
pub use error::{
    AgreementFailure, CryptoError, FramingError, KeyField, LengthError, RatchetFailure,
    StateFailure,
};
pub use identity::{generate_identity, IdentityKeyPair};
pub use prekey::{
    generate_one_time_pre_keys, generate_pre_key_bundle, generate_signed_pre_key,
    OneTimePreKeyEntry, PreKeyBundleForUpload,
};
pub use session::{decrypt, encrypt, SessionState};
pub use wire::{frame_message, parse_wire};
pub use x3dh::{perform_x3dh, perform_x3dh_responder, X3DHInitiatorResult};
