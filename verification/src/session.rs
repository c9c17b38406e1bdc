//! Double Ratchet encryption and decryption of single messages. A session
//! lives between calls as opaque bytes: each call reads the state, moves the
//! ratchet on and hands the new state back.

use crate::error::{
    classify_ratchet_failure, CryptoError, FramingError, RatchetFailure, StateFailure,
};
use crate::primitives::{
    ciphertext_len, load_state, ratchet_decrypt, ratchet_encrypt, ratchet_failure, store_state,
    stored_receive_counter, ENCRYPTED_HEADER_LEN, MAX_ASSOCIATED_DATA, MAX_RECEIVE_COUNTER,
};
use crate::wire::{
    announced_header_len, frame_fault, frame_message, framed, lemma_framed_len,
    lemma_parse_framed, parse_wire, wire_ciphertext, wire_fault, wire_header,
};
use vstd::prelude::*;

verus! {

/// The state of a session, for the application to keep between calls.
#[derive(Clone, Debug)]
pub struct SessionState {
    pub state_bytes: Vec<u8>,
}

impl View for SessionState {
    type V = Seq<u8>;

    open spec fn view(&self) -> Seq<u8> {
        self.state_bytes@
    }
}

/// What `encrypt` returns for a header and a ciphertext that the ratchet has
/// produced, and the state that it has moved on to.
pub open spec fn sealed_message(
    header: Seq<u8>,
    ciphertext: Seq<u8>,
    new_state: Seq<u8>,
) -> Result<(Seq<u8>, Seq<u8>), CryptoError> {
    match frame_fault(header.len(), ciphertext.len()) {
        Some(fault) => Err(CryptoError::Framing(fault)),
        None => Ok((framed(header, ciphertext), new_state)),
    }
}

/// Puts what the ratchet has produced into the wire format and pairs it with
/// the new state.
pub fn seal_message(header: &[u8], ciphertext: &[u8], new_state: Vec<u8>) -> (r: Result<
    (Vec<u8>, Vec<u8>),
    CryptoError,
>)
    ensures
        match (r, sealed_message(header@, ciphertext@, new_state@)) {
            (Ok(sealed), Ok(expected)) => sealed.0@ == expected.0 && sealed.1@ == expected.1,
            (Err(e), Err(expected)) => e == expected,
            _ => false,
        },
{
    match frame_message(header, ciphertext) {
        Ok(wire) => Ok((wire, new_state)),
        Err(fault) => Err(CryptoError::Framing(fault)),
    }
}

/// Encrypts `plaintext` in the session that `state_bytes` holds, binding
/// `associated_data` into the message. Returns the wire bytes and the state
/// to keep in place of the old one.
///
/// Bytes that hold no session, and no others, are refused as unreadable.
/// What the ratchet produces is for the ratchet to say. What is certain of
/// wire bytes that come back: they announce a header of 68 bytes, and hold
/// it and a ciphertext that is the plaintext padded to full blocks of 16
/// bytes and a tag of 32. The state that comes back is not empty. A failure
/// is a failure of the state, or of the framing where the message is longer
/// than a buffer can be.
pub fn encrypt(state_bytes: &[u8], plaintext: &[u8], associated_data: &[u8]) -> (r: Result<
    (Vec<u8>, Vec<u8>),
    CryptoError,
>)
    ensures
        match r {
            Ok(sealed) => {
                &&& wire_fault(sealed.0@) is None
                &&& announced_header_len(sealed.0@) == ENCRYPTED_HEADER_LEN
                &&& sealed.0@.len() == 4 + ENCRYPTED_HEADER_LEN + ciphertext_len(plaintext@.len())
                &&& sealed.1@.len() > 0
                &&& associated_data@.len() <= MAX_ASSOCIATED_DATA
            },
            Err(e) => e is State || e == CryptoError::Framing(FramingError::MessageTooLong),
        },
        stored_receive_counter(state_bytes@) is None <==> (r matches Err(e) && e
            == CryptoError::State(StateFailure::Unreadable)),
{
    let mut session = match load_state(state_bytes) {
        Ok(session) => session,
        Err(_) => {
            return Err(CryptoError::State(StateFailure::Unreadable));
        },
    };
    let (header, ciphertext) = match ratchet_encrypt(&mut session, plaintext, associated_data) {
        Ok(produced) => produced,
        Err(e) => {
            return Err(CryptoError::State(StateFailure::Ratchet(ratchet_failure(e))));
        },
    };
    let new_state: Vec<u8> = match store_state(session.state()) {
        Ok(bytes) => bytes,
        Err(_) => {
            return Err(CryptoError::State(StateFailure::Unwritable));
        },
    };
    proof {
        lemma_parse_framed(header@, ciphertext@);
        lemma_framed_len(header@, ciphertext@);
    }
    seal_message(header.as_slice(), ciphertext.as_slice(), new_state)
}

/// Decrypts wire bytes in the session that `state_bytes` holds. Returns the
/// plaintext and the state to keep in place of the old one.
///
/// Wire bytes that are truncated are refused before the state is touched. A
/// state that has counted more received messages than the ratchet can add
/// its skip limit to is refused as a state whose counter is at its limit.
/// Whether a message authenticates is for the ratchet to say: where it does
/// not, the error is `Authentication` and tells nothing more. What is
/// certain of a message that is opened: its header had 68 bytes, its
/// ciphertext was longer than the plaintext by a tag of 32 bytes and a
/// padding of 1 to 16, and the state that comes back is not empty.
pub fn decrypt(state_bytes: &[u8], wire_bytes: &[u8], associated_data: &[u8]) -> (r: Result<
    (Vec<u8>, Vec<u8>),
    CryptoError,
>)
    ensures
        wire_fault(wire_bytes@) matches Some(fault) ==> r == Err::<(Vec<u8>, Vec<u8>), CryptoError>(
            CryptoError::Framing(fault),
        ),
        wire_fault(wire_bytes@) is None ==> match stored_receive_counter(state_bytes@) {
            None => r matches Err(e) && e == CryptoError::State(StateFailure::Unreadable),
            Some(received) => if received > MAX_RECEIVE_COUNTER {
                r matches Err(e) && e == CryptoError::State(
                    StateFailure::Ratchet(RatchetFailure::CounterOverflow),
                )
            } else {
                match r {
                    Ok(opened) => {
                        &&& wire_header(wire_bytes@).len() == ENCRYPTED_HEADER_LEN
                        &&& opened.0@.len() + 32 < wire_ciphertext(wire_bytes@).len()
                            <= opened.0@.len() + 48
                        &&& opened.1@.len() > 0
                        &&& associated_data@.len() <= MAX_ASSOCIATED_DATA
                    },
                    Err(e) => (e is State || e is Authentication) && e != CryptoError::State(
                        StateFailure::Unreadable,
                    ),
                }
            },
        },
{
    let (header, ciphertext) = match parse_wire(wire_bytes) {
        Ok(parts) => parts,
        Err(fault) => {
            return Err(CryptoError::Framing(fault));
        },
    };
    let mut session = match load_state(state_bytes) {
        Ok(session) => session,
        Err(_) => {
            return Err(CryptoError::State(StateFailure::Unreadable));
        },
    };
    if session.receive_counter() > MAX_RECEIVE_COUNTER {
        return Err(CryptoError::State(StateFailure::Ratchet(RatchetFailure::CounterOverflow)));
    }
    let plaintext: Vec<u8> = match ratchet_decrypt(
        &mut session,
        header,
        ciphertext,
        associated_data,
    ) {
        Ok(plaintext) => plaintext,
        Err(e) => {
            return Err(classify_ratchet_failure(ratchet_failure(e)));
        },
    };
    match store_state(session.state()) {
        Ok(new_state) => Ok((plaintext, new_state)),
        Err(_) => Err(CryptoError::State(StateFailure::Unwritable)),
    }
}

} // verus!
