//! Sessions: round trips in both directions, tampering, replay, messages out
//! of order and the limits of the ratchet.

use hush_crypto::{
    decrypt, encrypt, generate_identity, generate_signed_pre_key, parse_wire, perform_x3dh,
    perform_x3dh_responder, CryptoError, RatchetFailure, ServerBundle, StateFailure,
};

/// A pair of fresh sessions, Alice's and Bob's, and the associated data that
/// binds both identities.
fn fresh_sessions() -> (Vec<u8>, Vec<u8>, Vec<u8>) {
    let alice = generate_identity().expect("Alice identity");
    let bob = generate_identity().expect("Bob identity");
    let (spk_pub, spk_sig, spk_priv) = generate_signed_pre_key(&bob.private_key, 1).expect("SPK");
    let bundle = ServerBundle {
        identity_key: bob.public_key.clone(),
        signed_pre_key: spk_pub.clone(),
        signed_pre_key_signature: spk_sig,
        registration_id: bob.registration_id,
        one_time_pre_key_id: None,
        one_time_pre_key: None,
    };
    let initiated = perform_x3dh(&bundle, &alice.private_key).expect("X3DH");
    let responded = perform_x3dh_responder(
        &bob.private_key,
        &spk_priv,
        &spk_pub,
        None,
        &alice.public_key,
        &initiated.ephemeral_public,
    )
    .expect("responder");
    let mut ad = alice.public_key.clone();
    ad.extend_from_slice(&bob.public_key);
    (initiated.state.state_bytes, responded.state_bytes, ad)
}

#[test]
fn round_trip_recovers_every_plaintext() {
    let plaintexts: [&[u8]; 5] = [
        b"",
        b"x",
        b"sixteen bytes!!!",
        b"Hello Bob, this is Alice!",
        &[0u8; 1000],
    ];
    let ads: [&[u8]; 3] = [b"", b"ad", &[0xA5u8; 66]];
    for ad in ads {
        let (mut alice, mut bob, _) = fresh_sessions();
        for plaintext in plaintexts {
            let (wire, next_alice) = encrypt(&alice, plaintext, ad).expect("encrypt");
            assert!(wire.len() >= 4);
            let (got, next_bob) = decrypt(&bob, &wire, ad).expect("decrypt");
            assert_eq!(got, plaintext);
            alice = next_alice;
            bob = next_bob;
        }
    }
}

#[test]
fn round_trip_works_in_both_directions() {
    let (mut alice, mut bob, ad) = fresh_sessions();
    for round in 0..4u8 {
        let to_bob = vec![round; 10 + round as usize];
        let (wire, next) = encrypt(&alice, &to_bob, &ad).expect("Alice encrypt");
        alice = next;
        let (got, next) = decrypt(&bob, &wire, &ad).expect("Bob decrypt");
        bob = next;
        assert_eq!(got, to_bob);

        let to_alice = vec![0xF0 | round; 3];
        let (wire, next) = encrypt(&bob, &to_alice, &ad).expect("Bob encrypt");
        bob = next;
        let (got, next) = decrypt(&alice, &wire, &ad).expect("Alice decrypt");
        alice = next;
        assert_eq!(got, to_alice);
    }
}

#[test]
fn wire_bytes_of_a_message_can_be_taken_apart() {
    let (alice, _, ad) = fresh_sessions();
    let (wire, _) = encrypt(&alice, b"hello", &ad).expect("encrypt");
    let (header, ciphertext) = parse_wire(&wire).expect("parse");
    let announced = u32::from_le_bytes([wire[0], wire[1], wire[2], wire[3]]) as usize;
    assert_eq!(header.len(), announced);
    assert_eq!(wire.len(), 4 + header.len() + ciphertext.len());
    assert!(!ciphertext.is_empty());
}

#[test]
fn a_flipped_bit_in_the_ciphertext_fails_authentication() {
    let (alice, bob, ad) = fresh_sessions();
    let (wire, _) = encrypt(&alice, b"secret", &ad).expect("encrypt");
    let header_len = parse_wire(&wire).expect("parse").0.len();
    for position in [4 + header_len, wire.len() - 1] {
        for bit in [0x01u8, 0x80] {
            let mut tampered = wire.clone();
            tampered[position] ^= bit;
            assert_eq!(decrypt(&bob, &tampered, &ad).unwrap_err(), CryptoError::Authentication);
        }
    }
    // The untouched message still decrypts in the untouched state.
    assert_eq!(decrypt(&bob, &wire, &ad).expect("decrypt").0, b"secret");
}

#[test]
fn a_flipped_bit_in_the_header_fails_authentication() {
    let (alice, bob, ad) = fresh_sessions();
    let (wire, _) = encrypt(&alice, b"secret", &ad).expect("encrypt");
    let header_len = parse_wire(&wire).expect("parse").0.len();
    for position in [4, 4 + header_len / 2, 4 + header_len - 1] {
        let mut tampered = wire.clone();
        tampered[position] ^= 0x04;
        assert_eq!(decrypt(&bob, &tampered, &ad).unwrap_err(), CryptoError::Authentication);
    }
}

#[test]
fn a_flipped_bit_in_the_associated_data_fails_authentication() {
    let (alice, bob, ad) = fresh_sessions();
    let (wire, _) = encrypt(&alice, b"secret", &ad).expect("encrypt");
    for position in [0, 33, 65] {
        let mut tampered = ad.clone();
        tampered[position] ^= 0x10;
        assert_eq!(decrypt(&bob, &wire, &tampered).unwrap_err(), CryptoError::Authentication);
    }
    let mut longer = ad.clone();
    longer.push(0);
    assert_eq!(decrypt(&bob, &wire, &longer).unwrap_err(), CryptoError::Authentication);
}

#[test]
fn a_message_of_another_session_fails_authentication() {
    let (alice, _, ad) = fresh_sessions();
    let (_, other_bob, _) = fresh_sessions();
    let (wire, _) = encrypt(&alice, b"secret", &ad).expect("encrypt");
    assert_eq!(decrypt(&other_bob, &wire, &ad).unwrap_err(), CryptoError::Authentication);
}

#[test]
fn a_replayed_message_fails_authentication() {
    let (alice, bob, ad) = fresh_sessions();
    let (wire, _) = encrypt(&alice, b"once", &ad).expect("encrypt");
    let (got, bob) = decrypt(&bob, &wire, &ad).expect("decrypt");
    assert_eq!(got, b"once");
    assert_eq!(decrypt(&bob, &wire, &ad).unwrap_err(), CryptoError::Authentication);
}

#[test]
fn messages_out_of_order_are_decrypted() {
    let (alice, bob, ad) = fresh_sessions();
    let (first, alice) = encrypt(&alice, b"one", &ad).expect("encrypt");
    let (second, alice) = encrypt(&alice, b"two", &ad).expect("encrypt");
    let (third, _) = encrypt(&alice, b"three", &ad).expect("encrypt");
    let (got, bob) = decrypt(&bob, &third, &ad).expect("decrypt third");
    assert_eq!(got, b"three");
    let (got, bob) = decrypt(&bob, &first, &ad).expect("decrypt first");
    assert_eq!(got, b"one");
    let (got, _) = decrypt(&bob, &second, &ad).expect("decrypt second");
    assert_eq!(got, b"two");
}

#[test]
fn each_message_has_its_own_key() {
    let (alice, _, ad) = fresh_sessions();
    let (first, next) = encrypt(&alice, b"same", &ad).expect("encrypt");
    let (second, _) = encrypt(&next, b"same", &ad).expect("encrypt");
    assert_ne!(first, second);
    assert_ne!(alice, next);
}

#[test]
fn a_responder_cannot_send_before_it_has_received() {
    let (_, bob, ad) = fresh_sessions();
    assert_eq!(
        encrypt(&bob, b"too early", &ad).unwrap_err(),
        CryptoError::State(StateFailure::Ratchet(RatchetFailure::InvalidState))
    );
}

#[test]
fn associated_data_above_the_limit_is_refused() {
    let (alice, bob, ad) = fresh_sessions();
    let too_long = vec![0u8; 65537];
    assert_eq!(
        encrypt(&alice, b"hello", &too_long).unwrap_err(),
        CryptoError::State(StateFailure::Ratchet(RatchetFailure::AdTooLarge))
    );
    let (wire, _) = encrypt(&alice, b"hello", &ad).expect("encrypt");
    assert_eq!(
        decrypt(&bob, &wire, &too_long).unwrap_err(),
        CryptoError::State(StateFailure::Ratchet(RatchetFailure::AdTooLarge))
    );
    // At the limit the ratchet still works.
    let at_limit = vec![0u8; 65536];
    let (wire, _) = encrypt(&alice, b"hello", &at_limit).expect("encrypt at the limit");
    assert_eq!(decrypt(&bob, &wire, &at_limit).expect("decrypt at the limit").0, b"hello");
}

#[test]
fn a_state_that_is_cut_off_is_unreadable() {
    let (alice, _, ad) = fresh_sessions();
    let cut = &alice[..alice.len() / 2];
    assert_eq!(
        encrypt(cut, b"hello", &ad).unwrap_err(),
        CryptoError::State(StateFailure::Unreadable)
    );
    assert_eq!(
        decrypt(&[], &[0, 0, 0, 0], &ad).unwrap_err(),
        CryptoError::State(StateFailure::Unreadable)
    );
}

#[test]
fn a_message_too_short_to_hold_a_tag_fails_authentication() {
    let (_, bob, ad) = fresh_sessions();
    // A well-framed message with an empty header and an empty ciphertext.
    assert_eq!(decrypt(&bob, &[0, 0, 0, 0], &ad).unwrap_err(), CryptoError::Authentication);
}

/// The state with its count of received messages set to `count`.
fn with_receive_counter(state: &[u8], count: u32) -> Vec<u8> {
    let mut fields: serde_json::Value = serde_json::from_slice(state).expect("state as JSON");
    fields["nr"] = serde_json::Value::from(count);
    serde_json::to_vec(&fields).expect("state as bytes")
}

#[test]
fn wire_bytes_have_the_lengths_of_header_padding_and_tag() {
    let (alice, bob, ad) = fresh_sessions();
    for length in [0usize, 1, 15, 16, 17, 31, 32, 100] {
        let plaintext = vec![0x41u8; length];
        let (wire, next) = encrypt(&alice, &plaintext, &ad).expect("encrypt");
        assert_eq!(&wire[..4], &[68, 0, 0, 0]);
        assert_eq!(wire.len(), 4 + 68 + 16 * (length / 16 + 1) + 32);
        assert!(!next.is_empty());
        let (header, ciphertext) = parse_wire(&wire).expect("parse");
        assert_eq!(header.len(), 68);
        let (opened, after) = decrypt(&bob, &wire, &ad).expect("decrypt");
        assert_eq!(opened, plaintext);
        assert!(opened.len() + 32 < ciphertext.len());
        assert!(ciphertext.len() <= opened.len() + 48);
        assert!(!after.is_empty());
    }
}

#[test]
fn a_receive_counter_above_the_limit_is_refused() {
    let (alice, bob, ad) = fresh_sessions();
    let (first, alice) = encrypt(&alice, b"one", &ad).expect("encrypt");
    let (second, _) = encrypt(&alice, b"two", &ad).expect("encrypt");
    let (_, bob) = decrypt(&bob, &first, &ad).expect("decrypt");
    for count in [u32::MAX - 999, u32::MAX - 10, u32::MAX] {
        let worn = with_receive_counter(&bob, count);
        assert_eq!(
            decrypt(&worn, &second, &ad).unwrap_err(),
            CryptoError::State(StateFailure::Ratchet(RatchetFailure::CounterOverflow))
        );
    }
    // At the limit the ratchet is asked, and finds the message out of place.
    let at_limit = with_receive_counter(&bob, u32::MAX - 1000);
    assert_eq!(decrypt(&at_limit, &second, &ad).unwrap_err(), CryptoError::Authentication);
    // Untouched, the state opens the message.
    assert_eq!(decrypt(&bob, &second, &ad).expect("decrypt").0, b"two");
    // Encrypting does not look at the count.
    let worn = with_receive_counter(&bob, u32::MAX);
    assert!(encrypt(&worn, b"reply", &ad).is_ok());
}
