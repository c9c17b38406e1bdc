//! End-to-end flows: identity and pre-key generation, X3DH in both roles,
//! Double Ratchet encryption and decryption in both directions.

use hush_crypto::{
    decrypt, encrypt, generate_identity, generate_one_time_pre_keys, generate_signed_pre_key,
    perform_x3dh, perform_x3dh_responder, CryptoError, ServerBundle,
};

/// Builds the bundle that the directory service hands out for Bob.
fn build_server_bundle(
    identity_key: &[u8],
    signed_pre_key: &[u8],
    signed_pre_key_signature: &[u8],
    registration_id: u32,
    one_time_pre_key_id: Option<u32>,
    one_time_pre_key: Option<&[u8]>,
) -> ServerBundle {
    let mut bundle = ServerBundle {
        identity_key: identity_key.to_vec(),
        signed_pre_key: signed_pre_key.to_vec(),
        signed_pre_key_signature: signed_pre_key_signature.to_vec(),
        registration_id,
        one_time_pre_key_id: None,
        one_time_pre_key: None,
    };
    if let (Some(id), Some(pk)) = (one_time_pre_key_id, one_time_pre_key) {
        bundle.one_time_pre_key_id = Some(id);
        bundle.one_time_pre_key = Some(pk.to_vec());
    }
    bundle
}

/// Builds the associated data: the initiator's identity key, then the
/// responder's, 66 bytes in all.
fn build_ad(initiator_ik: &[u8], responder_ik: &[u8]) -> Vec<u8> {
    let mut ad = Vec::with_capacity(66);
    ad.extend_from_slice(initiator_ik);
    ad.extend_from_slice(responder_ik);
    ad
}

#[test]
fn test_full_alice_bob_flow_without_opk() {
    // 1. Generate identities for Alice and Bob
    let alice_id = generate_identity().expect("Alice identity");
    let bob_id = generate_identity().expect("Bob identity");

    // 2. Bob generates his signed pre-key
    let (bob_spk_pub, bob_spk_sig, bob_spk_priv) =
        generate_signed_pre_key(&bob_id.private_key, 1).expect("Bob SPK");

    // 3. The bundle that Alice fetches (no one-time pre-key)
    let bundle = build_server_bundle(
        &bob_id.public_key,
        &bob_spk_pub,
        &bob_spk_sig,
        bob_id.registration_id,
        None,
        None,
    );

    // 4. Alice performs X3DH as initiator
    let alice_x3dh = perform_x3dh(&bundle, &alice_id.private_key).expect("Alice X3DH");
    assert!(!alice_x3dh.ephemeral_public.is_empty(), "ephemeral_public must be returned");
    assert_eq!(alice_x3dh.ephemeral_public.len(), 33, "ephemeral_public must be 33 bytes");

    // 5. Alice encrypts the first message with the associated data
    let ad = build_ad(&alice_id.public_key, &bob_id.public_key);
    let plaintext = b"Hello Bob, this is Alice!";
    let (ciphertext, alice_state_after) =
        encrypt(&alice_x3dh.state.state_bytes, plaintext, &ad).expect("Alice encrypt");
    assert_ne!(ciphertext, plaintext);

    // 6. Bob performs X3DH as responder
    let bob_session = perform_x3dh_responder(
        &bob_id.private_key,
        &bob_spk_priv,
        &bob_spk_pub,
        None, // no one-time pre-key
        &alice_id.public_key,
        &alice_x3dh.ephemeral_public,
    )
    .expect("Bob X3DH responder");

    // 7. Bob decrypts Alice's message with the same associated data
    let (bob_plaintext, bob_state_after) =
        decrypt(&bob_session.state_bytes, &ciphertext, &ad).expect("Bob decrypt");
    assert_eq!(bob_plaintext, plaintext, "Decrypted message must match");

    // 8. Bob replies
    let reply = b"Hi Alice, Bob here!";
    let (reply_ct, _bob_state_2) =
        encrypt(&bob_state_after, reply, &ad).expect("Bob encrypt reply");

    // 9. Alice decrypts Bob's reply
    let (alice_got, _alice_state_2) =
        decrypt(&alice_state_after, &reply_ct, &ad).expect("Alice decrypt reply");
    assert_eq!(alice_got, reply, "Alice must receive Bob's reply");
}

#[test]
fn test_full_alice_bob_flow_with_opk() {
    let alice_id = generate_identity().expect("Alice identity");
    let bob_id = generate_identity().expect("Bob identity");

    let (bob_spk_pub, bob_spk_sig, bob_spk_priv) =
        generate_signed_pre_key(&bob_id.private_key, 1).expect("Bob SPK");

    let bob_otpks = generate_one_time_pre_keys(5, 0).expect("Bob OTPKs");
    assert_eq!(bob_otpks.len(), 5);
    assert_eq!(bob_otpks[0].private_key.len(), 32, "OPK private key must be 32 bytes");
    assert_eq!(bob_otpks[0].public_key.len(), 33, "OPK public key must be 33 bytes");

    let bundle = build_server_bundle(
        &bob_id.public_key,
        &bob_spk_pub,
        &bob_spk_sig,
        bob_id.registration_id,
        Some(bob_otpks[0].key_id),
        Some(&bob_otpks[0].public_key),
    );

    let alice_x3dh = perform_x3dh(&bundle, &alice_id.private_key).expect("Alice X3DH with OPK");

    let ad = build_ad(&alice_id.public_key, &bob_id.public_key);
    let plaintext = b"Hello with OPK forward secrecy!";
    let (ciphertext, alice_state) =
        encrypt(&alice_x3dh.state.state_bytes, plaintext, &ad).expect("Alice encrypt");

    let bob_session = perform_x3dh_responder(
        &bob_id.private_key,
        &bob_spk_priv,
        &bob_spk_pub,
        Some(&bob_otpks[0].private_key),
        &alice_id.public_key,
        &alice_x3dh.ephemeral_public,
    )
    .expect("Bob X3DH responder with OPK");

    let (bob_plaintext, bob_state) =
        decrypt(&bob_session.state_bytes, &ciphertext, &ad).expect("Bob decrypt");
    assert_eq!(bob_plaintext, plaintext);

    // Bidirectional exchange
    let reply = b"Got your OPK message!";
    let (reply_ct, _) = encrypt(&bob_state, reply, &ad).expect("Bob reply");
    let (alice_got, _) = decrypt(&alice_state, &reply_ct, &ad).expect("Alice decrypt reply");
    assert_eq!(alice_got, reply);
}

#[test]
fn test_wrong_ad_fails_decryption() {
    let alice_id = generate_identity().expect("Alice identity");
    let bob_id = generate_identity().expect("Bob identity");

    let (bob_spk_pub, bob_spk_sig, bob_spk_priv) =
        generate_signed_pre_key(&bob_id.private_key, 1).expect("Bob SPK");

    let bundle = build_server_bundle(
        &bob_id.public_key, &bob_spk_pub, &bob_spk_sig,
        bob_id.registration_id, None, None,
    );

    let alice_x3dh = perform_x3dh(&bundle, &alice_id.private_key).expect("X3DH");

    let correct_ad = build_ad(&alice_id.public_key, &bob_id.public_key);
    let wrong_ad = build_ad(&bob_id.public_key, &alice_id.public_key); // swapped order

    let (ciphertext, _) =
        encrypt(&alice_x3dh.state.state_bytes, b"secret", &correct_ad).expect("encrypt");

    let bob_session = perform_x3dh_responder(
        &bob_id.private_key, &bob_spk_priv, &bob_spk_pub, None,
        &alice_id.public_key, &alice_x3dh.ephemeral_public,
    )
    .expect("responder");

    let result = decrypt(&bob_session.state_bytes, &ciphertext, &wrong_ad);
    assert!(result.is_err(), "Decryption with wrong AD must fail");
}

#[test]
fn swapped_associated_data_is_an_authentication_failure() {
    let alice_id = generate_identity().expect("Alice identity");
    let bob_id = generate_identity().expect("Bob identity");
    let (bob_spk_pub, bob_spk_sig, bob_spk_priv) =
        generate_signed_pre_key(&bob_id.private_key, 1).expect("Bob SPK");
    let bundle = build_server_bundle(
        &bob_id.public_key, &bob_spk_pub, &bob_spk_sig, bob_id.registration_id, None, None,
    );
    let alice_x3dh = perform_x3dh(&bundle, &alice_id.private_key).expect("X3DH");
    let correct_ad = build_ad(&alice_id.public_key, &bob_id.public_key);
    let wrong_ad = build_ad(&bob_id.public_key, &alice_id.public_key);
    let (wire, _) =
        encrypt(&alice_x3dh.state.state_bytes, b"secret", &correct_ad).expect("encrypt");
    let bob_session = perform_x3dh_responder(
        &bob_id.private_key, &bob_spk_priv, &bob_spk_pub, None,
        &alice_id.public_key, &alice_x3dh.ephemeral_public,
    )
    .expect("responder");
    let result = decrypt(&bob_session.state_bytes, &wire, &wrong_ad);
    assert_eq!(result.unwrap_err(), CryptoError::Authentication);
}

#[test]
fn responder_without_the_one_time_key_cannot_read_the_first_message() {
    let alice_id = generate_identity().expect("Alice identity");
    let bob_id = generate_identity().expect("Bob identity");
    let (bob_spk_pub, bob_spk_sig, bob_spk_priv) =
        generate_signed_pre_key(&bob_id.private_key, 1).expect("Bob SPK");
    let bob_otpks = generate_one_time_pre_keys(1, 7).expect("Bob OTPKs");
    let bundle = build_server_bundle(
        &bob_id.public_key, &bob_spk_pub, &bob_spk_sig, bob_id.registration_id,
        Some(bob_otpks[0].key_id), Some(&bob_otpks[0].public_key),
    );
    let alice_x3dh = perform_x3dh(&bundle, &alice_id.private_key).expect("X3DH");
    assert_eq!(alice_x3dh.used_opk_id, Some(7));
    let ad = build_ad(&alice_id.public_key, &bob_id.public_key);
    let (wire, _) = encrypt(&alice_x3dh.state.state_bytes, b"first", &ad).expect("encrypt");
    let bob_session = perform_x3dh_responder(
        &bob_id.private_key, &bob_spk_priv, &bob_spk_pub, None,
        &alice_id.public_key, &alice_x3dh.ephemeral_public,
    )
    .expect("responder");
    let result = decrypt(&bob_session.state_bytes, &wire, &ad);
    assert_eq!(result.unwrap_err(), CryptoError::Authentication);
}

#[test]
fn bundle_without_one_time_key_uses_none() {
    let alice_id = generate_identity().expect("Alice identity");
    let bob_id = generate_identity().expect("Bob identity");
    let (bob_spk_pub, bob_spk_sig, _) =
        generate_signed_pre_key(&bob_id.private_key, 1).expect("Bob SPK");
    let bob_otpks = generate_one_time_pre_keys(1, 3).expect("Bob OTPKs");

    // An id without a key, and a key without an id, are no one-time pre-key.
    let only_id = build_server_bundle(
        &bob_id.public_key, &bob_spk_pub, &bob_spk_sig, bob_id.registration_id, Some(3), None,
    );
    assert_eq!(only_id.one_time_pre_key_id, None);
    let mut id_alone = only_id.clone();
    id_alone.one_time_pre_key_id = Some(3);
    let res = perform_x3dh(&id_alone, &alice_id.private_key).expect("X3DH, id alone");
    assert_eq!(res.used_opk_id, None);

    let mut key_alone = only_id.clone();
    key_alone.one_time_pre_key = Some(bob_otpks[0].public_key.clone());
    let res = perform_x3dh(&key_alone, &alice_id.private_key).expect("X3DH, key alone");
    assert_eq!(res.used_opk_id, None);
}
