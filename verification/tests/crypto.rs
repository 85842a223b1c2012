use p2p_chat::crypto::{
    generate_discovery_key, generate_keypair, generate_random_token, sign_data, verify_data,
    CryptoError, PublicKey, SecretKey, Signature,
};

#[test]
fn test_sign_unsign() {
    let keypair = generate_keypair();
    let message = "Wish you were here...";
    let signature = sign_data(&keypair.public, &keypair.secret, message.as_bytes());
    assert!(
        verify_data(&keypair.public, message.as_bytes(), &signature).is_ok(),
        "Can't verify signed data."
    );
    assert!(
        verify_data(&keypair.public, "Same old fears...".as_bytes(), &signature).is_err(),
        "Verified wrong message."
    );
}

#[test]
fn signature_of_another_key_is_refused() {
    let keypair = generate_keypair();
    let other = generate_keypair();
    let signature = sign_data(&other.public, &other.secret, b"message");
    assert_eq!(verify_data(&keypair.public, b"message", &signature), Err(CryptoError));
    assert_eq!(verify_data(&other.public, b"message", &signature), Ok(()));
}

#[test]
fn fresh_keys_differ() {
    assert_ne!(
        generate_keypair().secret.to_bytes(),
        generate_keypair().secret.to_bytes()
    );
}

#[test]
fn keys_and_signatures_survive_their_bytes() {
    let keypair = generate_keypair();
    let signature = sign_data(&keypair.public, &keypair.secret, b"message");
    let public = PublicKey::from_bytes(keypair.public.to_bytes()).unwrap();
    let secret = SecretKey::from_bytes(keypair.secret.to_bytes());
    assert_eq!(public, keypair.public);
    assert_eq!(sign_data(&public, &secret, b"message"), signature);
    let again = Signature::from_bytes(signature.to_bytes()).unwrap();
    assert_eq!(verify_data(&public, b"message", &again), Ok(()));
}

#[test]
fn signature_depends_on_message_and_keys() {
    let keypair = generate_keypair();
    let other = generate_keypair();
    let signature = sign_data(&keypair.public, &keypair.secret, b"message");
    assert_ne!(sign_data(&keypair.public, &keypair.secret, b"massage"), signature);
    assert_ne!(sign_data(&keypair.public, &other.secret, b"message"), signature);
    assert_ne!(sign_data(&other.public, &keypair.secret, b"message"), signature);
}

#[test]
fn public_key_must_be_a_point() {
    let mut identity = [0u8; 32];
    identity[0] = 1;
    assert!(PublicKey::from_bytes(identity).is_ok());
    let mut refused: usize = 0;
    for low in 0..16u8 {
        let mut bytes = [0u8; 32];
        bytes[0] = low;
        if PublicKey::from_bytes(bytes) == Err(CryptoError) {
            refused += 1;
        }
    }
    assert!(refused > 0 && refused < 16);
}

#[test]
fn signature_must_be_partly_reduced() {
    let mut bytes = [0u8; 64];
    bytes[63] = 0x1f;
    assert_eq!(Signature::from_bytes(bytes).unwrap().to_bytes(), bytes);
    bytes[63] = 0x20;
    assert_eq!(Signature::from_bytes(bytes), Err(CryptoError));
}

#[test]
fn token_is_the_hash_of_the_text() {
    assert_eq!(
        generate_random_token("").to_string(),
        "af1349b9f5f9a1a6a0404dea36dcc9499bcb25c9adc112b7cc9a93cae41f3262"
    );
    assert_eq!(generate_random_token("0.25"), generate_discovery_key(b"0.25"));
    assert_ne!(generate_random_token("0.25"), generate_random_token("0.5"));
}

#[test]
fn hash_text_is_lower_case_hexadecimal() {
    let mut bytes = [0u8; 32];
    bytes[0] = 0xab;
    bytes[31] = 0x0f;
    let hash = p2p_chat::crypto::Hash::from_bytes(bytes);
    assert_eq!(hash.as_bytes(), &bytes);
    assert_eq!(
        hash.to_string(),
        "ab0000000000000000000000000000000000000000000000000000000000000f"
    );
}
