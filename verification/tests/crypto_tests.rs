use pasteall_core::crypto::{self, CryptoManager, KeyPair, SignKeyPair};
use pasteall_core::errors::Error;

#[test]
fn test_keypair_generation() {
    let keypair = KeyPair::generate();
    let base64 = keypair.public_key_base64();

    assert!(!base64.is_empty());

    let result = KeyPair::public_key_from_base64(&base64);
    assert!(result.is_ok());
}

#[test]
fn test_signing() {
    let keypair = SignKeyPair::generate();
    let data = b"test data";

    let signature = keypair.sign(data);
    let valid = keypair.verify(&signature, data);

    assert!(valid);
}

#[test]
fn test_crypto_manager() {
    let manager = CryptoManager::new();
    let (enc_key, sign_key) = manager.get_public_keys();

    assert!(!enc_key.is_empty());
    assert!(!sign_key.is_empty());
}

#[test]
fn test_public_key_base64_round_trip() {
    let keypair = KeyPair::generate();
    let encoded = keypair.public_key_base64();
    let decoded = KeyPair::public_key_from_base64(&encoded).unwrap();
    assert_eq!(decoded, keypair.public_key);
    // 32 key bytes encode to 44 base64 characters, so the wrapper did not
    // hand its input back.
    assert_eq!(encoded.len(), 44);
}

#[test]
fn test_public_key_from_base64_rejects_bad_input() {
    assert!(matches!(
        KeyPair::public_key_from_base64("@@not-base64@@"),
        Err(Error::Crypto(_))
    ));
    // Valid base64, wrong length.
    assert!(matches!(
        KeyPair::public_key_from_base64("AAECAw=="),
        Err(Error::Crypto(_))
    ));
    assert!(matches!(
        SignKeyPair::public_key_from_base64("AAECAw=="),
        Err(Error::Crypto(_))
    ));
}

#[test]
fn test_encrypt_decrypt_round_trip() {
    let mut manager = CryptoManager::new();
    let remote = KeyPair::generate();
    manager
        .generate_shared_key("peer-1", &remote.public_key)
        .unwrap();

    let plaintext = b"for all plaintexts";
    let ciphertext = manager.encrypt("peer-1", plaintext).unwrap();
    assert_eq!(ciphertext.len(), plaintext.len() + 24 + 16);
    assert_ne!(&ciphertext[24..], &plaintext[..]);

    let decrypted = manager.decrypt("peer-1", &ciphertext).unwrap();
    assert_eq!(decrypted, plaintext);

    let echoed = crypto::encrypt_decrypt_round_trip(&manager, "peer-1", plaintext);
    assert_eq!(echoed, plaintext);
}

#[test]
fn test_encrypt_decrypt_unknown_device() {
    let manager = CryptoManager::new();

    let err = manager.encrypt("nobody", b"data").unwrap_err();
    match err {
        Error::Crypto(m) => assert_eq!(m, "no shared key for device"),
        other => panic!("unexpected error: {:?}", other.message()),
    }

    let err = manager.decrypt("nobody", &[0u8; 40]).unwrap_err();
    match err {
        Error::Crypto(m) => assert_eq!(m, "no shared key for device"),
        other => panic!("unexpected error: {:?}", other.message()),
    }
}

#[test]
fn test_decrypt_too_short_and_tampered() {
    let mut manager = CryptoManager::new();
    let remote = KeyPair::generate();
    manager
        .generate_shared_key("peer-1", &remote.public_key)
        .unwrap();

    let err = manager.decrypt("peer-1", &[0u8; 5]).unwrap_err();
    match err {
        Error::Crypto(m) => assert_eq!(m, "encrypted data too short"),
        other => panic!("unexpected error: {:?}", other.message()),
    }

    let mut ciphertext = manager.encrypt("peer-1", b"payload").unwrap();
    let last = ciphertext.len() - 1;
    ciphertext[last] ^= 0x01;
    let err = manager.decrypt("peer-1", &ciphertext).unwrap_err();
    match err {
        Error::Crypto(m) => assert_eq!(m, "decryption failed"),
        other => panic!("unexpected error: {:?}", other.message()),
    }
}

#[test]
fn test_repeated_shared_key_overwrites() {
    let mut manager = CryptoManager::new();
    let first = KeyPair::generate();
    let second = KeyPair::generate();

    manager.generate_shared_key("peer", &first.public_key).unwrap();
    let sealed_under_first = manager.encrypt("peer", b"before").unwrap();

    manager.generate_shared_key("peer", &second.public_key).unwrap();
    // The entry was overwritten: what the first key sealed no longer opens.
    assert!(manager.decrypt("peer", &sealed_under_first).is_err());
    // And the channel still round-trips under the latest entry.
    let sealed = manager.encrypt("peer", b"after").unwrap();
    assert_eq!(manager.decrypt("peer", &sealed).unwrap(), b"after");
}

#[test]
fn test_sign_verify_and_tampering() {
    let manager = CryptoManager::new();
    let public_key = manager.get_signing_key_base64();
    let data = b"all data";

    let signature = manager.sign(data);
    assert_eq!(signature.len(), 64);
    assert!(manager.verify(&signature, data, &public_key).unwrap());

    // Flipping any byte of the data makes verification fail.
    let mut tampered_data = data.to_vec();
    for i in 0..tampered_data.len() {
        tampered_data[i] ^= 0x01;
        assert!(!manager.verify(&signature, &tampered_data, &public_key).unwrap());
        tampered_data[i] ^= 0x01;
    }

    // Flipping a byte of the signature makes verification fail.
    let mut tampered_sig = signature.clone();
    tampered_sig[0] ^= 0x01;
    assert!(!manager.verify(&tampered_sig, data, &public_key).unwrap());
}

#[test]
fn test_free_sign_and_verify_signature() {
    let manager = CryptoManager::new();
    let public_key = manager.get_signing_key_base64();

    let signature = crypto::sign(&manager, "device-id-1", "unused").unwrap();
    assert!(crypto::verify_signature("device-id-1", &signature, &public_key).unwrap());
    assert!(!crypto::verify_signature("device-id-2", &signature, &public_key).unwrap());

    assert!(matches!(
        crypto::verify_signature("data", "@@@", &public_key),
        Err(Error::Crypto(_))
    ));
}

#[test]
fn test_sealed_box_round_trip() {
    let manager = CryptoManager::new();
    let recipient_key = manager.get_public_key_base64();

    let sealed = manager
        .encrypt_with_public_key(&recipient_key, b"first contact")
        .unwrap();
    assert_eq!(sealed.len(), b"first contact".len() + 48);

    let opened = manager.decrypt_with_private_key(&sealed).unwrap();
    assert_eq!(opened, b"first contact");

    let other = CryptoManager::new();
    assert!(other.decrypt_with_private_key(&sealed).is_err());
}

#[test]
fn test_generate_pin_format_and_range() {
    for _ in 0..50 {
        let pin = CryptoManager::generate_pin();
        assert_eq!(pin.len(), 6);
        assert!(pin.chars().all(|c| c.is_ascii_digit()));
        let value: u32 = pin.parse().unwrap();
        assert!((100000..=999999).contains(&value));
    }
}

#[test]
fn test_format_six_digits_pads() {
    assert_eq!(pasteall_core::crypto::format_six_digits(48213), "048213");
    assert_eq!(pasteall_core::crypto::format_six_digits(0), "000000");
    assert_eq!(pasteall_core::crypto::format_six_digits(999999), "999999");
}

#[test]
fn test_get_public_key_matches_manager() {
    let manager = CryptoManager::new();
    let from_free = crypto::get_public_key(&manager).unwrap();
    assert_eq!(from_free, manager.get_public_key_base64());
}

#[test]
fn test_with_keys_round_trip() {
    let enc = KeyPair::generate();
    let signing = SignKeyPair::generate();
    let signing_pk = signing.public_key.clone();
    let data = b"persisted identity";
    let signature = signing.sign(data);

    // The signing secret never leaves SignKeyPair; for this loading test a
    // structurally valid placeholder secret is enough, since verification
    // is a pure function of signature, data and public key.
    let mut manager = CryptoManager::with_keys(
        enc.public_key.clone(),
        enc.secret_key.clone(),
        signing_pk.clone(),
        vec![0u8; 64],
    );
    assert_eq!(manager.get_public_key_base64(), enc.public_key_base64());

    let remote = KeyPair::generate();
    manager.generate_shared_key("peer", &remote.public_key).unwrap();
    let sealed = manager.encrypt("peer", data).unwrap();
    assert_eq!(manager.decrypt("peer", &sealed).unwrap(), data);

    // A signature made before loading still verifies under the loaded key.
    let pk_b64 = manager.get_signing_key_base64();
    assert!(manager.verify(&signature, data, &pk_b64).unwrap());
}
