use secret_vault::cipher::{decrypt, encrypt, key_len, key_ok, normalize_key};
use secret_vault::secrets::{reveal_value, seal_value};
use secret_vault::error::SecretError;
use secret_vault::keygen::generate_key;
use secret_vault::models::EncryptionMethod;

const METHODS: [EncryptionMethod; 4] = [
    EncryptionMethod::AES256,
    EncryptionMethod::Chacha20,
    EncryptionMethod::Blowfish,
    EncryptionMethod::DESTriphleDES,
];

fn fixed_key(len: usize) -> Vec<u8> {
    (0..len).map(|i| (i * 7 + 3) as u8).collect()
}

#[test]
fn round_trip_all_methods() {
    for method in METHODS {
        let key = fixed_key(key_len(&method));
        let plaintexts: [&[u8]; 4] = [b"", b"a", b"hello world, not block aligned", &[0u8; 64]];
        for pt in plaintexts {
            let ct = encrypt(&method, &key, pt).expect("encrypt");
            let back = decrypt(&method, &key, &ct).expect("decrypt");
            assert_eq!(back, pt.to_vec(), "round trip failed for {:?}", method);
        }
    }
}

#[test]
fn round_trip_with_generated_keys() {
    for method in METHODS {
        let key = generate_key(&method);
        let pt = b"generated key round trip";
        let ct = encrypt(&method, &key, pt).expect("encrypt");
        let back = decrypt(&method, &key, &ct).expect("decrypt");
        assert_eq!(back, pt.to_vec());
    }
}

#[test]
fn generated_key_lengths() {
    for _ in 0..5 {
        assert_eq!(generate_key(&EncryptionMethod::AES256).len(), 32);
        assert_eq!(generate_key(&EncryptionMethod::Chacha20).len(), 32);
        assert_eq!(generate_key(&EncryptionMethod::Blowfish).len(), 32);
        assert_eq!(generate_key(&EncryptionMethod::DESTriphleDES).len(), 24);
    }
}

#[test]
fn generated_keys_differ() {
    let a = generate_key(&EncryptionMethod::AES256);
    let b = generate_key(&EncryptionMethod::AES256);
    assert_ne!(a, b);
}

#[test]
fn decrypt_rejects_wrong_key_length_strict_methods() {
    for method in [EncryptionMethod::AES256, EncryptionMethod::Chacha20] {
        for len in [0usize, 16, 31, 33] {
            let key = fixed_key(len);
            let r = decrypt(&method, &key, b"whatever");
            assert_eq!(r, Err(SecretError::DecryptionFailure));
        }
    }
}

#[test]
fn encrypt_rejects_wrong_key_length_strict_methods() {
    for method in [EncryptionMethod::AES256, EncryptionMethod::Chacha20] {
        let key = fixed_key(16);
        let r = encrypt(&method, &key, b"whatever");
        assert_eq!(r, Err(SecretError::ValidationFailure));
    }
}

#[test]
fn nonstrict_methods_normalize_any_key_length() {
    for method in [EncryptionMethod::Blowfish, EncryptionMethod::DESTriphleDES] {
        let n = key_len(&method);
        for len in [0usize, 5, 40] {
            let short = fixed_key(len);
            let padded = normalize_key(&short, n);
            let pt = b"normalization check";
            let ct_short = encrypt(&method, &short, pt).expect("encrypt short");
            let ct_padded = encrypt(&method, &padded, pt).expect("encrypt padded");
            assert_eq!(ct_short, ct_padded);
            assert_eq!(decrypt(&method, &short, &ct_short).expect("decrypt"), pt.to_vec());
        }
    }
}

#[test]
fn block_ciphers_pad_to_full_blocks() {
    let key = fixed_key(32);
    let ct = encrypt(&EncryptionMethod::AES256, &key, b"abc").expect("encrypt");
    assert_eq!(ct.len(), 16);
    let ct = encrypt(&EncryptionMethod::AES256, &key, &[7u8; 16]).expect("encrypt");
    assert_eq!(ct.len(), 32);
    let ct = encrypt(&EncryptionMethod::Blowfish, &key, b"abc").expect("encrypt");
    assert_eq!(ct.len(), 8);
    let key24 = fixed_key(24);
    let ct = encrypt(&EncryptionMethod::DESTriphleDES, &key24, b"123456789").expect("encrypt");
    assert_eq!(ct.len(), 16);
}

#[test]
fn stream_cipher_keeps_length_and_changes_bytes() {
    let key = fixed_key(32);
    let pt = b"stream cipher keeps the length of its input";
    let ct = encrypt(&EncryptionMethod::Chacha20, &key, pt).expect("encrypt");
    assert_eq!(ct.len(), pt.len());
    assert_ne!(ct, pt.to_vec());
}

#[test]
fn ciphertext_differs_from_plaintext_block_methods() {
    let key = fixed_key(32);
    let pt = [0u8; 32];
    for method in [EncryptionMethod::AES256, EncryptionMethod::Blowfish] {
        let ct = encrypt(&method, &key, &pt).expect("encrypt");
        assert_ne!(&ct[..32], &pt[..]);
    }
}

#[test]
fn decrypt_rejects_bad_block_length() {
    let key = fixed_key(32);
    let r = decrypt(&EncryptionMethod::AES256, &key, b"short");
    assert_eq!(r, Err(SecretError::DecryptionFailure));
    let r = decrypt(&EncryptionMethod::Blowfish, &key, &[1u8; 9]);
    assert_eq!(r, Err(SecretError::DecryptionFailure));
}

#[test]
fn decrypt_rejects_garbage_padding() {
    let key = fixed_key(32);
    // A random-looking block almost surely fails PKCS#7 unpadding under this key.
    let r = decrypt(&EncryptionMethod::AES256, &key, &[0x5au8; 16]);
    assert_eq!(r, Err(SecretError::DecryptionFailure));
}

#[test]
fn key_ok_matches_rules() {
    assert!(key_ok(&EncryptionMethod::AES256, &fixed_key(32)));
    assert!(!key_ok(&EncryptionMethod::AES256, &fixed_key(24)));
    assert!(key_ok(&EncryptionMethod::Chacha20, &fixed_key(32)));
    assert!(!key_ok(&EncryptionMethod::Chacha20, &fixed_key(33)));
    assert!(key_ok(&EncryptionMethod::Blowfish, &fixed_key(3)));
    assert!(key_ok(&EncryptionMethod::DESTriphleDES, &fixed_key(100)));
}

#[test]
fn normalize_key_pads_and_truncates() {
    assert_eq!(normalize_key(&[1, 2, 3], 5), vec![1, 2, 3, 0, 0]);
    assert_eq!(normalize_key(&[1, 2, 3, 4, 5], 2), vec![1, 2]);
    assert_eq!(normalize_key(&[], 4), vec![0, 0, 0, 0]);
}

#[test]
fn cross_method_decryption_fails_or_differs() {
    // A value encrypted under one key must not decrypt to the plaintext
    // under another key.
    let key_a = fixed_key(32);
    let mut key_b = fixed_key(32);
    key_b[0] ^= 0xff;
    let pt = b"the two keys differ";
    let ct = encrypt(&EncryptionMethod::AES256, &key_a, pt).expect("encrypt");
    match decrypt(&EncryptionMethod::AES256, &key_b, &ct) {
        Ok(other) => assert_ne!(other, pt.to_vec()),
        Err(e) => assert_eq!(e, SecretError::DecryptionFailure),
    }
}

#[test]
fn revealing_a_value_that_is_not_utf8_fails() {
    let key = fixed_key(32);
    let method = EncryptionMethod::AES256;
    // Valid ciphertext whose plaintext is not UTF-8.
    let ct = encrypt(&method, &key, &[0xff, 0xfe, 0x80]).expect("encrypt");
    assert_eq!(reveal_value(&method, &key, &ct), Err(SecretError::DecryptionFailure));
}

#[test]
fn seal_and_reveal_round_trip() {
    let key = fixed_key(32);
    let method = EncryptionMethod::Chacha20;
    let ct = seal_value(&method, &key, "the plaintext ☃").expect("seal");
    assert_eq!(reveal_value(&method, &key, &ct).expect("reveal"), "the plaintext ☃");
}
