use rng_toolbox::cipher::{crypt, crypt_round_trip, gen_key};
use rng_toolbox::entropy::{
    bounded_value, generate_random_number, get_entropy_sample, u64_from_le,
};
use rng_toolbox::errors::{CollectError, CryptoError};

const KEY: &str = "000102030405060708090a0b0c0d0e0f101112131415161718191a1b1c1d1e1f";

#[test]
fn entropy_sample_is_256_binary_digits() {
    let s = get_entropy_sample().unwrap();
    assert_eq!(s.len(), 256);
    assert!(s.chars().all(|c| c == '0' || c == '1'));
}

#[test]
fn little_endian_assembly_of_known_bytes() {
    assert_eq!(u64_from_le(&vec![1, 0, 0, 0, 0, 0, 0, 0]), 1);
    assert_eq!(u64_from_le(&vec![0x88, 0x77, 0x66, 0x55, 0x44, 0x33, 0x22, 0x11]),
        0x1122334455667788);
    assert_eq!(u64_from_le(&vec![0xFF; 8]), u64::MAX);
}

#[test]
fn bounded_value_folds_magnitude_into_range() {
    assert_eq!(bounded_value(0, 255, 300), 44);
    assert_eq!(bounded_value(0, 255, 7), 7);
    // A raw draw that reads as -5 in two's complement has magnitude 5.
    assert_eq!(bounded_value(10, 20, u64::MAX - 4), 10 + 5 % 11);
    // The most negative draw has magnitude 2^63.
    let m = 9223372036854775808u64 % 11;
    assert_eq!(bounded_value(10, 20, 0x8000000000000000), 10 + m as i64);
}

#[test]
fn random_numbers_stay_in_range() {
    for _ in 0..50 {
        let v = generate_random_number(10, 20).unwrap();
        assert!((10..=20).contains(&v));
    }
    assert_eq!(generate_random_number(5, 5).unwrap(), 5);
}

#[test]
fn derived_key_is_64_lowercase_hex_chars() {
    let k = gen_key("AES").unwrap();
    assert_eq!(k.len(), 64);
    assert!(k.chars().all(|c| c.is_ascii_digit() || ('a'..='f').contains(&c)));
}

#[test]
fn derived_keys_differ_between_calls() {
    let a = gen_key("AES").unwrap();
    let b = gen_key("AES").unwrap();
    assert_ne!(a, b, "two fresh 256-bit keys colliding is vanishingly unlikely");
}

#[test]
fn gen_key_rejects_other_algorithms() {
    let e = gen_key("RSA").unwrap_err();
    assert_eq!(e, CryptoError::KeyGenNotImplemented);
    assert_eq!(e.message(), "RSA key generation not implemented yet");
    assert_eq!(gen_key("DES").unwrap_err(), CryptoError::UnsupportedAlgorithm);
}

#[test]
fn encrypt_then_decrypt_recovers_message() {
    let msg = "attack at dawn \u{1F512} über";
    let ct = crypt("AES", KEY, msg, true).unwrap();
    assert!(ct.len() >= 32, "ciphertext carries a 16-byte tag in hex");
    let pt = crypt("AES", KEY, &ct, false).unwrap();
    assert_eq!(pt, msg);
}

#[test]
fn round_trip_helper_recovers_message() {
    let out = crypt_round_trip(KEY, "hello world").unwrap();
    assert_eq!(out, "hello world");
}

#[test]
fn round_trip_with_derived_key() {
    let k = gen_key("AES").unwrap();
    let ct = crypt("AES", &k, "payload", true).unwrap();
    assert_eq!(crypt("AES", &k, &ct, false).unwrap(), "payload");
}

#[test]
fn tampered_ciphertext_is_rejected() {
    let ct = crypt("AES", KEY, "integrity matters", true).unwrap();
    // Flip one bit of the first ciphertext byte by rewriting its hex digit.
    let mut chars: Vec<char> = ct.chars().collect();
    chars[0] = match chars[0] {
        '0' => '1',
        _ => '0',
    };
    let tampered: String = chars.into_iter().collect();
    assert_ne!(tampered, ct);
    let e = crypt("AES", KEY, &tampered, false).unwrap_err();
    assert!(matches!(e, CryptoError::DecryptionFailed { .. }));
    assert!(e.message().starts_with("Decryption failed: "));
}

#[test]
fn truncated_ciphertext_is_rejected() {
    let ct = crypt("AES", KEY, "short", true).unwrap();
    let truncated = &ct[..ct.len() - 2];
    let e = crypt("AES", KEY, truncated, false).unwrap_err();
    assert!(matches!(e, CryptoError::DecryptionFailed { .. }));
}

#[test]
fn ciphertext_is_deterministic_under_fixed_nonce() {
    // The service reuses an all-zero nonce, so equal inputs give equal
    // ciphertexts: the documented confidentiality defect of this scheme.
    let a = crypt("AES", KEY, "same message", true).unwrap();
    let b = crypt("AES", KEY, "same message", true).unwrap();
    assert_eq!(a, b);
}

#[test]
fn crypt_validates_key_and_hex() {
    assert_eq!(crypt("AES", "deadbeef", "msg", true).unwrap_err(), CryptoError::InvalidKeyLength);
    let bad_key = "zz0102030405060708090a0b0c0d0e0f101112131415161718191a1b1c1d1e1f";
    let bad_key = &bad_key[..64];
    let e = crypt("AES", bad_key, "msg", true).unwrap_err();
    assert!(matches!(e, CryptoError::HexDecodeFailed { .. }));
    assert!(e.message().starts_with("Hex decode failed: "));
    let e = crypt("AES", KEY, "not hex!", false).unwrap_err();
    assert!(matches!(e, CryptoError::HexDecodeFailed { .. }));
    let e = crypt("RSA", KEY, "msg", true).unwrap_err();
    assert_eq!(e, CryptoError::CipherNotImplemented);
    assert_eq!(e.message(), "RSA encryption/decryption not implemented yet");
    assert_eq!(crypt("XTEA", KEY, "msg", true).unwrap_err(), CryptoError::UnsupportedAlgorithm);
}

#[test]
fn error_messages_carry_the_cause() {
    assert_eq!(CryptoError::InvalidKeyLength.message(), "Invalid key length for AES-256");
    let e = CryptoError::DecryptionFailed { detail: "aead::Error".to_string() };
    assert_eq!(e.message(), "Decryption failed: aead::Error");
    let e = CryptoError::HexDecodeFailed { detail: "Odd number of digits".to_string() };
    assert_eq!(e.message(), "Hex decode failed: Odd number of digits");
    let e = CollectError::RandomSource { detail: "platform fault".to_string() };
    assert_eq!(e.message(), "Failed to read from OS entropy pool: platform fault");
}
