use aes_gcm::aead::Aead;
use aes_gcm::KeyInit;
use base64::Engine;
use gitlog_ai_reporter::error::CryptoError;
use gitlog_ai_reporter::services::encryption_service::APP_IDENTIFIER;
use gitlog_ai_reporter::services::{EncryptionKey, EncryptionService, Nonce};
use sha2::Digest;

fn key(fill: u8) -> EncryptionKey {
    EncryptionKey::from_bytes(vec![fill; 32]).unwrap()
}

fn nonce(fill: u8) -> Nonce {
    Nonce::from_bytes(vec![fill; 12]).unwrap()
}

fn decode(text: &str) -> Vec<u8> {
    base64::engine::general_purpose::STANDARD.decode(text).unwrap()
}

fn encode(bytes: &[u8]) -> String {
    base64::engine::general_purpose::STANDARD.encode(bytes)
}

#[test]
fn test_encrypt_decrypt() {
    let plaintext = "sk-1234567890abcdef";
    let encrypted = EncryptionService::encrypt(plaintext).unwrap();
    let decrypted = EncryptionService::decrypt(&encrypted).unwrap();
    assert_eq!(plaintext, decrypted);
}

#[test]
fn test_different_nonces() {
    let plaintext = "test-key";
    let encrypted1 = EncryptionService::encrypt(plaintext).unwrap();
    let encrypted2 = EncryptionService::encrypt(plaintext).unwrap();
    // Different nonces should produce different ciphertexts
    assert_ne!(encrypted1, encrypted2);
    // But both should decrypt to the same plaintext
    assert_eq!(
        EncryptionService::decrypt(&encrypted1).unwrap(),
        EncryptionService::decrypt(&encrypted2).unwrap()
    );
}

#[test]
fn both_encryptions_decrypt_to_the_plaintext() {
    let first = EncryptionService::encrypt("test-key").unwrap();
    let second = EncryptionService::encrypt("test-key").unwrap();
    assert_eq!(EncryptionService::decrypt(&first).unwrap(), "test-key");
    assert_eq!(EncryptionService::decrypt(&second).unwrap(), "test-key");
}

#[test]
fn round_trip_holds_for_printable_and_other_text() {
    let k = key(7);
    let texts = [
        "",
        "a",
        "sk-1234567890abcdef",
        " !\"#$%&'()*+,-./0123456789:;<=>?@[\\]^_`{|}~",
        "密钥 🔑 clé",
        "line one\nline two\ttabbed",
    ];
    for (i, text) in texts.iter().enumerate() {
        let n = nonce(i as u8);
        let encrypted = EncryptionService::encrypt_with(&k, &n, text).unwrap();
        assert_eq!(EncryptionService::decrypt_with(&k, &encrypted).unwrap(), *text);
    }
}

#[test]
fn encryption_with_a_given_nonce_is_fixed() {
    let first = EncryptionService::encrypt_with(&key(1), &nonce(2), "secret").unwrap();
    let second = EncryptionService::encrypt_with(&key(1), &nonce(2), "secret").unwrap();
    assert_eq!(first, second);
    let other = EncryptionService::encrypt_with(&key(1), &nonce(3), "secret").unwrap();
    assert_ne!(first, other);
}

#[test]
fn payload_is_nonce_then_ciphertext_then_tag() {
    let encrypted = EncryptionService::encrypt_with(&key(1), &nonce(9), "secret").unwrap();
    let payload = decode(&encrypted);
    assert_eq!(payload.len(), 12 + 6 + 16);
    assert_eq!(&payload[..12], &[9u8; 12][..]);
    assert_ne!(&payload[12..18], b"secret");
    assert_eq!(encrypted.len(), (payload.len() + 2) / 3 * 4);
}

#[test]
fn encryption_of_the_empty_text_has_forty_characters() {
    let with_key = EncryptionService::encrypt_with(&key(1), &nonce(2), "").unwrap();
    let with_machine = EncryptionService::encrypt("").unwrap();
    for encrypted in [with_key.clone(), with_machine.clone()] {
        assert_eq!(encrypted.len(), 40);
        assert_eq!(decode(&encrypted).len(), 28);
    }
    assert_eq!(EncryptionService::decrypt_with(&key(1), &with_key), Ok(String::new()));
    assert_eq!(EncryptionService::decrypt(&with_machine), Ok(String::new()));
}

#[test]
fn payload_is_twenty_eight_bytes_longer_than_the_plaintext() {
    for text in ["a", "ab", "abc", "sk-1234567890abcdef", "密钥 🔑 clé"] {
        let with_key = EncryptionService::encrypt_with(&key(3), &nonce(4), text).unwrap();
        let with_machine = EncryptionService::encrypt(text).unwrap();
        for encrypted in [with_key, with_machine] {
            assert_eq!(decode(&encrypted).len(), text.len() + 28);
            assert_eq!(encrypted.len(), (text.len() + 28 + 2) / 3 * 4);
            assert_ne!(encrypted, text);
        }
    }
}

#[test]
fn flipping_any_byte_makes_decryption_fail() {
    let k = key(5);
    let encrypted = EncryptionService::encrypt_with(&k, &nonce(6), "sk-1234567890abcdef").unwrap();
    let payload = decode(&encrypted);
    for i in 0..payload.len() {
        let mut tampered = payload.clone();
        tampered[i] ^= 0x01;
        let outcome = EncryptionService::decrypt_with(&k, &encode(&tampered));
        assert_eq!(outcome, Err(CryptoError::Authentication));
    }
}

#[test]
fn decrypting_under_another_key_fails() {
    let encrypted = EncryptionService::encrypt_with(&key(1), &nonce(1), "secret").unwrap();
    assert_eq!(
        EncryptionService::decrypt_with(&key(2), &encrypted),
        Err(CryptoError::Authentication)
    );
}

#[test]
fn text_that_is_not_base64_is_rejected() {
    assert_eq!(
        EncryptionService::decrypt_with(&key(1), "this is not base64!"),
        Err(CryptoError::Encoding)
    );
    assert_eq!(EncryptionService::decrypt("sk-plain-text-key"), Err(CryptoError::Encoding));
}

#[test]
fn payload_shorter_than_a_nonce_is_rejected() {
    assert_eq!(
        EncryptionService::decrypt_with(&key(1), &encode(&[1, 2, 3, 4, 5])),
        Err(CryptoError::TooShort)
    );
    assert_eq!(EncryptionService::decrypt_with(&key(1), ""), Err(CryptoError::TooShort));
    assert_eq!(
        EncryptionService::decrypt_with(&key(1), &encode(&[0u8; 11])),
        Err(CryptoError::TooShort)
    );
}

#[test]
fn payload_of_a_nonce_alone_has_no_tag() {
    assert_eq!(
        EncryptionService::decrypt_with(&key(1), &encode(&[0u8; 12])),
        Err(CryptoError::Authentication)
    );
}

#[test]
fn sealed_bytes_that_are_not_text_are_rejected() {
    let raw_key = [3u8; 32];
    let raw_nonce = [4u8; 12];
    let cipher = aes_gcm::Aes256Gcm::new(aes_gcm::Key::<aes_gcm::Aes256Gcm>::from_slice(&raw_key));
    let sealed = cipher
        .encrypt(aes_gcm::Nonce::from_slice(&raw_nonce), &[0xff_u8, 0xfe][..])
        .unwrap();
    let mut payload = raw_nonce.to_vec();
    payload.extend_from_slice(&sealed);
    assert_eq!(
        EncryptionService::decrypt_with(&key(3), &encode(&payload)),
        Err(CryptoError::NotText)
    );
}

#[test]
fn derived_key_is_the_digest_of_identifier_and_application() {
    let derived = EncryptionKey::derive("machine-0001");
    let mut hasher = sha2::Sha256::new();
    hasher.update(b"machine-0001");
    hasher.update(APP_IDENTIFIER.as_bytes());
    let expected = EncryptionKey::from_bytes(hasher.finalize().to_vec()).unwrap();
    let encrypted = EncryptionService::encrypt_with(&derived, &nonce(1), "secret").unwrap();
    assert_eq!(EncryptionService::decrypt_with(&expected, &encrypted).unwrap(), "secret");
    let other = EncryptionKey::derive("machine-0002");
    assert_eq!(
        EncryptionService::decrypt_with(&other, &encrypted),
        Err(CryptoError::Authentication)
    );
}

#[test]
fn keys_and_nonces_have_fixed_sizes() {
    assert!(EncryptionKey::from_bytes(vec![0; 31]).is_none());
    assert!(EncryptionKey::from_bytes(vec![0; 33]).is_none());
    assert!(EncryptionKey::from_bytes(vec![0; 32]).is_some());
    assert!(Nonce::from_bytes(vec![0; 11]).is_none());
    assert!(Nonce::from_bytes(vec![0; 13]).is_none());
    assert!(Nonce::from_bytes(vec![0; 12]).is_some());
}

#[test]
fn answer_of_the_machine_becomes_the_outcome() {
    assert_eq!(
        EncryptionService::machine_id_outcome(Some("0123456789abcdef".to_string())),
        Ok("0123456789abcdef".to_string())
    );
    assert_eq!(EncryptionService::machine_id_outcome(Some(String::new())), Ok(String::new()));
    assert_eq!(EncryptionService::machine_id_outcome(None), Err(CryptoError::KeyDerivation));
}

#[test]
fn machine_identifier_is_stable() {
    let first = EncryptionService::get_machine_id().unwrap();
    let second = EncryptionService::get_machine_id().unwrap();
    assert!(!first.is_empty());
    assert_eq!(first, second);
}

#[test]
fn crypto_errors_describe_themselves() {
    assert_eq!(CryptoError::KeyDerivation.message(), "Failed to get machine ID");
    assert_eq!(CryptoError::Encryption.message(), "Encryption failed");
    assert_eq!(CryptoError::Encoding.message(), "Base64 decode failed");
    assert_eq!(CryptoError::TooShort.message(), "Invalid encrypted data");
    assert_eq!(CryptoError::Authentication.message(), "Decryption failed");
    assert_eq!(CryptoError::NotText.message(), "UTF-8 decode failed");
}
