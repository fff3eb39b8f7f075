use std::sync::Arc;

use base64::engine::general_purpose::STANDARD as BASE64;
use base64::Engine as _;
use secrecy::{ExposeSecret, SecretString};

use rust_basics::secrets::cache::SecretCache;
use rust_basics::secrets::{constant_time_eq, open, seal, seal_with_nonce, SealingKey, SecretsError};
use rust_basics::strmap::StrMap;

#[test]
fn seal_open_round_trip() {
    let key = SealingKey::from_bytes([42u8; 32]);
    let sealed = seal(&key, b"top secret");
    assert_ne!(&sealed[12..], b"top secret", "ciphertext is not plaintext");
    assert_eq!(open(&key, &sealed).unwrap(), b"top secret");
}

#[test]
fn wrong_key_fails_to_open() {
    let sealed = seal(&SealingKey::from_bytes([1u8; 32]), b"x");
    assert!(matches!(
        open(&SealingKey::from_bytes([2u8; 32]), &sealed),
        Err(SecretsError::Decrypt)
    ));
}

#[test]
fn distinct_nonces_make_distinct_ciphertexts() {
    let key = SealingKey::from_bytes([9u8; 32]);
    assert_ne!(
        seal(&key, b"same"),
        seal(&key, b"same"),
        "random nonce per seal"
    );
}

#[test]
fn base64_key_round_trips() {
    let raw = [3u8; 32];
    let b64 = BASE64.encode(raw);
    let key = SealingKey::from_base64(&b64).unwrap();
    let sealed = seal(&key, b"hi");
    assert_eq!(open(&SealingKey::from_bytes(raw), &sealed).unwrap(), b"hi");
}

#[test]
fn base64_key_ignores_surrounding_white_space() {
    let raw = [5u8; 32];
    let b64 = format!("  {}\n", BASE64.encode(raw));
    let key = SealingKey::from_base64(&b64).unwrap();
    let sealed = seal(&key, b"ok");
    assert_eq!(open(&SealingKey::from_bytes(raw), &sealed).unwrap(), b"ok");
}

#[test]
fn bad_key_length_is_rejected() {
    assert!(matches!(
        SealingKey::from_base64(&BASE64.encode([0u8; 16])),
        Err(SecretsError::KeyLength(16))
    ));
}

#[test]
fn invalid_base64_is_rejected() {
    assert!(matches!(
        SealingKey::from_base64("not base64!"),
        Err(SecretsError::Base64(_))
    ));
}

#[test]
fn short_blob_is_malformed() {
    let key = SealingKey::from_bytes([7u8; 32]);
    assert!(matches!(open(&key, b"short"), Err(SecretsError::Malformed("shorter than nonce"))));
}

#[test]
fn tampered_blob_fails_to_open() {
    let key = SealingKey::from_bytes([7u8; 32]);
    let mut sealed = seal(&key, b"hunter2");
    let last = sealed.len() - 1;
    sealed[last] ^= 1;
    assert!(matches!(open(&key, &sealed), Err(SecretsError::Decrypt)));
}

#[test]
fn sealing_with_a_given_nonce_prepends_it() {
    let key = SealingKey::from_bytes([7u8; 32]);
    let nonce = [1u8; 12];
    let a = seal_with_nonce(&key, &nonce, b"hunter2");
    let b = seal_with_nonce(&key, &nonce, b"hunter2");
    assert_eq!(a, b);
    assert_eq!(&a[..12], &nonce);
    assert_eq!(a.len(), 12 + 7 + 16);
    assert_eq!(open(&key, &a).unwrap(), b"hunter2");
}

#[test]
fn constant_time_eq_matches_semantics() {
    assert!(constant_time_eq(b"abc", b"abc"));
    assert!(!constant_time_eq(b"abc", b"abd"));
    assert!(!constant_time_eq(b"abc", b"abcd"));
}

#[test]
fn insert_get_and_replace() {
    let mut cache = SecretCache::new();
    assert!(cache.is_empty());

    cache.insert("api_key", SecretString::from("abc123".to_owned()));
    assert_eq!(cache.len(), 1);
    assert_eq!(cache.get("api_key").unwrap().expose_secret(), "abc123");
    assert!(cache.get("missing").is_none());

    let mut fresh = StrMap::new();
    fresh.insert(
        "other".to_owned(),
        Arc::new(SecretString::from("z".to_owned())),
    );
    cache.replace(fresh);
    assert!(
        cache.get("api_key").is_none(),
        "replace swapped the whole map"
    );
    assert_eq!(cache.get("other").unwrap().expose_secret(), "z");
}

#[test]
fn a_copy_shares_the_secrets_and_updates_apart() {
    let mut cache = SecretCache::new();
    cache.insert("api_key", SecretString::from("abc123".to_owned()));
    let mut next = cache.copy();
    assert!(Arc::ptr_eq(&cache.get("api_key").unwrap(), &next.get("api_key").unwrap()));
    next.insert("other", SecretString::from("z".to_owned()));
    assert_eq!(next.len(), 2);
    assert_eq!(cache.len(), 1);
    assert!(cache.get("other").is_none());
}

#[test]
fn secrets_error_messages() {
    assert_eq!(
        SecretsError::Decrypt.to_string(),
        "decryption failed (wrong key or corrupted ciphertext)"
    );
    assert_eq!(
        SecretsError::Malformed("shorter than nonce").to_string(),
        "malformed sealed data: shorter than nonce"
    );
    assert_eq!(
        SecretsError::KeyLength(16).to_string(),
        "invalid key length: expected 32 bytes, got 16"
    );
    let b64 = SealingKey::from_base64("not base64!").err().unwrap();
    assert!(b64.to_string().starts_with("base64 decode: "));
    let io = SecretsError::Io(std::io::Error::other("disk gone"));
    assert_eq!(io.to_string(), "io: disk gone");
}
