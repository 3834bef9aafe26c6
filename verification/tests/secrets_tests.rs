use chrono::{Duration, Utc};
use spectre::secrets::crypto::{generate_salt, CryptoEngine};
use spectre::secrets::rotation::{RotationEngine, RotationPolicy, NANOS_PER_DAY};
use spectre::secrets::storage::{InMemoryStorage, SecretStorage};
use spectre::secrets::types::{
    KdfFailure, Secret, SecretEvent, SecretId, SecretMetadata, SecretsError, Timestamp,
};
use uuid::Uuid;

fn stamp(t: chrono::DateTime<Utc>) -> Timestamp {
    Timestamp { secs: t.timestamp(), nanos: t.timestamp_subsec_nanos() }
}

fn secret_updated_at(id: SecretId, updated: Timestamp) -> Secret {
    Secret {
        id,
        version: 1,
        algorithm: "aes-gcm".to_string(),
        ciphertext: vec![],
        metadata: SecretMetadata {
            created_at: updated,
            updated_at: updated,
            expires_at: None,
            rotation_policy_id: None,
        },
    }
}

fn days(n: i64) -> i128 {
    Duration::days(n).num_nanoseconds().unwrap() as i128
}

#[test]
fn test_encrypt_decrypt_roundtrip() {
    let salt = generate_salt();
    let engine = CryptoEngine::new("strong-password-123!", &salt).unwrap();
    let plaintext = b"hello world secret data";

    let ciphertext = engine.encrypt(plaintext).unwrap();
    let decrypted = engine.decrypt(&ciphertext).unwrap();

    assert_eq!(decrypted, plaintext);
}

#[test]
fn test_wrong_password_fails() {
    let salt = generate_salt();
    let engine1 = CryptoEngine::new("correct-password", &salt).unwrap();
    let engine2 = CryptoEngine::new("wrong-password", &salt).unwrap();

    let ciphertext = engine1.encrypt(b"secret").unwrap();
    let result = engine2.decrypt(&ciphertext);

    assert!(result.is_err());
}

#[test]
fn test_different_salts_produce_different_keys() {
    let salt1 = generate_salt();
    let salt2 = generate_salt();
    let engine1 = CryptoEngine::new("same-password", &salt1).unwrap();
    let engine2 = CryptoEngine::new("same-password", &salt2).unwrap();

    let ciphertext = engine1.encrypt(b"data").unwrap();
    let result = engine2.decrypt(&ciphertext);

    assert!(result.is_err());
}

#[test]
fn test_empty_salt_rejected() {
    let result = CryptoEngine::new("password", &[]);
    assert!(result.is_err());
}

#[test]
fn test_short_data_decrypt_fails() {
    let salt = generate_salt();
    let engine = CryptoEngine::new("password", &salt).unwrap();
    let result = engine.decrypt(&[0u8; 5]);
    assert!(result.is_err());
}

#[test]
fn test_secret_flow() {
    let mut storage = InMemoryStorage::new();
    let crypto = CryptoEngine::new("test-password", b"test-salt").unwrap();

    let secret_id = SecretId(Uuid::new_v4().as_u128());
    let plaintext = b"super-secret-data";

    let ciphertext = crypto.encrypt(plaintext).unwrap();

    let now = stamp(Utc::now());
    let secret = Secret {
        id: secret_id,
        version: 1,
        algorithm: "AES-GCM".to_string(),
        ciphertext,
        metadata: SecretMetadata {
            created_at: now,
            updated_at: now,
            expires_at: None,
            rotation_policy_id: None,
        },
    };

    storage.store(&secret).unwrap();

    let retrieved = storage.retrieve(&secret_id).unwrap();
    assert_eq!(retrieved.id, secret_id);

    let decrypted = crypto.decrypt(&retrieved.ciphertext).unwrap();
    assert_eq!(decrypted, plaintext);
}

#[test]
fn test_should_rotate() {
    let engine = RotationEngine::new();
    let id = SecretId(Uuid::new_v4().as_u128());

    // Case 1: Brand new secret (should not rotate)
    let secret = secret_updated_at(id, stamp(Utc::now()));
    let policy = RotationPolicy::TimeBased { duration: days(30) };
    assert!(!engine.should_rotate(&secret, &policy));

    // Case 2: Old secret (should rotate)
    let old_secret = secret_updated_at(id, stamp(Utc::now() - Duration::days(31)));
    assert!(engine.should_rotate(&old_secret, &policy));
}

#[test]
fn test_rotate_increments_version() {
    let engine = RotationEngine::new();
    let id = SecretId(Uuid::new_v4().as_u128());

    let mut secret = secret_updated_at(id, stamp(Utc::now() - Duration::days(31)));

    let event = engine.rotate(&mut secret).expect("Rotation failed");

    assert_eq!(secret.version, 2);
    // Updated at should be very recent
    let now = stamp(Utc::now());
    assert!(now.as_nanos() - secret.metadata.updated_at.as_nanos() < 1_000_000_000);

    match event {
        SecretEvent::Rotated { secret_id, old_version, new_version } => {
            assert_eq!(secret_id, id);
            assert_eq!(old_version, 1);
            assert_eq!(new_version, 2);
        }
        _ => panic!("Wrong event type"),
    }
}

#[test]
fn encryption_with_a_known_nonce() {
    let engine = CryptoEngine::new("password", b"saltsalt").unwrap();
    let nonce = [7u8; 12];
    let sealed = engine.encrypt_with_nonce(nonce, b"abc").unwrap();
    assert_eq!(sealed.len(), 12 + 3 + 16);
    assert_eq!(&sealed[..12], &nonce);
    assert_ne!(&sealed[12..15], b"abc");
    assert_eq!(engine.decrypt(&sealed).unwrap(), b"abc");
    // Same key, nonce and data: same output.
    assert_eq!(engine.encrypt_with_nonce(nonce, b"abc").unwrap(), sealed);
    // The empty message still carries a tag.
    let empty = engine.encrypt_with_nonce(nonce, b"").unwrap();
    assert_eq!(empty.len(), 28);
    assert_eq!(engine.decrypt(&empty).unwrap(), Vec::<u8>::new());
}

#[test]
fn tampered_data_is_refused() {
    let engine = CryptoEngine::new("password", b"saltsalt").unwrap();
    let mut sealed = engine.encrypt(b"payload").unwrap();
    let last = sealed.len() - 1;
    sealed[last] ^= 1;
    assert_eq!(engine.decrypt(&sealed), Err(SecretsError::Decryption));
    // Exactly a nonce, no tag.
    assert_eq!(engine.decrypt(&[0u8; 12]), Err(SecretsError::Decryption));
    assert_eq!(engine.decrypt(&[0u8; 11]), Err(SecretsError::DataTooShort));
    // A nonce and less than a tag.
    assert_eq!(engine.decrypt(&[0u8; 27]), Err(SecretsError::Decryption));
    // A strict prefix of a sealing.
    let whole = engine.encrypt(b"payload").unwrap();
    assert_eq!(engine.decrypt(&whole[..whole.len() - 1]), Err(SecretsError::Decryption));
}

#[test]
fn encryption_adds_nonce_and_tag() {
    let engine = CryptoEngine::new("password", b"saltsalt").unwrap();
    for n in [0usize, 1, 16, 100] {
        let data = vec![0x5au8; n];
        let first = engine.encrypt(&data).unwrap();
        assert_eq!(first.len(), n + 28);
        let second = engine.encrypt(&data).unwrap();
        assert_ne!(first, second);
        assert_eq!(engine.decrypt(&second).unwrap(), data);
    }
    assert_ne!(generate_salt(), generate_salt());
}

#[test]
fn key_derivation_refusals() {
    assert_eq!(CryptoEngine::new("pw", &[]).err(), Some(SecretsError::EmptySalt));
    let short = CryptoEngine::new("pw", b"short").err().unwrap();
    assert_eq!(short, SecretsError::KeyDerivation(KdfFailure::SaltTooShort));
    assert_eq!(short.to_string(), "Argon2id key derivation failed: salt is too short");
    assert!(CryptoEngine::new("pw", b"12345678").is_ok());
}

#[test]
fn secrets_error_messages() {
    assert_eq!(SecretsError::EmptySalt.to_string(), "Salt must not be empty");
    assert_eq!(SecretsError::DataTooShort.to_string(), "Data too short");
    assert_eq!(SecretsError::Decryption.to_string(), "Decryption failed: aead::Error");
    assert_eq!(SecretsError::Encryption.to_string(), "Encryption failed: aead::Error");
    assert_eq!(SecretsError::NotFound.to_string(), "Secret not found");
}

#[test]
fn rotation_at_given_times() {
    let engine = RotationEngine::new();
    let id = SecretId(42);
    let t0 = Timestamp { secs: 1_700_000_000, nanos: 0 };
    let secret = secret_updated_at(id, t0);
    let policy = RotationPolicy::TimeBased { duration: 30 * NANOS_PER_DAY };
    let just_before = Timestamp { secs: 1_700_000_000 + 30 * 86_400 - 1, nanos: 999_999_999 };
    let exactly = Timestamp { secs: 1_700_000_000 + 30 * 86_400, nanos: 0 };
    assert!(!engine.should_rotate_at(&secret, &policy, just_before));
    assert!(engine.should_rotate_at(&secret, &policy, exactly));
    assert!(!engine.should_rotate_at(&secret, &RotationPolicy::Manual, exactly));
    assert!(!engine.should_rotate(&secret, &RotationPolicy::Manual));
    assert_eq!(RotationPolicy::default(), policy);

    let mut s = secret.clone();
    let ev = engine.rotate_at(&mut s, exactly).unwrap();
    assert_eq!(ev, SecretEvent::Rotated { secret_id: id, old_version: 1, new_version: 2 });
    assert_eq!(s.metadata.updated_at, exactly);
    assert_eq!(s.metadata.created_at, t0);
    // Just rotated: not due again.
    assert!(!engine.should_rotate_at(&s, &policy, exactly));
}

#[test]
fn storage_read_write_delete() {
    let mut storage = InMemoryStorage::default();
    let a = secret_updated_at(SecretId(1), Timestamp { secs: 10, nanos: 0 });
    let mut b = secret_updated_at(SecretId(2), Timestamp { secs: 20, nanos: 5 });
    b.ciphertext = vec![1, 2, 3];
    b.metadata.rotation_policy_id = Some("monthly".to_string());

    assert_eq!(storage.retrieve(&SecretId(1)).err(), Some(SecretsError::NotFound));
    storage.store(&a).unwrap();
    storage.store(&b).unwrap();
    let got = storage.retrieve(&SecretId(2)).unwrap();
    assert_eq!(got.ciphertext, vec![1, 2, 3]);
    assert_eq!(got.metadata.rotation_policy_id.as_deref(), Some("monthly"));
    assert_eq!(got.metadata.updated_at, Timestamp { secs: 20, nanos: 5 });

    // Replacing a secret.
    let mut a2 = a.clone();
    a2.version = 9;
    storage.store(&a2).unwrap();
    assert_eq!(storage.retrieve(&SecretId(1)).unwrap().version, 9);

    storage.delete(&SecretId(1)).unwrap();
    assert_eq!(storage.retrieve(&SecretId(1)).err(), Some(SecretsError::NotFound));
    assert_eq!(storage.retrieve(&SecretId(2)).unwrap().version, 1);
    // Deleting an absent id succeeds.
    assert!(storage.delete(&SecretId(77)).is_ok());
}

#[test]
fn timestamp_nanoseconds() {
    assert_eq!(Timestamp { secs: 1, nanos: 5 }.as_nanos(), 1_000_000_005);
    assert_eq!(Timestamp { secs: -1, nanos: 0 }.as_nanos(), -1_000_000_000);
}
