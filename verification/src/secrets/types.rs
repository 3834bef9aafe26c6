//! Secrets, their metadata, the events of their lifecycle, and the
//! errors of the secrets engine.
use vstd::prelude::*;
use crate::config::{copy_opt, opt_chars};

verus! {

/// Identifier of a secret: the 128-bit value of a UUID.
#[derive(Debug, Clone, Copy, PartialEq, Eq, Structural, Hash)]
pub struct SecretId(pub u128);

/// A UTC instant: whole seconds since the Unix epoch and the
/// nanoseconds since the last second boundary (more than 999,999,999
/// only during a leap second).
#[derive(Debug, Clone, Copy, PartialEq, Eq, Structural)]
pub struct Timestamp {
    pub secs: i64,
    pub nanos: u32,
}

impl Timestamp {
    /// Nanoseconds since the Unix epoch.
    pub open spec fn total_nanos(self) -> int {
        self.secs * 1_000_000_000 + self.nanos
    }

    /// Nanoseconds since the Unix epoch, computed.
    pub fn as_nanos(&self) -> (r: i128)
        ensures
            r == self.total_nanos(),
    {
        (self.secs as i128) * 1_000_000_000 + (self.nanos as i128)
    }
}

/// Metadata of a secret
#[derive(Debug, Clone)]
pub struct SecretMetadata {
    pub created_at: Timestamp,
    pub updated_at: Timestamp,
    pub expires_at: Option<Timestamp>,
    pub rotation_policy_id: Option<String>,
}

/// An encrypted secret with its version and metadata.
#[derive(Debug, Clone)]
pub struct Secret {
    pub id: SecretId,
    pub version: u32,
    pub algorithm: String,
    pub ciphertext: Vec<u8>,
    pub metadata: SecretMetadata,
}

/// The value of a secret: every field, with text and bytes as sequences.
pub struct SecretView {
    pub id: SecretId,
    pub version: u32,
    pub algorithm: Seq<char>,
    pub ciphertext: Seq<u8>,
    pub created_at: Timestamp,
    pub updated_at: Timestamp,
    pub expires_at: Option<Timestamp>,
    pub rotation_policy_id: Option<Seq<char>>,
}

impl View for Secret {
    type V = SecretView;

    open spec fn view(&self) -> SecretView {
        SecretView {
            id: self.id,
            version: self.version,
            algorithm: self.algorithm@,
            ciphertext: self.ciphertext@,
            created_at: self.metadata.created_at,
            updated_at: self.metadata.updated_at,
            expires_at: self.metadata.expires_at,
            rotation_policy_id: opt_chars(self.metadata.rotation_policy_id),
        }
    }
}

impl Secret {
    /// A copy of the secret with the same value.
    pub fn duplicate(&self) -> (r: Secret)
        ensures
            r@ == self@,
    {
        let mut bytes: Vec<u8> = Vec::new();
        let mut i: usize = 0;
        while i < self.ciphertext.len()
            invariant
                i <= self.ciphertext@.len(),
                bytes@ == self.ciphertext@.subrange(0, i as int),
            decreases self.ciphertext@.len() - i,
        {
            bytes.push(self.ciphertext[i]);
            i = i + 1;
            assert(bytes@ =~= self.ciphertext@.subrange(0, i as int));
        }
        assert(bytes@ =~= self.ciphertext@);
        Secret {
            id: self.id,
            version: self.version,
            algorithm: self.algorithm.clone(),
            ciphertext: bytes,
            metadata: SecretMetadata {
                created_at: self.metadata.created_at,
                updated_at: self.metadata.updated_at,
                expires_at: self.metadata.expires_at,
                rotation_policy_id: copy_opt(&self.metadata.rotation_policy_id),
            },
        }
    }
}

/// Events of a secret's lifecycle.
#[derive(Debug, Clone, Copy, PartialEq, Eq, Structural)]
pub enum SecretEvent {
    Created { secret_id: SecretId, version: u32 },
    Rotated { secret_id: SecretId, old_version: u32, new_version: u32 },
    Deleted { secret_id: SecretId },
}

/// Why Argon2 refused to derive a key.
#[derive(Debug, Clone, PartialEq, Eq)]
pub enum KdfFailure {
    PwdTooLong,
    SaltTooShort,
    SaltTooLong,
    /// Any other refusal, with Argon2's message.
    Other(String),
}

/// Errors of the secrets engine.
#[derive(Debug, Clone, PartialEq, Eq)]
pub enum SecretsError {
    /// The salt given for key derivation is empty.
    EmptySalt,
    /// Argon2id refused to derive the key.
    KeyDerivation(KdfFailure),
    /// AES-GCM refused to encrypt (the data is too long).
    Encryption,
    /// The data to decrypt is shorter than a nonce.
    DataTooShort,
    /// AES-GCM refused to decrypt (wrong key or tampered data).
    Decryption,
    /// No secret with the requested id is stored.
    NotFound,
}

impl KdfFailure {
    pub open spec fn message(self) -> Seq<char> {
        match self {
            KdfFailure::PwdTooLong => "password is too long"@,
            KdfFailure::SaltTooShort => "salt is too short"@,
            KdfFailure::SaltTooLong => "salt is too long"@,
            KdfFailure::Other(m) => m@,
        }
    }
}

impl SecretsError {
    pub open spec fn message(self) -> Seq<char> {
        match self {
            SecretsError::EmptySalt => "Salt must not be empty"@,
            SecretsError::KeyDerivation(k) => "Argon2id key derivation failed: "@ + k.message(),
            SecretsError::Encryption => "Encryption failed: aead::Error"@,
            SecretsError::DataTooShort => "Data too short"@,
            SecretsError::Decryption => "Decryption failed: aead::Error"@,
            SecretsError::NotFound => "Secret not found"@,
        }
    }

    /// The error's message, as its `Display` rendering shows it.
    pub fn to_string(&self) -> (r: String)
        ensures
            r@ == self.message(),
    {
        match self {
            SecretsError::EmptySalt => String::from_str("Salt must not be empty"),
            SecretsError::KeyDerivation(k) => {
                let mut r = String::from_str("Argon2id key derivation failed: ");
                match k {
                    KdfFailure::PwdTooLong => r.append("password is too long"),
                    KdfFailure::SaltTooShort => r.append("salt is too short"),
                    KdfFailure::SaltTooLong => r.append("salt is too long"),
                    KdfFailure::Other(m) => r.append(m.as_str()),
                }
                r
            },
            SecretsError::Encryption => String::from_str("Encryption failed: aead::Error"),
            SecretsError::DataTooShort => String::from_str("Data too short"),
            SecretsError::Decryption => String::from_str("Decryption failed: aead::Error"),
            SecretsError::NotFound => String::from_str("Secret not found"),
        }
    }
}

} // verus!
