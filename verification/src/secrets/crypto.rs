//! Password-based encryption of secret material: Argon2id derives a
//! 256-bit key from a password and a salt, and AES-256-GCM seals data
//! under a fresh random nonce that is prepended to the ciphertext.
use vstd::prelude::*;
use vstd::string::StringSliceAdditionalSpecFns;
use aes_gcm::aead::{Aead, KeyInit};
use rand::RngCore;
use crate::secrets::types::{KdfFailure, SecretsError};

verus! {

/// Salt length in bytes (128-bit)
pub const SALT_LEN: usize = 16;

/// Nonce length of AES-GCM in bytes (96-bit)
pub const NONCE_LEN: usize = 12;

/// Length of the AES-GCM authentication tag in bytes.
pub const TAG_LEN: usize = 16;

/// Longest plaintext AES-GCM accepts (2^36 bytes).
pub const P_MAX: u64 = 68_719_476_736;

/// Longest ciphertext body (without tag) AES-GCM accepts.
pub const C_MAX: u64 = 68_719_476_752;

/// Longest password or salt Argon2 accepts.
pub const ARGON2_MAX_LEN: usize = 0xFFFF_FFFF;

/// Shortest salt Argon2 accepts.
pub const ARGON2_MIN_SALT_LEN: usize = 8;

/// The 32-byte key Argon2id (version 0x13, 19 MiB, 2 passes, 1 lane)
/// derives from a password and a salt.
pub uninterp spec fn argon2id_key(password: Seq<u8>, salt: Seq<u8>) -> Seq<u8>;

/// The AES-256-GCM sealing (ciphertext followed by the 16-byte tag) of
/// `plaintext` under `key` and `nonce`, without associated data.
pub uninterp spec fn aes256gcm_seal(key: Seq<u8>, nonce: Seq<u8>, plaintext: Seq<u8>) -> Seq<u8>;

/// The AES-256-GCM opening of `ciphertext` (body followed by tag) under
/// `key` and `nonce`: the plaintext, or `None` when authentication fails.
pub uninterp spec fn aes256gcm_open(key: Seq<u8>, nonce: Seq<u8>, ciphertext: Seq<u8>) -> Option<Seq<u8>>;

/// What Argon2's `hash_password_into` reports for these lengths: the
/// checks of its `verify_inputs` in their order.
pub open spec fn kdf_refusal(password_len: nat, salt_len: nat) -> Option<KdfFailure> {
    if password_len > ARGON2_MAX_LEN {
        Some(KdfFailure::PwdTooLong)
    } else if salt_len < ARGON2_MIN_SALT_LEN {
        Some(KdfFailure::SaltTooShort)
    } else if salt_len > ARGON2_MAX_LEN {
        Some(KdfFailure::SaltTooLong)
    } else {
        None
    }
}

/// `argon2::Argon2::default().hash_password_into` with a 32-byte output,
/// its error turned into [`KdfFailure`].
/// Claimed: with the default parameters (output length unset, so 32 is
/// within 4..2^32) the only refusals are those of `verify_inputs` (see
/// [`kdf_refusal`]); otherwise the key is [`argon2id_key`] of the inputs.
#[verifier::external_body]
fn argon2id_derive(password: &[u8], salt: &[u8]) -> (r: Result<[u8; 32], KdfFailure>)
    ensures
        match kdf_refusal(password@.len(), salt@.len()) {
            Some(f) => r == Err::<[u8; 32], KdfFailure>(f),
            None => r is Ok && r->Ok_0@ == argon2id_key(password@, salt@),
        },
{
    let mut key = [0u8; 32];
    match argon2::Argon2::default().hash_password_into(password, salt, &mut key) {
        Ok(()) => Ok(key),
        Err(argon2::Error::PwdTooLong) => Err(KdfFailure::PwdTooLong),
        Err(argon2::Error::SaltTooShort) => Err(KdfFailure::SaltTooShort),
        Err(argon2::Error::SaltTooLong) => Err(KdfFailure::SaltTooLong),
        Err(e) => Err(KdfFailure::Other(e.to_string())),
    }
}

/// `Aes256Gcm::encrypt` (via `Aead`) with an empty associated data.
/// Claimed: it refuses exactly plaintexts longer than `P_MAX`; otherwise
/// the result is the sealing, 16 bytes longer than the plaintext.
#[verifier::external_body]
fn aes_gcm_seal(key: &[u8; 32], nonce: &[u8; 12], plaintext: &[u8]) -> (r: Option<Vec<u8>>)
    ensures
        r is Some <==> plaintext@.len() <= P_MAX,
        r is Some ==> r->0@ == aes256gcm_seal(key@, nonce@, plaintext@),
        r is Some ==> r->0@.len() == plaintext@.len() + TAG_LEN,
{
    let cipher = aes_gcm::Aes256Gcm::new(aes_gcm::Key::<aes_gcm::Aes256Gcm>::from_slice(key));
    cipher.encrypt(aes_gcm::Nonce::from_slice(nonce), plaintext).ok()
}

/// `Aes256Gcm::decrypt` (via `Aead`) with an empty associated data.
/// Claimed: the result is the opening; inputs shorter than a tag, or
/// with a body longer than `C_MAX`, are refused; and, as for every AEAD,
/// opening what sealing produced under the same key and nonce gives the
/// plaintext back.
#[verifier::external_body]
fn aes_gcm_open(key: &[u8; 32], nonce: &[u8; 12], ciphertext: &[u8]) -> (r: Option<Vec<u8>>)
    ensures
        match r {
            Some(p) => aes256gcm_open(key@, nonce@, ciphertext@) == Some(p@),
            None => aes256gcm_open(key@, nonce@, ciphertext@) is None,
        },
        ciphertext@.len() < TAG_LEN ==> r is None,
        ciphertext@.len() > C_MAX + TAG_LEN ==> r is None,
        forall|p: Seq<u8>|
            p.len() <= P_MAX && #[trigger] aes256gcm_seal(key@, nonce@, p) == ciphertext@
                ==> r is Some && r->0@ == p,
{
    let cipher = aes_gcm::Aes256Gcm::new(aes_gcm::Key::<aes_gcm::Aes256Gcm>::from_slice(key));
    cipher.decrypt(aes_gcm::Nonce::from_slice(nonce), ciphertext).ok()
}

/// `rand::rngs::OsRng::fill_bytes` on a new buffer of `n` bytes. Claimed:
/// only the length; the bytes are random (it panics if the operating
/// system's generator fails).
#[verifier::external_body]
fn os_random_bytes(n: usize) -> (r: Vec<u8>)
    ensures
        r@.len() == n,
{
    let mut v = vec![0u8; n];
    rand::rngs::OsRng.fill_bytes(&mut v);
    v
}

/// Generate a cryptographically secure random salt
pub fn generate_salt() -> (r: [u8; SALT_LEN])
{
    let bytes = os_random_bytes(SALT_LEN);
    let mut salt = [0u8; SALT_LEN];
    let mut i: usize = 0;
    while i < SALT_LEN
        invariant
            bytes@.len() == SALT_LEN,
            i <= SALT_LEN,
            forall|k: int| 0 <= k < i ==> #[trigger] salt@[k] == bytes@[k],
        decreases SALT_LEN - i,
    {
        salt[i] = bytes[i];
        i = i + 1;
    }
    salt
}

/// AES-256-GCM engine keyed by a password-derived key.
pub struct CryptoEngine {
    key: [u8; 32],
}

impl View for CryptoEngine {
    type V = Seq<u8>;

    closed spec fn view(&self) -> Seq<u8> {
        self.key@
    }
}

/// What `encrypt` produces for `data` under `key` when it draws `nonce`.
pub open spec fn sealed_with(key: Seq<u8>, nonce: Seq<u8>, data: Seq<u8>) -> Seq<u8> {
    nonce + aes256gcm_seal(key, nonce, data)
}

impl CryptoEngine {
    /// Derive a 256-bit key from password and salt using Argon2id.
    pub fn new(password: &str, salt: &[u8]) -> (r: Result<Self, SecretsError>)
        ensures
            salt@.len() == 0 ==> r == Err::<Self, SecretsError>(SecretsError::EmptySalt),
            salt@.len() > 0 ==> match kdf_refusal(password.spec_bytes().len(), salt@.len()) {
                Some(f) => r == Err::<Self, SecretsError>(SecretsError::KeyDerivation(f)),
                None => r is Ok && r->Ok_0@ == argon2id_key(password.spec_bytes(), salt@),
            },
    {
        if salt.len() == 0 {
            return Err(SecretsError::EmptySalt);
        }
        match argon2id_derive(password.as_bytes(), salt) {
            Ok(key) => Ok(CryptoEngine { key }),
            Err(f) => Err(SecretsError::KeyDerivation(f)),
        }
    }

    /// Encrypt `data` under the given nonce: the nonce followed by the
    /// AES-GCM sealing of the data.
    pub fn encrypt_with_nonce(&self, nonce: [u8; NONCE_LEN], data: &[u8]) -> (r: Result<Vec<u8>, SecretsError>)
        ensures
            data@.len() <= P_MAX ==> r is Ok && r->Ok_0@ == sealed_with(self@, nonce@, data@),
            data@.len() > P_MAX ==> r == Err::<Vec<u8>, SecretsError>(SecretsError::Encryption),
            r is Ok ==> r->Ok_0@.len() == NONCE_LEN + data@.len() + TAG_LEN,
    {
        let sealed = match aes_gcm_seal(&self.key, &nonce, data) {
            Some(c) => c,
            None => {
                return Err(SecretsError::Encryption);
            },
        };
        let mut result: Vec<u8> = Vec::new();
        let mut i: usize = 0;
        while i < NONCE_LEN
            invariant
                i <= NONCE_LEN,
                result@ == nonce@.subrange(0, i as int),
            decreases NONCE_LEN - i,
        {
            result.push(nonce[i]);
            i = i + 1;
            assert(result@ =~= nonce@.subrange(0, i as int));
        }
        let mut j: usize = 0;
        while j < sealed.len()
            invariant
                j <= sealed@.len(),
                result@ == nonce@ + sealed@.subrange(0, j as int),
            decreases sealed@.len() - j,
        {
            result.push(sealed[j]);
            j = j + 1;
            assert(result@ =~= nonce@ + sealed@.subrange(0, j as int));
        }
        assert(sealed@.subrange(0, sealed@.len() as int) =~= sealed@);
        Ok(result)
    }

    /// Encrypt `data` under a fresh random nonce, which is prepended to
    /// the ciphertext.
    pub fn encrypt(&self, data: &[u8]) -> (r: Result<Vec<u8>, SecretsError>)
        ensures
            data@.len() <= P_MAX ==> r is Ok && exists|nonce: Seq<u8>|
                nonce.len() == NONCE_LEN && r->Ok_0@ == #[trigger] sealed_with(self@, nonce, data@),
            data@.len() > P_MAX ==> r == Err::<Vec<u8>, SecretsError>(SecretsError::Encryption),
            data@.len() <= P_MAX ==> r->Ok_0@.len() == NONCE_LEN + data@.len() + TAG_LEN,
    {
        let bytes = os_random_bytes(NONCE_LEN);
        let mut nonce = [0u8; NONCE_LEN];
        let mut i: usize = 0;
        while i < NONCE_LEN
            invariant
                bytes@.len() == NONCE_LEN,
                i <= NONCE_LEN,
                forall|k: int| 0 <= k < i ==> #[trigger] nonce@[k] == bytes@[k],
            decreases NONCE_LEN - i,
        {
            nonce[i] = bytes[i];
            i = i + 1;
        }
        let r = self.encrypt_with_nonce(nonce, data);
        proof {
            if data@.len() <= P_MAX {
                assert(nonce@.len() == NONCE_LEN);
                assert(r->Ok_0@ == sealed_with(self@, nonce@, data@));
            }
        }
        r
    }

    /// Decrypt data produced by [`CryptoEngine::encrypt`]: the first
    /// twelve bytes are the nonce, the rest the sealed data. Whatever
    /// `encrypt` produced under the same key decrypts to the plaintext it was given.
    pub fn decrypt(&self, data: &[u8]) -> (r: Result<Vec<u8>, SecretsError>)
        ensures
            data@.len() < NONCE_LEN ==> r == Err::<Vec<u8>, SecretsError>(SecretsError::DataTooShort),
            data@.len() < NONCE_LEN + TAG_LEN ==> r is Err,
            data@.len() >= NONCE_LEN ==> match aes256gcm_open(
                self@,
                data@.subrange(0, NONCE_LEN as int),
                data@.subrange(NONCE_LEN as int, data@.len() as int),
            ) {
                Some(p) => r is Ok && r->Ok_0@ == p,
                None => r == Err::<Vec<u8>, SecretsError>(SecretsError::Decryption),
            },
            forall|nonce: Seq<u8>, p: Seq<u8>|
                nonce.len() == NONCE_LEN && p.len() <= P_MAX && data@ == #[trigger] sealed_with(self@, nonce, p)
                    ==> r is Ok && r->Ok_0@ == p,
    {
        if data.len() < NONCE_LEN {
            return Err(SecretsError::DataTooShort);
        }
        let mut nonce = [0u8; NONCE_LEN];
        let mut i: usize = 0;
        while i < NONCE_LEN
            invariant
                data@.len() >= NONCE_LEN,
                i <= NONCE_LEN,
                forall|k: int| 0 <= k < i ==> #[trigger] nonce@[k] == data@[k],
            decreases NONCE_LEN - i,
        {
            nonce[i] = data[i];
            i = i + 1;
        }
        let mut body: Vec<u8> = Vec::new();
        let mut j: usize = NONCE_LEN;
        while j < data.len()
            invariant
                NONCE_LEN <= j <= data@.len(),
                body@ == data@.subrange(NONCE_LEN as int, j as int),
            decreases data@.len() - j,
        {
            body.push(data[j]);
            j = j + 1;
            assert(body@ =~= data@.subrange(NONCE_LEN as int, j as int));
        }
        assert(nonce@ =~= data@.subrange(0, NONCE_LEN as int));
        let opened = aes_gcm_open(&self.key, &nonce, body.as_slice());
        proof {
            assert forall|n: Seq<u8>, p: Seq<u8>|
                n.len() == NONCE_LEN && p.len() <= P_MAX && data@ == #[trigger] sealed_with(self@, n, p)
                implies opened is Some && opened->0@ == p by {
                assert(data@.subrange(0, NONCE_LEN as int) =~= n);
                assert(data@.subrange(NONCE_LEN as int, data@.len() as int) =~= aes256gcm_seal(self@, n, p));
            }
        }
        match opened {
            Some(p) => Ok(p),
            None => Err(SecretsError::Decryption),
        }
    }
}

} // verus!
