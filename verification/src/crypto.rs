//! Sealing stored event payloads with AES-256-GCM under the store's key.

use aes_gcm::aead::{Aead, KeyInit};
use vstd::prelude::*;

use crate::error::AppError;

verus! {

/// The length of an event encryption key in bytes.
pub const EVENT_ENCRYPTION_KEY_LEN: usize = 32;

/// The length of the nonce written in front of each sealed payload.
pub const NONCE_LEN: usize = 12;

/// The version of a stored event record whose change is sealed.
pub const SEALED_EVENT_VERSION: u8 = 1;

/// A name for the ciphertext, tag included, that AES-256-GCM makes of `plaintext` under
/// `key` and `nonce`, with no associated data.
pub uninterp spec fn gcm_seal(key: Seq<u8>, nonce: Seq<u8>, plaintext: Seq<u8>) -> Seq<u8>;

/// A name for what AES-256-GCM decryption makes of `ciphertext` under `key` and `nonce`,
/// with no associated data: the plaintext, or nothing when the tag does not check.
pub uninterp spec fn gcm_open(key: Seq<u8>, nonce: Seq<u8>, ciphertext: Seq<u8>) -> Option<Seq<u8>>;

/// Encrypts `plaintext` with `aes_gcm::Aes256Gcm` (`Aead::encrypt`), the cipher being
/// made from `key` by `KeyInit::new_from_slice`. As the crate's source shows, only a
/// plaintext longer than 2^36 bytes is refused, the ciphertext is the plaintext's length
/// plus the 16-byte tag, and (AEAD correctness) decrypting it under the same key and nonce
/// gives the plaintext back.
#[verifier::external_body]
fn aes_gcm_seal(key: &[u8], nonce: &[u8], plaintext: &[u8]) -> (r: Option<Vec<u8>>)
    requires
        key@.len() == 32,
        nonce@.len() == 12,
    ensures
        r is Some == (plaintext@.len() <= 0x10_0000_0000),
        r matches Some(c) ==> c@ == gcm_seal(key@, nonce@, plaintext@)
            && c@.len() == plaintext@.len() + 16
            && gcm_open(key@, nonce@, c@) == Some(plaintext@),
{
    match aes_gcm::Aes256Gcm::new_from_slice(key) {
        Ok(cipher) => cipher.encrypt(nonce.into(), plaintext).ok(),
        Err(_) => None,
    }
}

/// Decrypts `ciphertext` with `aes_gcm::Aes256Gcm` (`Aead::decrypt`), the cipher being
/// made from `key` by `KeyInit::new_from_slice`; the outcome is named `gcm_open`.
#[verifier::external_body]
fn aes_gcm_open(key: &[u8], nonce: &[u8], ciphertext: &[u8]) -> (r: Option<Vec<u8>>)
    requires
        key@.len() == 32,
        nonce@.len() == 12,
    ensures
        match r {
            Some(p) => gcm_open(key@, nonce@, ciphertext@) == Some(p@),
            None => gcm_open(key@, nonce@, ciphertext@) is None,
        },
{
    match aes_gcm::Aes256Gcm::new_from_slice(key) {
        Ok(cipher) => cipher.decrypt(nonce.into(), ciphertext).ok(),
        Err(_) => None,
    }
}

/// Twelve bytes from the thread-local generator `rand::rng()` (`RngCore::fill_bytes`).
/// They are random; only their number is claimed.
#[verifier::external_body]
fn random_nonce() -> (n: Vec<u8>)
    ensures
        n@.len() == 12,
{
    let mut bytes = [0u8; 12];
    rand::RngCore::fill_bytes(&mut rand::rng(), &mut bytes);
    bytes.to_vec()
}

/// What decrypting a sealed payload gives under `key`: the payload is the nonce followed
/// by the ciphertext; nothing when it is shorter than a nonce or does not authenticate.
pub open spec fn decrypted(key: Seq<u8>, payload: Seq<u8>) -> Option<Seq<u8>> {
    if payload.len() < 12 {
        None
    } else {
        gcm_open(key, payload.take(12), payload.skip(12))
    }
}

/// `payload` is `plaintext` sealed under `key`: a nonce followed by the ciphertext made
/// with that nonce.
pub open spec fn sealed_under(key: Seq<u8>, plaintext: Seq<u8>, payload: Seq<u8>) -> bool {
    &&& payload.len() >= 12
    &&& payload.skip(12) == gcm_seal(key, payload.take(12), plaintext)
}

/// Seals and opens event payloads under one AES-256 key.
pub struct EventCrypto {
    key: Vec<u8>,
}

impl EventCrypto {
    /// The key's bytes.
    pub closed spec fn key(&self) -> Seq<u8> {
        self.key@
    }

    /// The key has the length of an AES-256 key.
    #[verifier::type_invariant]
    spec fn key_fits(&self) -> bool {
        self.key@.len() == 32
    }

    /// An instance using `key`. `ConfigLoadError("EVENT_ENCRYPTION_KEY must be 32 bytes")`
    /// unless the key has 32 bytes.
    pub fn new(key: Vec<u8>) -> (r: Result<Self, AppError>)
        ensures
            r is Ok == (key@.len() == EVENT_ENCRYPTION_KEY_LEN),
            r matches Ok(c) ==> c.key() == key@,
            r matches Err(e) ==> e is ConfigLoadError
                && e->ConfigLoadError_0@ == "EVENT_ENCRYPTION_KEY must be 32 bytes"@,
    {
        if key.len() != EVENT_ENCRYPTION_KEY_LEN {
            return Err(AppError::ConfigLoadError(String::from_str("EVENT_ENCRYPTION_KEY must be 32 bytes")));
        }
        Ok(EventCrypto { key })
    }

    /// Seals `plaintext` under a fresh random nonce: the nonce, then the ciphertext.
    /// `InternalServerError` when the cipher refuses the plaintext (longer than 2^36 bytes).
    /// Opening the result with `decrypt` gives the plaintext back.
    pub fn encrypt(&self, plaintext: &[u8]) -> (r: Result<Vec<u8>, AppError>)
        ensures
            r is Ok == (plaintext@.len() <= 0x10_0000_0000),
            r matches Err(e) ==> e is InternalServerError,
            r matches Ok(out) ==> sealed_under(self.key(), plaintext@, out@)
                && out@.len() == plaintext@.len() + 28
                && decrypted(self.key(), out@) == Some(plaintext@),
    {
        proof {
            use_type_invariant(self);
        }
        let nonce = random_nonce();
        let ciphertext = match aes_gcm_seal(self.key.as_slice(), nonce.as_slice(), plaintext) {
            Some(c) => c,
            None => return Err(AppError::InternalServerError),
        };
        let mut out = nonce;
        let mut tail = ciphertext;
        let ghost n = out@;
        let ghost c = tail@;
        out.append(&mut tail);
        proof {
            assert(out@.take(12) =~= n);
            assert(out@.skip(12) =~= c);
        }
        Ok(out)
    }

    /// Opens a payload made by `encrypt`. `IntegrityViolation` when it is shorter than a
    /// nonce or does not authenticate under the key.
    pub fn decrypt(&self, payload: &[u8]) -> (r: Result<Vec<u8>, AppError>)
        ensures
            r is Ok == decrypted(self.key(), payload@) is Some,
            r matches Ok(p) ==> decrypted(self.key(), payload@) == Some(p@),
            r matches Err(e) ==> e is IntegrityViolation,
    {
        proof {
            use_type_invariant(self);
        }
        if payload.len() < NONCE_LEN {
            return Err(AppError::IntegrityViolation);
        }
        let (nonce, ciphertext) = payload.split_at(NONCE_LEN);
        match aes_gcm_open(self.key.as_slice(), nonce, ciphertext) {
            Some(p) => Ok(p),
            None => Err(AppError::IntegrityViolation),
        }
    }
    /// Opens the change carried by a stored event record of this `version`. `None` when
    /// the record is not of the sealed version (it is then read as an older, unsealed
    /// record); else what `decrypt` makes of the payload.
    pub fn open_stored_payload(&self, version: u8, payload: &[u8]) -> (r: Option<Result<Vec<u8>, AppError>>)
        ensures
            r is None <==> version != SEALED_EVENT_VERSION,
            r matches Some(res) ==> {
                &&& res is Ok == decrypted(self.key(), payload@) is Some
                &&& res matches Ok(p) ==> decrypted(self.key(), payload@) == Some(p@)
                &&& res matches Err(e) ==> e is IntegrityViolation
            },
    {
        if version != SEALED_EVENT_VERSION {
            return None;
        }
        Some(self.decrypt(payload))
    }
}

} // verus!
