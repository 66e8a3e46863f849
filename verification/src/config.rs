//! Runtime configuration: where the database is and the key that seals stored events.

use sha2::Digest;
use vstd::prelude::*;

use crate::crypto::EVENT_ENCRYPTION_KEY_LEN;
use crate::error::AppError;
use crate::strings::{is_blank, is_white_space};
use vstd::utf8::encode_utf8;

verus! {

/// The configuration the application runs with.
#[derive(Debug)]
pub struct Config {
    pub database_url: &'static str,
    pub event_encryption_key: Vec<u8>,
}

/// Leaks `s` with `String::leak`: the text then lives as long as the program, with the
/// same characters.
#[verifier::external_body]
fn leak_text(s: String) -> (r: &'static str)
    ensures
        r@ == s@,
{
    s.leak()
}

/// A name for the SHA-256 digest of `data`.
pub uninterp spec fn sha256_digest(data: Seq<u8>) -> Seq<u8>;

/// The SHA-256 digest of the UTF-8 encoding of `text`.
pub open spec fn sha256_of_text(text: Seq<char>) -> Seq<u8> {
    sha256_digest(encode_utf8(text))
}

/// Hashes `data` with `sha2::Sha256` (`Digest::digest`). The digest is named
/// `sha256_digest`; SHA-256 digests have 32 bytes.
#[verifier::external_body]
fn sha256_bytes(data: &[u8]) -> (d: Vec<u8>)
    ensures
        d@ == sha256_digest(data@),
        d@.len() == 32,
{
    sha2::Sha256::digest(data).to_vec()
}

/// The text is empty once white space is trimmed from both ends.
pub open spec fn text_blank(s: Seq<char>) -> bool {
    forall|i: int| 0 <= i < s.len() ==> is_white_space(#[trigger] s[i])
}

/// The event encryption key derived from a configured value: the first 32 bytes of the
/// value's SHA-256 digest. `ConfigLoadError("EVENT_ENCRYPTION_KEY must not be empty")`
/// for a blank value.
pub fn derive_event_encryption_key(value: String) -> (r: Result<Vec<u8>, AppError>)
    ensures
        r is Ok == !text_blank(value@),
        r matches Ok(k) ==> k@ == sha256_of_text(value@).take(EVENT_ENCRYPTION_KEY_LEN as int)
            && k@ == sha256_of_text(value@)
            && k@.len() == EVENT_ENCRYPTION_KEY_LEN,
        r matches Err(e) ==> e is ConfigLoadError
            && e->ConfigLoadError_0@ == "EVENT_ENCRYPTION_KEY must not be empty"@,
{
    if is_blank(value.as_str()) {
        return Err(AppError::ConfigLoadError(String::from_str("EVENT_ENCRYPTION_KEY must not be empty")));
    }
    let digest = sha256_bytes(value.as_str().as_bytes());
    let mut key: Vec<u8> = Vec::new();
    let mut i: usize = 0;
    while i < EVENT_ENCRYPTION_KEY_LEN
        invariant
            digest@.len() == 32,
            0 <= i <= EVENT_ENCRYPTION_KEY_LEN,
            key@ == digest@.take(i as int),
        decreases EVENT_ENCRYPTION_KEY_LEN - i,
    {
        key.push(digest[i]);
        i = i + 1;
        assert(key@ =~= digest@.take(i as int));
    }
    assert(digest@.take(32) =~= digest@);
    Ok(key)
}

/// The configuration is what `get` gives for the encryption key and the database URL,
/// the key derived from its value.
pub open spec fn config_from<F: Fn(&'static str, &'static str) -> Result<String, AppError>>(get: F, c: Config) -> bool {
    exists|k: String, u: String| {
        &&& #[trigger] call_ensures(get, ("EVENT_ENCRYPTION_KEY", "dev-only-event-encryption-key"), Ok::<String, AppError>(k))
        &&& !text_blank(k@)
        &&& #[trigger] call_ensures(get, ("DATABASE_URL", "postgres://eks@localhost/eks"), Ok::<String, AppError>(u))
        &&& c.event_encryption_key@ == sha256_of_text(k@)
        &&& c.database_url@ == u@
    }
}

/// The error is one that the configuration can fail with: `get`'s error for the key, the
/// error for a blank key, or `get`'s error for the database URL after a usable key.
pub open spec fn config_error_from<F: Fn(&'static str, &'static str) -> Result<String, AppError>>(get: F, e: AppError) -> bool {
    ||| call_ensures(get, ("EVENT_ENCRYPTION_KEY", "dev-only-event-encryption-key"), Err::<String, AppError>(e))
    ||| exists|k: String| {
        &&& #[trigger] call_ensures(get, ("EVENT_ENCRYPTION_KEY", "dev-only-event-encryption-key"), Ok::<String, AppError>(k))
        &&& text_blank(k@)
        &&& e is ConfigLoadError
        &&& e->ConfigLoadError_0@ == "EVENT_ENCRYPTION_KEY must not be empty"@
    }
    ||| exists|k: String| {
        &&& #[trigger] call_ensures(get, ("EVENT_ENCRYPTION_KEY", "dev-only-event-encryption-key"), Ok::<String, AppError>(k))
        &&& !text_blank(k@)
        &&& call_ensures(get, ("DATABASE_URL", "postgres://eks@localhost/eks"), Err::<String, AppError>(e))
    }
}

impl Config {
    /// Reads the configuration through `get`, which is given a variable's name and its
    /// development default: first `EVENT_ENCRYPTION_KEY` (the key is derived from its
    /// value), then `DATABASE_URL`. The first error stops the reading.
    pub fn from_env_with<F: Fn(&'static str, &'static str) -> Result<String, AppError>>(get: F) -> (r: Result<Config, AppError>)
        requires
            call_requires(get, ("EVENT_ENCRYPTION_KEY", "dev-only-event-encryption-key")),
            call_requires(get, ("DATABASE_URL", "postgres://eks@localhost/eks")),
        ensures
            r matches Ok(c) ==> config_from(get, c),
            r matches Err(e) ==> config_error_from(get, e),
            (forall|res: Result<String, AppError>|
                #[trigger] call_ensures(get, ("EVENT_ENCRYPTION_KEY", "dev-only-event-encryption-key"), res)
                    ==> (res matches Ok(k) && !text_blank(k@)))
                && (forall|res: Result<String, AppError>|
                #[trigger] call_ensures(get, ("DATABASE_URL", "postgres://eks@localhost/eks"), res) ==> res is Ok)
                ==> r is Ok,
    {
        let key_value = get("EVENT_ENCRYPTION_KEY", "dev-only-event-encryption-key");
        let key_text = match key_value {
            Ok(k) => k,
            Err(e) => return Err(e),
        };
        let ghost kt = key_text;
        let event_encryption_key = match derive_event_encryption_key(key_text) {
            Ok(k) => k,
            Err(e) => return Err(e),
        };
        let url_value = get("DATABASE_URL", "postgres://eks@localhost/eks");
        let database_url = match url_value {
            Ok(u) => u,
            Err(e) => return Err(e),
        };
        let ghost u = database_url;
        let c = Config { database_url: leak_text(database_url), event_encryption_key };
        proof {
            assert(config_from(get, c)) by {
                assert(call_ensures(get, ("EVENT_ENCRYPTION_KEY", "dev-only-event-encryption-key"), Ok::<String, AppError>(kt)));
                assert(call_ensures(get, ("DATABASE_URL", "postgres://eks@localhost/eks"), Ok::<String, AppError>(u)));
            }
        }
        Ok(c)
    }

    /// The configuration used in tests: the development database URL and the key derived
    /// from the development key value.
    pub fn new_test() -> (c: Config)
        ensures
            c.database_url@ == "postgres://eks@localhost/eks"@,
            c.event_encryption_key@ == sha256_of_text("dev-only-event-encryption-key"@),
    {
        let value = String::from_str("dev-only-event-encryption-key");
        proof {
            reveal_strlit("dev-only-event-encryption-key");
            assert(!is_white_space(value@[0]));
        }
        let key = match derive_event_encryption_key(value) {
            Ok(k) => k,
            Err(_) => Vec::new(),
        };
        Config { database_url: "postgres://eks@localhost/eks", event_encryption_key: key }
    }
}

} // verus!
