//! The master encryption key, kept in the operating system's credential store.
//!
//! A key is 32 random bytes, handed around as their padded standard base64
//! text. The store is read and written afresh on every call; nothing here
//! keeps a key beyond the call that produced it.

use base64::Engine;
use vstd::prelude::*;

verus! {

/// Service under which the key is filed in the credential store.
pub const SERVICE_NAME: &'static str = "dev.arbor.app";

/// Name of the key within that service.
pub const KEY_NAME: &'static str = "master_encryption_key";

/// Number of random bytes in a generated key.
pub const KEY_BYTES: usize = 32;

/// Why the credential store could not deliver or take the key.
#[derive(Debug, PartialEq, Eq)]
pub enum SecretError {
    /// The store holds no key under this name.
    SecretNotFound,
    /// The store could not be reached or refused the operation.
    StoreUnavailable(String),
}

#[verifier::external_type_specification]
#[verifier::external_body]
pub struct ExEntry(keyring::Entry);

#[verifier::external_type_specification]
#[verifier::external_body]
pub struct ExKeyringError(keyring::Error);

/// The padded standard base64 text of a byte sequence.
pub uninterp spec fn standard_base64(bytes: Seq<u8>) -> Seq<char>;

/// Length of the padded base64 text of `n` bytes: four characters for each
/// started group of three bytes.
pub open spec fn base64_len(n: nat) -> nat {
    4 * ((n + 2) / 3)
}

/// Text that encodes exactly `KEY_BYTES` bytes.
pub open spec fn is_master_key_text(s: Seq<char>) -> bool {
    exists|b: Seq<u8>| b.len() == KEY_BYTES && s == #[trigger] standard_base64(b)
}

/// Relies on `base64::engine::general_purpose::STANDARD.encode`: padded text
/// over the standard alphabet, which is ASCII, so its length in characters is
/// the byte length that `base64::encoded_len` gives.
/// The bound keeps that length computation from overflowing, where it panics.
#[verifier::external_body]
fn encode_standard(bytes: &[u8]) -> (r: String)
    requires
        bytes@.len() <= 0x3fff_ffff,
    ensures
        r@ == standard_base64(bytes@),
        r@.len() == base64_len(bytes@.len()),
{
    base64::engine::general_purpose::STANDARD.encode(bytes)
}

/// Relies on `rand::random` for `[u8; 32]`: bytes drawn from the thread-local
/// cryptographically secure generator.
#[verifier::external_body]
fn random_key_bytes() -> (r: Vec<u8>)
    ensures
        r@.len() == KEY_BYTES,
{
    rand::random::<[u8; 32]>().to_vec()
}

/// Relies on `keyring::Entry::new`: a handle on one credential of the
/// platform's default store.
#[verifier::external_body]
fn new_entry(service: &str, user: &str) -> (r: Result<keyring::Entry, keyring::Error>) {
    keyring::Entry::new(service, user)
}

/// Relies on `keyring::Entry::get_password`: the stored text, or the store's error.
#[verifier::external_body]
fn entry_password(entry: &keyring::Entry) -> (r: Result<String, keyring::Error>) {
    entry.get_password()
}

/// Relies on `keyring::Entry::set_password`: stores the text, replacing any earlier one.
#[verifier::external_body]
fn store_password(entry: &keyring::Entry, password: &str) -> (r: Result<(), keyring::Error>) {
    entry.set_password(password)
}

/// Relies on `keyring::Error::NoEntry`, the variant for a credential that does not exist.
#[verifier::external_body]
fn is_no_entry(e: &keyring::Error) -> (r: bool) {
    matches!(e, keyring::Error::NoEntry)
}

/// Relies on the `Display` impl of `keyring::Error` for a readable description.
#[verifier::external_body]
fn describe_store_error(e: &keyring::Error) -> (r: String) {
    e.to_string()
}

/// The library's error for a failure reported by the store: an absent
/// credential is `SecretNotFound`, anything else `StoreUnavailable` with
/// the given description.
pub fn classify_store_failure(absent: bool, detail: String) -> (r: SecretError)
    ensures
        absent ==> r == SecretError::SecretNotFound,
        !absent ==> r == SecretError::StoreUnavailable(detail),
{
    if absent {
        SecretError::SecretNotFound
    } else {
        SecretError::StoreUnavailable(detail)
    }
}

fn store_failure(e: keyring::Error) -> (r: SecretError) {
    let absent = is_no_entry(&e);
    classify_store_failure(absent, describe_store_error(&e))
}

/// The credential that holds the master key, under `SERVICE_NAME` and
/// `KEY_NAME` in the platform's default store. It holds no key itself: every
/// operation goes to the store.
pub struct MasterKeyStore {
    entry: keyring::Entry,
}

impl MasterKeyStore {
    /// Opens the credential in the platform's default store.
    pub fn open() -> (r: Result<MasterKeyStore, SecretError>) {
        match new_entry(SERVICE_NAME, KEY_NAME) {
            Ok(entry) => Ok(MasterKeyStore { entry }),
            Err(e) => Err(store_failure(e)),
        }
    }

    /// Reads the stored key.
    pub fn get(&self) -> (r: Result<String, SecretError>) {
        match entry_password(&self.entry) {
            Ok(key) => Ok(key),
            Err(e) => Err(store_failure(e)),
        }
    }

    /// Stores `key`, replacing whatever was stored.
    pub fn set(&self, key: &str) -> (r: Result<(), SecretError>) {
        match store_password(&self.entry, key) {
            Ok(()) => Ok(()),
            Err(e) => Err(store_failure(e)),
        }
    }

    /// Draws a fresh key of `KEY_BYTES` random bytes, stores its text form
    /// and returns that text. Fails only where the store refuses the write.
    pub fn generate(&self) -> (r: Result<String, SecretError>)
        ensures
            r matches Ok(key) ==> is_master_key_text(key@) && key@.len() == 44,
    {
        let bytes = random_key_bytes();
        let key = encode_master_key(&bytes);
        self.set(key.as_str())?;
        Ok(key)
    }

    /// Returns the stored key, or, where none can be read, generates and
    /// stores a fresh one. Two callers at once may both generate; the later
    /// write wins.
    pub fn get_or_generate(&self) -> (r: Result<String, SecretError>) {
        let lookup = self.get();
        self.keep_or_generate(lookup)
    }

    /// Settles the key from the outcome of reading it: a key that was read is
    /// returned unchanged and nothing is written; after any failure to read,
    /// this does what `generate` does.
    pub fn keep_or_generate(&self, lookup: Result<String, SecretError>) -> (r: Result<String, SecretError>)
        ensures
            lookup is Ok ==> r == lookup,
            lookup is Err ==> (r matches Ok(key) ==> is_master_key_text(key@) && key@.len() == 44),
    {
        match existing_key(lookup) {
            Some(key) => Ok(key),
            None => self.generate(),
        }
    }
}

/// Reads the master key from the credential store.
pub fn get_master_key() -> (r: Result<String, SecretError>) {
    MasterKeyStore::open()?.get()
}

/// Writes `key` as the master key, replacing whatever was stored.
pub fn set_master_key(key: String) -> (r: Result<(), SecretError>) {
    MasterKeyStore::open()?.set(key.as_str())
}

/// The text form of a key: the padded standard base64 of its bytes.
pub fn encode_master_key(bytes: &Vec<u8>) -> (r: String)
    requires
        bytes@.len() == KEY_BYTES,
    ensures
        r@ == standard_base64(bytes@),
        r@.len() == 44,
        is_master_key_text(r@),
{
    let r = encode_standard(bytes.as_slice());
    assert(r@ == standard_base64(bytes@));
    r
}

/// Generates a fresh master key, stores it and returns its text form.
pub fn generate_master_key() -> (r: Result<String, SecretError>)
    ensures
        r matches Ok(key) ==> is_master_key_text(key@) && key@.len() == 44,
{
    MasterKeyStore::open()?.generate()
}

/// What a lookup in the store leaves to keep: the key it found, or nothing.
///
/// Every failure counts as absence, an unreachable store included, so a key
/// that exists but cannot be read at the moment is then replaced.
pub fn existing_key(lookup: Result<String, SecretError>) -> (r: Option<String>)
    ensures
        lookup matches Ok(key) ==> r == Some(key),
        lookup is Err ==> r is None,
{
    match lookup {
        Ok(key) => Some(key),
        Err(_) => None,
    }
}

/// Returns the stored master key, or generates and stores one where none
/// can be read.
pub fn get_or_generate_master_key() -> (r: Result<String, SecretError>) {
    MasterKeyStore::open()?.get_or_generate()
}

} // verus!
