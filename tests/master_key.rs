use arbor::secret::{
    classify_store_failure, encode_master_key, existing_key, generate_master_key, get_master_key,
    get_or_generate_master_key, set_master_key, MasterKeyStore, SecretError,
};
use base64::Engine;

/// Puts the process on keyring's in-memory mock store, which keeps a secret
/// within one entry only.
fn use_mock_store() {
    keyring::set_default_credential_builder(keyring::mock::default_credential_builder());
}

fn mock_store() -> MasterKeyStore {
    use_mock_store();
    MasterKeyStore::open().unwrap()
}

#[test]
fn test_generate_master_key() {
    use_mock_store();
    let result = generate_master_key();
    assert!(result.is_ok(), "Should generate a master key");

    let key = result.unwrap();
    assert!(!key.is_empty(), "Generated key should not be empty");

    assert_eq!(key.len(), 44, "Base64 encoded 32-byte key should be 44 characters");
}

#[test]
fn test_get_nonexistent_key() {
    use_mock_store();
    let result = get_master_key();
    assert!(result.is_ok() || result.is_err());
}

#[test]
fn test_get_or_generate_creates_key_if_missing() {
    use_mock_store();
    let result = get_or_generate_master_key();
    assert!(result.is_ok(), "Should get or generate a key");

    let key = result.unwrap();
    assert!(!key.is_empty(), "Key should not be empty");
    assert_eq!(key.len(), 44, "Should be a valid 32-byte key encoded as base64");
}

#[test]
fn test_generated_keys_are_unique() {
    use_mock_store();
    let key1 = generate_master_key().unwrap();
    let key2 = generate_master_key().unwrap();

    assert_ne!(key1, key2, "Each generated key should be unique");
}

#[test]
fn generated_key_decodes_to_thirty_two_bytes() {
    use_mock_store();
    for _ in 0..8 {
        let key = generate_master_key().unwrap();
        let bytes = base64::engine::general_purpose::STANDARD.decode(key.as_bytes()).unwrap();
        assert_eq!(bytes.len(), 32);
    }
}

#[test]
fn generated_keys_differ_over_many_draws() {
    use_mock_store();
    let mut seen: Vec<String> = Vec::new();
    for _ in 0..16 {
        let key = generate_master_key().unwrap();
        assert!(!seen.contains(&key));
        seen.push(key);
    }
}

#[test]
fn generated_key_is_then_read_back() {
    let store = mock_store();
    let key = store.generate().unwrap();
    assert_eq!(store.get().unwrap(), key);
}

#[test]
fn get_or_generate_twice_gives_the_same_key() {
    let store = mock_store();
    let first = store.get_or_generate().unwrap();
    assert_eq!(first.len(), 44);
    let second = store.get_or_generate().unwrap();
    assert_eq!(first, second);
}

#[test]
fn encode_master_key_gives_padded_standard_text() {
    let bytes: Vec<u8> = (0u8..32).collect();
    let text = encode_master_key(&bytes);
    assert_eq!(text, "AAECAwQFBgcICQoLDA0ODxAREhMUFRYXGBkaGxwdHh8=");
    assert_eq!(text.len(), 44);
}

#[test]
fn encode_master_key_of_all_ones() {
    let bytes: Vec<u8> = vec![0xff; 32];
    assert_eq!(encode_master_key(&bytes), "//////////////////////////////////////////8=");
}

#[test]
fn existing_key_keeps_a_found_key() {
    let found = existing_key(Ok("abc".to_string()));
    assert_eq!(found, Some("abc".to_string()));
}

#[test]
fn existing_key_treats_absent_as_missing() {
    assert_eq!(existing_key(Err(SecretError::SecretNotFound)), None);
}

#[test]
fn existing_key_treats_unavailable_store_as_missing() {
    let lookup = Err(SecretError::StoreUnavailable("locked".to_string()));
    assert_eq!(existing_key(lookup), None);
}

#[test]
fn store_failure_absent_is_not_found() {
    assert_eq!(
        classify_store_failure(true, "No matching entry found".to_string()),
        SecretError::SecretNotFound
    );
}

#[test]
fn store_failure_other_is_unavailable() {
    assert_eq!(
        classify_store_failure(false, "locked".to_string()),
        SecretError::StoreUnavailable("locked".to_string())
    );
}

#[test]
fn test_set_and_get_master_key() {
    let test_key = "dGVzdGtleTE2Ynl0ZXN0ZXN0a2V5MTZieXRlcw==";

    let store = mock_store();
    let set_result = store.set(test_key);
    assert!(set_result.is_ok(), "Should set master key successfully");

    let get_result = store.get();
    assert!(get_result.is_ok(), "Should get master key successfully");

    let retrieved_key = get_result.unwrap();
    assert_eq!(retrieved_key, test_key, "Retrieved key should match set key");
}

#[test]
fn test_get_or_generate_returns_existing_key() {
    let test_key = "dGVzdGtleTE2Ynl0ZXN0ZXN0a2V5MTZieXRlcw==";
    let store = mock_store();
    let _ = store.set(test_key);

    let result = store.get_or_generate();
    assert!(result.is_ok(), "Should get existing key");

    let key = result.unwrap();
    assert_eq!(key, test_key, "Should return the existing key, not generate a new one");
}

#[test]
fn fresh_store_reports_missing_key() {
    use_mock_store();
    assert_eq!(get_master_key(), Err(SecretError::SecretNotFound));
}

#[test]
fn set_master_key_accepts_a_key() {
    use_mock_store();
    assert_eq!(set_master_key("c2VjcmV0".to_string()), Ok(()));
}

#[test]
fn get_or_generate_on_fresh_store_generates() {
    let store = mock_store();
    assert_eq!(store.get(), Err(SecretError::SecretNotFound));
    let key = store.get_or_generate().unwrap();
    let bytes = base64::engine::general_purpose::STANDARD.decode(key.as_bytes()).unwrap();
    assert_eq!(bytes.len(), 32);
    assert_eq!(store.get().unwrap(), key);
}

#[test]
fn set_then_get_round_trips_any_text() {
    let store = mock_store();
    for value in ["a", "dGVzdA==", "with space", "x".repeat(300).as_str()] {
        store.set(value).unwrap();
        assert_eq!(store.get().unwrap(), value);
    }
}

#[test]
fn keep_or_generate_keeps_a_read_key_without_writing() {
    let store = mock_store();
    store.set("c3RvcmVk").unwrap();
    let kept = store.keep_or_generate(Ok("b3RoZXI=".to_string()));
    assert_eq!(kept, Ok("b3RoZXI=".to_string()));
    assert_eq!(store.get().unwrap(), "c3RvcmVk");
}

#[test]
fn keep_or_generate_replaces_an_unreadable_key() {
    let store = mock_store();
    store.set("c3RvcmVk").unwrap();
    let lookup = Err(SecretError::StoreUnavailable("locked".to_string()));
    let key = store.keep_or_generate(lookup).unwrap();
    assert_eq!(key.len(), 44);
    assert_ne!(key, "c3RvcmVk");
    assert_eq!(store.get().unwrap(), key);
}
