use woz::secret_store::{CacheError, FileCache};

fn make_key() -> [u8; 32] {
    FileCache::make_key("test password", "test salt")
}

fn test_cache() -> FileCache {
    FileCache::new(make_key(), String::from("/tmp"))
}

#[test]
fn make_key_works() {
    let result = FileCache::make_key("test-password", "test-salt");
    assert_eq!(result.len(), 32);
}

#[test]
fn encrypt_works() {
    let cache = test_cache();
    let out = cache.encrypt(b"secret message".to_vec()).unwrap();
    assert!(out.len() > 0);
}

#[test]
fn extract_nonce_works() {
    let cache = test_cache();
    let out = cache.encrypt(b"secret message".to_vec()).unwrap();
    FileCache::extract_nonce(out);
}

#[test]
fn decrypt_works() {
    let cache = test_cache();
    let value = b"secret message".to_vec();
    let encrypted = cache.clone().encrypt(value.clone()).unwrap();
    let (nonce, content) = FileCache::extract_nonce(encrypted);
    let actual = cache.decrypt(nonce, content).unwrap();
    assert_eq!(value, actual);
}

#[test]
fn get_works() {
    let stored = FileCache::set("test value");
    let result = FileCache::get(stored).unwrap();
    assert_eq!("test value", result);
}

#[test]
fn get_encrypted_works() {
    let cache = test_cache();
    let stored = cache.set_encrypted("test value".as_bytes().to_vec()).unwrap();
    let result = cache.get_encrypted(stored).unwrap();
    assert_eq!("test value", result);
}

#[test]
fn set_works() {
    let stored = FileCache::set("test value");
    assert_eq!("test value".as_bytes().to_vec(), stored);
}

#[test]
fn set_encrypted_works() {
    let cache = test_cache();
    let stored = cache.set_encrypted("test value".as_bytes().to_vec()).unwrap();
    assert_ne!("test value".as_bytes().to_vec(), stored);
}

#[test]
fn derived_key_is_deterministic_and_input_sensitive() {
    let a = FileCache::make_key("test password", "test salt");
    let b = FileCache::make_key("test password", "test salt");
    assert_eq!(a, b);
    assert_eq!(a.len(), 32);
    assert_ne!(a, FileCache::make_key("test passwore", "test salt"));
    assert_ne!(a, FileCache::make_key("test password", "test salu"));
}

#[test]
fn derived_key_is_not_the_password() {
    let key = FileCache::make_key("", "");
    assert_ne!(key, [0u8; 32]);
}

#[test]
fn round_trip_scenario_message() {
    let cache = test_cache();
    let blob = cache.encrypt(b"secret message".to_vec()).unwrap();
    assert_eq!(cache.decrypt_blob(blob).unwrap(), b"secret message".to_vec());
}

#[test]
fn round_trip_empty_and_binary() {
    let cache = test_cache();
    let empty = cache.encrypt(Vec::new()).unwrap();
    assert_eq!(empty.len(), 16 + 12);
    assert_eq!(cache.decrypt_blob(empty).unwrap(), Vec::<u8>::new());
    let binary: Vec<u8> = (0..=255u8).collect();
    let blob = cache.encrypt(binary.clone()).unwrap();
    assert_eq!(blob.len(), binary.len() + 28);
    assert_eq!(cache.decrypt_blob(blob).unwrap(), binary);
}

#[test]
fn blob_layout_is_ciphertext_tag_nonce() {
    let cache = test_cache();
    let nonce = [7u8; 12];
    let blob = cache.seal_with_nonce(nonce, b"abc".to_vec());
    assert_eq!(blob.len(), 3 + 16 + 12);
    assert_eq!(&blob[blob.len() - 12..], &nonce[..]);
    assert_ne!(&blob[..3], b"abc");
    let (n, body) = FileCache::extract_nonce(blob.clone());
    assert_eq!(n, nonce);
    assert_eq!(body, blob[..blob.len() - 12].to_vec());
    assert_eq!(cache.decrypt(n, body).unwrap(), b"abc".to_vec());
}

#[test]
fn sealing_is_deterministic_for_a_given_nonce() {
    let cache = test_cache();
    let a = cache.seal_with_nonce([1u8; 12], b"same".to_vec());
    let b = cache.seal_with_nonce([1u8; 12], b"same".to_vec());
    let c = cache.seal_with_nonce([2u8; 12], b"same".to_vec());
    assert_eq!(a, b);
    assert_ne!(a[..a.len() - 12], c[..c.len() - 12]);
}

#[test]
fn any_single_bit_flip_is_detected() {
    let cache = test_cache();
    let blob = cache.encrypt(b"secret message".to_vec()).unwrap();
    for i in 0..blob.len() {
        for bit in 0..8 {
            let mut tampered = blob.clone();
            tampered[i] ^= 1 << bit;
            assert_eq!(cache.decrypt_blob(tampered), Err(CacheError::CryptoFailure));
        }
    }
}

#[test]
fn wrong_key_fails_closed() {
    let cache = test_cache();
    let other = FileCache::new(FileCache::make_key("other", "test salt"), String::from("/tmp"));
    let blob = cache.encrypt(b"secret message".to_vec()).unwrap();
    assert_eq!(other.decrypt_blob(blob.clone()), Err(CacheError::CryptoFailure));
    assert_eq!(other.get_encrypted(blob), Err(CacheError::CryptoFailure));
}

#[test]
fn short_or_truncated_blob_fails_closed() {
    let cache = test_cache();
    assert_eq!(cache.decrypt_blob(vec![1, 2, 3]), Err(CacheError::CryptoFailure));
    assert_eq!(cache.decrypt_blob(Vec::new()), Err(CacheError::CryptoFailure));
    let blob = cache.encrypt(b"secret message".to_vec()).unwrap();
    assert_eq!(cache.decrypt_blob(blob[1..].to_vec()), Err(CacheError::CryptoFailure));
    assert_eq!(cache.decrypt_blob(blob[..20].to_vec()), Err(CacheError::CryptoFailure));
}

#[test]
fn nonces_are_fresh_for_every_encryption() {
    let cache = test_cache();
    let mut seen: Vec<Vec<u8>> = Vec::new();
    for _ in 0..200 {
        let blob = cache.encrypt(b"same plaintext".to_vec()).unwrap();
        let nonce = blob[blob.len() - 12..].to_vec();
        assert!(!seen.contains(&nonce));
        seen.push(nonce);
    }
}

#[test]
fn encrypted_entry_that_is_not_text() {
    let cache = test_cache();
    let stored = cache.set_encrypted(vec![0xff, 0xfe, 0x00]).unwrap();
    assert_eq!(cache.get_encrypted(stored.clone()), Err(CacheError::NotText));
    assert_eq!(cache.decrypt_blob(stored).unwrap(), vec![0xff, 0xfe, 0x00]);
}

#[test]
fn plain_entry_that_is_not_text() {
    assert_eq!(FileCache::get(vec![0xc3]), Err(CacheError::NotText));
    assert_eq!(FileCache::get(Vec::new()).unwrap(), "");
}

#[test]
fn plain_entry_round_trip_unicode() {
    let stored = FileCache::set("héllo ✓");
    assert_eq!(FileCache::get(stored).unwrap(), "héllo ✓");
}

#[test]
fn entry_file_names_start_with_a_dot() {
    assert_eq!(FileCache::entry_file_name("refresh_token"), ".refresh_token");
    assert_eq!(FileCache::entry_file_name("identity"), ".identity");
    assert_eq!(FileCache::entry_file_name(""), ".");
}

#[test]
fn cache_keeps_its_root() {
    let cache = test_cache();
    assert_eq!(cache.path(), "/tmp");
}
