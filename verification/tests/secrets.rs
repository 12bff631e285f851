use chatstream::secrets::{
    decrypt_data, derive_encryption_key, encrypt_data, get_api_key_from_encrypted, store_api_key_in_encrypted,
};
use chatstream::strmap::StringMap;

#[test]
fn derived_key_is_stable_and_32_bytes() {
    let k1 = derive_encryption_key("/home/user/.local/share/app");
    let k2 = derive_encryption_key("/home/user/.local/share/app");
    let k3 = derive_encryption_key("/other/dir");
    assert_eq!(k1.len(), 32);
    assert_eq!(k1, k2);
    assert_ne!(k1, k3);
}

#[test]
fn encrypt_then_decrypt_round_trips() {
    let key = derive_encryption_key("/some/dir");
    let secret = "{\"provider-params.openai.api_key\":\"sk-test-123\"}";
    let envelope = encrypt_data(secret, &key).unwrap();
    // the envelope is base64 text, not the plaintext
    assert!(!envelope.contains("sk-test"));
    let back = decrypt_data(&envelope, &key).unwrap();
    assert_eq!(back, secret);
}

#[test]
fn two_encryptions_differ_by_nonce_but_both_decrypt() {
    let key = derive_encryption_key("/some/dir");
    let a = encrypt_data("payload", &key).unwrap();
    let b = encrypt_data("payload", &key).unwrap();
    assert_ne!(a, b);
    assert_eq!(decrypt_data(&a, &key).unwrap(), "payload");
    assert_eq!(decrypt_data(&b, &key).unwrap(), "payload");
}

#[test]
fn malformed_base64_is_rejected() {
    let key = derive_encryption_key("/d");
    assert_eq!(decrypt_data("!!!not base64!!!", &key).unwrap_err(), "Base64 decode failed");
}

#[test]
fn short_envelope_is_rejected() {
    let key = derive_encryption_key("/d");
    // five bytes decode fine but cannot hold a 12-byte nonce
    assert_eq!(decrypt_data("AAAAAAA=", &key).unwrap_err(), "Invalid encrypted data");
}

#[test]
fn wrong_key_is_rejected() {
    let key = derive_encryption_key("/d1");
    let other = derive_encryption_key("/d2");
    let envelope = encrypt_data("secret", &key).unwrap();
    assert_eq!(decrypt_data(&envelope, &other).unwrap_err(), "Decryption failed");
}

#[test]
fn api_keys_are_stored_and_read_back() {
    let mut secrets: StringMap<String> = StringMap::new();
    store_api_key_in_encrypted(&mut secrets, "provider-params.openai.api_key", "sk-1".to_string());
    assert_eq!(get_api_key_from_encrypted(&secrets, "provider-params.openai.api_key"), "sk-1");
    assert_eq!(get_api_key_from_encrypted(&secrets, "provider-params.google.api_key"), "");
    store_api_key_in_encrypted(&mut secrets, "provider-params.openai.api_key", "sk-2".to_string());
    assert_eq!(get_api_key_from_encrypted(&secrets, "provider-params.openai.api_key"), "sk-2");
    assert_eq!(secrets.len(), 1);
}

#[test]
fn storing_an_empty_key_removes_the_entry() {
    let mut secrets: StringMap<String> = StringMap::new();
    store_api_key_in_encrypted(&mut secrets, "a.b_key", "v".to_string());
    assert_eq!(secrets.len(), 1);
    store_api_key_in_encrypted(&mut secrets, "a.b_key", String::new());
    assert_eq!(secrets.len(), 0);
    assert!(!secrets.contains("a.b_key"));
}
