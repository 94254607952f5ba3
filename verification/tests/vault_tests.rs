use base64::Engine;
use mcp_gateway::vault::SecretManager;

fn vault() -> SecretManager {
    SecretManager::new(&[7u8; 32])
}

#[test]
fn decrypt_of_encrypt_round_trips() {
    let v = vault();
    for text in ["", "x", "hello world", "sn\u{00e9}aky unicode \u{1f600}", "line\nbreak\t\"quote\""] {
        let blob = v.encrypt(text).unwrap();
        assert_eq!(v.decrypt(&blob).unwrap(), text);
    }
}

#[test]
fn blob_is_base64_of_nonce_and_ciphertext() {
    let v = vault();
    let blob = v.encrypt("abc").unwrap();
    let raw = base64::engine::general_purpose::STANDARD.decode(&blob).unwrap();
    // 12-byte nonce, 3 bytes of ciphertext, 16-byte tag.
    assert_eq!(raw.len(), 12 + 3 + 16);
}

#[test]
fn decrypt_rejects_invalid_base64() {
    let v = vault();
    assert!(v.decrypt("!!!not base64!!!").is_err());
}

#[test]
fn decrypt_rejects_truncated_blob() {
    let v = vault();
    // Fewer than the 12 nonce bytes.
    let short = base64::engine::general_purpose::STANDARD.encode([1u8, 2, 3, 4]);
    assert!(v.decrypt(&short).is_err());
    assert!(v.decrypt("").is_err());
}

#[test]
fn decrypt_rejects_tampered_blob() {
    let v = vault();
    let blob = v.encrypt("attack at dawn").unwrap();
    let mut raw = base64::engine::general_purpose::STANDARD.decode(&blob).unwrap();
    let last = raw.len() - 1;
    raw[last] ^= 0xff;
    let tampered = base64::engine::general_purpose::STANDARD.encode(&raw);
    assert!(v.decrypt(&tampered).is_err());
}

#[test]
fn decrypt_rejects_blob_of_other_key() {
    let v = vault();
    let other = SecretManager::new(&[8u8; 32]);
    let blob = v.encrypt("secret").unwrap();
    assert!(other.decrypt(&blob).is_err());
    assert_eq!(v.decrypt(&blob).unwrap(), "secret");
}
