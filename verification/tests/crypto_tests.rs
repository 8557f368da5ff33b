use campuslink::crypto::{
    decrypt_config, decrypt_message, derive_key, encrypt_config, encrypt_config_with_nonce,
    encrypt_message, encrypt_message_with_nonce,
};

const KEY: &str = "00112233445566778899aabbccddeeff00112233445566778899aabbccddeeff";

#[test]
fn derive_key_is_sha256_of_password() {
    let k = derive_key("abc");
    assert_eq!(
        k.iter().map(|b| format!("{:02x}", b)).collect::<String>(),
        "ba7816bf8f01cfea414140de5dae2223b00361a396177a9cb410ff61f20015ad"
    );
}

#[test]
fn config_round_trip() {
    let sealed = encrypt_config("{\"a\":1}", "pw").unwrap();
    assert_eq!(sealed.len(), 12 + 7 + 16);
    assert_eq!(decrypt_config(&sealed, "pw").unwrap(), "{\"a\":1}");
    let err = decrypt_config(&sealed, "other").unwrap_err();
    assert!(err.starts_with("decrypt: "));
    assert!(err.ends_with(" - password may be wrong"));
}

#[test]
fn config_with_fixed_nonce_starts_with_it() {
    let nonce = [7u8; 12];
    let a = encrypt_config_with_nonce("x", "pw", &nonce).unwrap();
    let b = encrypt_config_with_nonce("x", "pw", &nonce).unwrap();
    assert_eq!(&a[..12], &nonce);
    assert_eq!(a, b);
}

#[test]
fn short_data_is_refused() {
    assert_eq!(decrypt_config(&[1, 2, 3], "pw").unwrap_err(), "encrypted data too short");
    assert_eq!(decrypt_message(&[0u8; 11], KEY).unwrap_err(), "encrypted data too short");
}

#[test]
fn message_round_trip_and_key_errors() {
    let sealed = encrypt_message("hello", KEY).unwrap();
    assert_eq!(decrypt_message(&sealed, KEY).unwrap(), "hello");
    assert!(encrypt_message("hello", "zz").unwrap_err().starts_with("hex decode: "));
    assert_eq!(encrypt_message("hello", "abcd").unwrap_err(), "session_key must be 32 bytes");
    let nonce = [1u8; 12];
    let fixed = encrypt_message_with_nonce("hi", KEY, &nonce).unwrap();
    assert_eq!(&fixed[..12], &nonce);
    assert_eq!(decrypt_message(&fixed, KEY).unwrap(), "hi");
    let mut tampered = fixed.clone();
    let last = tampered.len() - 1;
    tampered[last] ^= 1;
    assert!(decrypt_message(&tampered, KEY).unwrap_err().starts_with("decrypt: "));
}

#[test]
fn upper_case_hex_key_is_accepted() {
    let upper = KEY.to_uppercase();
    let sealed = encrypt_message("x", &upper).unwrap();
    assert_eq!(decrypt_message(&sealed, KEY).unwrap(), "x");
}
