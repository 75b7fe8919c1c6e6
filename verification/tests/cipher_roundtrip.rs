use crypto_rs::cipher::{decrypt, encrypt};
use crypto_rs::AppError;

#[test]
fn round_trip_bytes() {
    let plain: Vec<u8> = b"attack at dawn, bring snacks".to_vec();
    let container = encrypt(&plain, "correct horse battery staple").expect("encryption works");
    let back = decrypt(&container, "correct horse battery staple").expect("round trip");
    assert_eq!(back, plain);
}

#[test]
fn empty_plaintext_round_trip() {
    let plain: Vec<u8> = Vec::new();
    let container = encrypt(&plain, "pw").expect("encryption works");
    assert!(!container.is_empty());
    let back = decrypt(&container, "pw").expect("round trip");
    assert_eq!(back.len(), 0);
}

#[test]
fn wrong_passphrase_fails_auth() {
    let plain: Vec<u8> = b"secret".to_vec();
    let container = encrypt(&plain, "first passphrase").expect("encryption works");
    let r = decrypt(&container, "second passphrase");
    assert_eq!(r, Err(AppError::AuthenticationFailed));
}

#[test]
fn ciphertext_differs_between_calls() {
    let plain: Vec<u8> = b"same plaintext".to_vec();
    let c1 = encrypt(&plain, "same passphrase").expect("encryption works");
    let c2 = encrypt(&plain, "same passphrase").expect("encryption works");
    assert_ne!(c1, c2);
}

#[test]
fn tampered_payload_fails_auth() {
    let plain: Vec<u8> = b"integrity matters".to_vec();
    let mut container = encrypt(&plain, "pw").expect("encryption works");
    let last = container.len() - 1;
    container[last] ^= 0x01;
    let r = decrypt(&container, "pw");
    assert_eq!(r, Err(AppError::AuthenticationFailed));
}

#[test]
fn tampered_header_fails() {
    let plain: Vec<u8> = b"integrity matters".to_vec();
    let mut container = encrypt(&plain, "pw").expect("encryption works");
    container[0] ^= 0x80;
    let r = decrypt(&container, "pw");
    assert!(r.is_err());
}

#[test]
fn malformed_container_rejected() {
    let garbage: Vec<u8> = b"this is not an encrypted container".to_vec();
    let r = decrypt(&garbage, "pw");
    assert_eq!(r, Err(AppError::MalformedContainer));
}
