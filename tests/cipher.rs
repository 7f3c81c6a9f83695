use cpass::cipher::{decrypt, encrypt, seal_with, KdfParams, NONCE_LEN, SALT_LEN, TAG_LEN};
use cpass::error::CpassError;

fn cheap() -> KdfParams {
    KdfParams::new(64, 1, 1).unwrap()
}

#[test]
fn round_trip_returns_plaintext() {
    let sealed = encrypt(b"correct horse", b"master", cheap()).unwrap();
    let opened = decrypt(&sealed.ciphertext, &sealed.salt, b"master", cheap()).unwrap();
    assert_eq!(opened, b"correct horse".to_vec());
}

#[test]
fn round_trip_empty_secret() {
    let sealed = encrypt(b"", b"master", cheap()).unwrap();
    assert_eq!(sealed.ciphertext.len(), NONCE_LEN + TAG_LEN);
    let opened = decrypt(&sealed.ciphertext, &sealed.salt, b"master", cheap()).unwrap();
    assert!(opened.is_empty());
}

#[test]
fn wrong_passphrase_fails_authentication() {
    let sealed = encrypt(b"secret", b"one", cheap()).unwrap();
    let r = decrypt(&sealed.ciphertext, &sealed.salt, b"two", cheap());
    assert_eq!(r, Err(CpassError::AuthenticationFailed));
}

#[test]
fn salts_and_nonces_are_fresh() {
    let a = encrypt(b"same", b"same", cheap()).unwrap();
    let b = encrypt(b"same", b"same", cheap()).unwrap();
    assert_eq!(a.salt.len(), SALT_LEN);
    assert_ne!(a.salt, b.salt);
    assert_ne!(a.ciphertext[..NONCE_LEN], b.ciphertext[..NONCE_LEN]);
    assert_ne!(a.ciphertext, b.ciphertext);
}

#[test]
fn sealing_is_determined_by_salt_and_nonce() {
    let salt = [7u8; 16];
    let nonce = [9u8; 12];
    let a = seal_with(b"hello", b"pw", &salt, &nonce, cheap()).unwrap();
    let b = seal_with(b"hello", b"pw", &salt, &nonce, cheap()).unwrap();
    assert_eq!(a, b);
    assert_eq!(a.salt, salt.to_vec());
    assert_eq!(&a.ciphertext[..12], &nonce[..]);
    assert_eq!(a.ciphertext.len(), 12 + 5 + 16);
    assert_ne!(&a.ciphertext[12..17], b"hello");
    let c = seal_with(b"hello", b"pw2", &salt, &nonce, cheap()).unwrap();
    assert_ne!(a.ciphertext, c.ciphertext);
}

#[test]
fn short_salt_is_a_hashing_error() {
    let r = seal_with(b"x", b"pw", &[1u8; 7], &[0u8; 12], cheap());
    assert_eq!(r, Err(CpassError::HashingError));
}

#[test]
fn tampered_ciphertext_fails_authentication() {
    let mut sealed = encrypt(b"payload", b"pw", cheap()).unwrap();
    let last = sealed.ciphertext.len() - 1;
    sealed.ciphertext[last] ^= 1;
    let r = decrypt(&sealed.ciphertext, &sealed.salt, b"pw", cheap());
    assert_eq!(r, Err(CpassError::AuthenticationFailed));
}

#[test]
fn truncated_ciphertext_fails_authentication() {
    let r = decrypt(&[1u8; 11], &[0u8; 16], b"pw", cheap());
    assert_eq!(r, Err(CpassError::AuthenticationFailed));
}

#[test]
fn kdf_params_are_checked() {
    assert!(KdfParams::new(7, 1, 1).is_none());
    assert!(KdfParams::new(64, 0, 1).is_none());
    assert!(KdfParams::new(15, 1, 2).is_none());
    assert!(KdfParams::new(16, 1, 2).is_some());
    assert_eq!(KdfParams::owasp2().mem_cost, 19456);
    assert_eq!(KdfParams::rfc9106().mem_cost, 2097152);
}
