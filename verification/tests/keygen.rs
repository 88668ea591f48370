//! Keys.

use base64::engine::general_purpose::STANDARD as B64;
use base64::Engine;
use wireguard_gui::config::keygen::{generate_keypair, pubkey_from_private};
use wireguard_gui::error::AppError;

#[test]
fn generate_keypair_produces_valid_base64_32_bytes() {
    let (priv_key, pub_key) = generate_keypair().unwrap();

    let priv_bytes = B64.decode(&priv_key).expect("private key not valid base64");
    let pub_bytes = B64.decode(&pub_key).expect("public key not valid base64");
    assert_eq!(priv_bytes.len(), 32, "private key length");
    assert_eq!(pub_bytes.len(), 32, "public key length");
}

#[test]
fn pubkey_from_private_derives_correct_key() {
    let (priv_key, pub_key) = generate_keypair().unwrap();
    let derived = pubkey_from_private(&priv_key).unwrap();
    assert_eq!(derived, pub_key, "derived public key must match generated one");
}

#[test]
fn pubkey_from_private_known_vector() {
    let priv_zeros = B64.encode([0u8; 32]);
    let pub_key = pubkey_from_private(&priv_zeros).unwrap();
    let pub_bytes = B64.decode(&pub_key).unwrap();
    assert_eq!(pub_bytes.len(), 32);
}

#[test]
fn pubkey_from_private_rejects_bad_base64() {
    let err = pubkey_from_private("not-valid!!!").unwrap_err();
    assert!(
        matches!(err, AppError::KeygenFailed(_)),
        "expected KeygenFailed, got {err:?}"
    );
}

#[test]
fn pubkey_from_private_rejects_wrong_length() {
    let short = B64.encode([0u8; 16]);
    let err = pubkey_from_private(&short).unwrap_err();
    assert!(
        matches!(err, AppError::KeygenFailed(_)),
        "expected KeygenFailed, got {err:?}"
    );
}

#[test]
fn generate_keypair_produces_unique_keys_on_successive_calls() {
    let (p1, _) = generate_keypair().unwrap();
    let (p2, _) = generate_keypair().unwrap();
    assert_ne!(p1, p2, "two consecutive keypairs must differ");
}
