use base64::Engine as _;

use falcon_cli::engine::{decode_public_key_literal, keygen, sign_message, verify_message,
    KeygenPlan};
use falcon_cli::error::CliError;
use falcon_cli::level::SecurityLevel;

fn fresh_keypair(level: SecurityLevel) -> (Vec<u8>, Vec<u8>) {
    match keygen(level, false, false, false) {
        KeygenPlan::WriteBoth { public, secret } => (public.bytes, secret.bytes),
        _ => panic!("keygen into fresh paths must write both key files"),
    }
}

#[test]
fn sign_open_round_trip_512() {
    let (pk, sk) = fresh_keypair(SecurityLevel::Level512);
    let message = b"hello".to_vec();
    let signed = sign_message(SecurityLevel::Level512, &message, sk).unwrap();
    assert_ne!(signed, message);
    let recovered = verify_message(SecurityLevel::Level512, &signed, pk).unwrap();
    assert_eq!(recovered, message);
}

#[test]
fn sign_open_round_trip_1024() {
    let (pk, sk) = fresh_keypair(SecurityLevel::Level1024);
    let message = b"the quick brown fox".to_vec();
    let signed = sign_message(SecurityLevel::Level1024, &message, sk).unwrap();
    let recovered = verify_message(SecurityLevel::Level1024, &signed, pk).unwrap();
    assert_eq!(recovered, message);
}

#[test]
fn sign_open_round_trip_empty_message() {
    let (pk, sk) = fresh_keypair(SecurityLevel::Level512);
    let message = Vec::new();
    let signed = sign_message(SecurityLevel::Level512, &message, sk).unwrap();
    let recovered = verify_message(SecurityLevel::Level512, &signed, pk).unwrap();
    assert_eq!(recovered, message);
}

#[test]
fn verify_fails_under_foreign_public_key() {
    let (_, sk) = fresh_keypair(SecurityLevel::Level512);
    let (other_pk, _) = fresh_keypair(SecurityLevel::Level512);
    let message = b"hello".to_vec();
    let signed = sign_message(SecurityLevel::Level512, &message, sk).unwrap();
    let r = verify_message(SecurityLevel::Level512, &signed, other_pk);
    assert_eq!(r.err(), Some(CliError::VerificationFailed));
}

#[test]
fn verify_fails_on_flipped_final_byte() {
    let (pk, sk) = fresh_keypair(SecurityLevel::Level512);
    let message = b"hello".to_vec();
    let mut signed = sign_message(SecurityLevel::Level512, &message, sk).unwrap();
    let last = signed.len() - 1;
    signed[last] ^= 0xff;
    let r = verify_message(SecurityLevel::Level512, &signed, pk);
    assert_eq!(r.err(), Some(CliError::VerificationFailed));
}

#[test]
fn sign_rejects_key_of_other_level() {
    let (_, sk512) = fresh_keypair(SecurityLevel::Level512);
    let message = b"hello".to_vec();
    let r = sign_message(SecurityLevel::Level1024, &message, sk512);
    assert_eq!(r.err(), Some(CliError::KeyLevelMismatch));
}

#[test]
fn verify_rejects_key_of_other_level() {
    let (pk512, sk512) = fresh_keypair(SecurityLevel::Level512);
    let message = b"hello".to_vec();
    let signed = sign_message(SecurityLevel::Level512, &message, sk512).unwrap();
    let r = verify_message(SecurityLevel::Level1024, &signed, pk512);
    assert_eq!(r.err(), Some(CliError::KeyLevelMismatch));
}

#[test]
fn signing_overhead_is_bounded() {
    let (_, sk) = fresh_keypair(SecurityLevel::Level512);
    let message = vec![0xabu8; 1000];
    let signed = sign_message(SecurityLevel::Level512, &message, sk).unwrap();
    assert!(signed.len() <= message.len() + 752);
}

#[test]
fn base64_literal_round_trip() {
    let (pk, sk) = fresh_keypair(SecurityLevel::Level512);
    let literal = base64::engine::general_purpose::STANDARD.encode(&pk);
    let key = decode_public_key_literal(&literal, SecurityLevel::Level512).unwrap();
    assert_eq!(key.bytes, pk);

    let message = b"hello".to_vec();
    let signed = sign_message(SecurityLevel::Level512, &message, sk).unwrap();
    let recovered = verify_message(SecurityLevel::Level512, &signed, key.encode()).unwrap();
    assert_eq!(recovered, message);
}

#[test]
fn base64_literal_rejects_invalid_text() {
    let r = decode_public_key_literal("not base64!!!", SecurityLevel::Level512);
    assert_eq!(r.err(), Some(CliError::InvalidBase64));
}

#[test]
fn base64_literal_rejects_wrong_level_length() {
    let (pk512, _) = fresh_keypair(SecurityLevel::Level512);
    let literal = base64::engine::general_purpose::STANDARD.encode(&pk512);
    let r = decode_public_key_literal(&literal, SecurityLevel::Level1024);
    assert_eq!(r.err(), Some(CliError::KeyLevelMismatch));
}
