use weverywhere::identity::{sign_identity, verify_identity, IdentityError};
use weverywhere::program::{sign_bundle, verify_bundle, AdmitError};

const NOW: u64 = 1_700_000_000;
const SKEW: u64 = 30;
const MAX_WASM: u64 = 65_536;

#[test]
fn fresh_identity_verifies() {
    let id = sign_identity(&[1u8; 32], "host-a", NOW, 600);
    assert_eq!(verify_identity(&id, NOW, SKEW), Ok(()));
    assert_eq!(verify_identity(&id, NOW + 600, SKEW), Ok(()));
}

#[test]
fn identity_from_the_future_is_rejected() {
    let id = sign_identity(&[1u8; 32], "host-a", NOW + SKEW + 1, 600);
    assert_eq!(verify_identity(&id, NOW, SKEW), Err(IdentityError::NotYetValid));
    let within_skew = sign_identity(&[1u8; 32], "host-a", NOW + SKEW, 600);
    assert_eq!(verify_identity(&within_skew, NOW, SKEW), Ok(()));
}

#[test]
fn expired_identity_is_rejected() {
    let id = sign_identity(&[1u8; 32], "host-a", NOW - 601, 600);
    assert_eq!(verify_identity(&id, NOW, SKEW), Err(IdentityError::Expired));
    let edge = sign_identity(&[1u8; 32], "host-a", NOW - 600, 600);
    assert_eq!(verify_identity(&edge, NOW, SKEW), Ok(()));
}

#[test]
fn unknown_key_format_is_rejected() {
    let mut id = sign_identity(&[1u8; 32], "host-a", NOW, 600);
    id.encoded_public_key_fmt = "rsa4096".to_string();
    assert_eq!(verify_identity(&id, NOW, SKEW), Err(IdentityError::UnknownKeyFmt));
}

#[test]
fn tampered_identity_signature_is_rejected() {
    let mut id = sign_identity(&[1u8; 32], "host-a", NOW, 600);
    id.signature[0] ^= 1;
    assert_eq!(verify_identity(&id, NOW, SKEW), Err(IdentityError::BadSignature));
}

#[test]
fn tampered_identity_field_is_rejected() {
    let mut id = sign_identity(&[1u8; 32], "host-a", NOW, 600);
    id.human_name = "host-b".to_string();
    assert_eq!(verify_identity(&id, NOW, SKEW), Err(IdentityError::BadSignature));
}

#[test]
fn fresh_bundle_verifies() {
    let id = sign_identity(&[2u8; 32], "host-b", NOW, 600);
    let bundle = sign_bundle(&[2u8; 32], id, "prog", vec![1, 2, 3]);
    assert_eq!(verify_bundle(&bundle, NOW, SKEW, MAX_WASM), Ok(()));
}

#[test]
fn bundle_signed_by_another_key_is_rejected() {
    let id = sign_identity(&[2u8; 32], "host-b", NOW, 600);
    let bundle = sign_bundle(&[4u8; 32], id, "prog", vec![1, 2, 3]);
    assert_eq!(verify_bundle(&bundle, NOW, SKEW, MAX_WASM), Err(AdmitError::BadSignature));
}

#[test]
fn tampered_bundle_wasm_is_rejected() {
    let id = sign_identity(&[2u8; 32], "host-b", NOW, 600);
    let mut bundle = sign_bundle(&[2u8; 32], id, "prog", vec![1, 2, 3]);
    bundle.wasm_program_bytes[1] ^= 1;
    assert_eq!(verify_bundle(&bundle, NOW, SKEW, MAX_WASM), Err(AdmitError::BadSignature));
}

#[test]
fn bundle_with_expired_identity_is_rejected() {
    let id = sign_identity(&[2u8; 32], "host-b", NOW - 601, 600);
    let bundle = sign_bundle(&[2u8; 32], id, "prog", vec![1, 2, 3]);
    assert_eq!(verify_bundle(&bundle, NOW, SKEW, MAX_WASM), Err(AdmitError::Expired));
}

#[test]
fn bundle_with_unknown_key_format_is_rejected() {
    let mut id = sign_identity(&[2u8; 32], "host-b", NOW, 600);
    id.encoded_public_key_fmt = "rsa4096".to_string();
    let bundle = sign_bundle(&[2u8; 32], id, "prog", vec![1, 2, 3]);
    assert_eq!(verify_bundle(&bundle, NOW, SKEW, MAX_WASM), Err(AdmitError::UnknownKeyFmt));
}

#[test]
fn bundle_with_future_identity_is_rejected() {
    let id = sign_identity(&[2u8; 32], "host-b", NOW + SKEW + 1, 600);
    let bundle = sign_bundle(&[2u8; 32], id, "prog", vec![1, 2, 3]);
    assert_eq!(verify_bundle(&bundle, NOW, SKEW, MAX_WASM), Err(AdmitError::NotYetValid));
}

#[test]
fn oversize_bundle_is_rejected() {
    let id = sign_identity(&[2u8; 32], "host-b", NOW, 600);
    let bundle = sign_bundle(&[2u8; 32], id, "prog", vec![0u8; 100]);
    assert_eq!(verify_bundle(&bundle, NOW, SKEW, 99), Err(AdmitError::BundleTooLarge));
    let id2 = sign_identity(&[2u8; 32], "host-b", NOW, 600);
    let bundle2 = sign_bundle(&[2u8; 32], id2, "prog", vec![0u8; 100]);
    assert_eq!(verify_bundle(&bundle2, NOW, SKEW, 100), Ok(()));
}
