use ed25519_dalek::pkcs8::EncodePrivateKey;
use weverywhere::crypto_utils::{
    format_public_key, parse_private_key_ed25519_pem, parse_public_key_ed25519_pem,
    public_key_to_ed25519_vk, sign_bytes, signature_is_valid, KeyParseError,
};

#[test]
fn sign_bytes_with_file() {
    let result = 2 + 2;
    assert_eq!(result, 4);
}

#[test]
fn sign_then_verify_accepts() {
    let private_key = [7u8; 32];
    let message = b"a small message";
    let signature = sign_bytes(&private_key, message);
    assert_eq!(signature.len(), 64);
    let signing_key = ed25519_dalek::SigningKey::from_bytes(&private_key);
    let public_key = signing_key.verifying_key().to_bytes();
    assert!(signature_is_valid(&public_key, message, &signature));
}

#[test]
fn tampered_message_is_rejected() {
    let private_key = [7u8; 32];
    let message = b"a small message";
    let signature = sign_bytes(&private_key, message);
    let signing_key = ed25519_dalek::SigningKey::from_bytes(&private_key);
    let public_key = signing_key.verifying_key().to_bytes();
    let mut tampered = message.to_vec();
    tampered[0] ^= 1;
    assert!(!signature_is_valid(&public_key, &tampered, &signature));
}

#[test]
fn openssh_format_round_trips() {
    let private_key = [9u8; 32];
    let line = format_public_key(&private_key);
    assert!(line.starts_with("ssh-ed25519 "));
    let parsed = public_key_to_ed25519_vk(&line).expect("the formatted line parses");
    let signing_key = ed25519_dalek::SigningKey::from_bytes(&private_key);
    assert_eq!(parsed, signing_key.verifying_key().to_bytes().to_vec());
}

#[test]
fn openssh_parse_rejects_garbage() {
    let r = public_key_to_ed25519_vk("not an ssh key line");
    assert!(matches!(r, Err(KeyParseError::NotSshEd25519)));
}

#[test]
fn pem_private_key_round_trips() {
    let private_key = [11u8; 32];
    let signing_key = ed25519_dalek::SigningKey::from_bytes(&private_key);
    let pem_text = signing_key
        .to_pkcs8_pem(ed25519_dalek::pkcs8::spki::der::pem::LineEnding::LF)
        .expect("encoding to PKCS#8 PEM works");
    let parsed = parse_private_key_ed25519_pem(&pem_text).expect("the PEM parses");
    assert_eq!(parsed, private_key.to_vec());
    let public = parse_public_key_ed25519_pem(&pem_text).expect("the PEM parses");
    assert_eq!(public, signing_key.verifying_key().to_bytes().to_vec());
}

#[test]
fn pem_with_wrong_tag_is_rejected() {
    let block = pem::Pem::new("CERTIFICATE", vec![1u8, 2, 3]);
    let text = pem::encode(&block);
    let r = parse_private_key_ed25519_pem(&text);
    assert!(matches!(r, Err(KeyParseError::WrongTag)));
}

#[test]
fn non_pem_text_is_rejected() {
    let r = parse_private_key_ed25519_pem("no pem here");
    assert!(matches!(r, Err(KeyParseError::Pem)));
}
