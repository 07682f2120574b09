use agenomic::{
    content_hash_of_encoding, public_key_of, sign_content_hash, signing_message, verify_content_signature,
    FingerprintError, HASH_DOMAIN,
};
use ed25519_dalek::{Signer, SigningKey};

const SECRET: [u8; 32] = [7u8; 32];

fn public_key(secret: &[u8; 32]) -> [u8; 32] {
    SigningKey::from_bytes(secret).verifying_key().to_bytes()
}

#[test]
fn hash_domain_bytes() {
    assert_eq!(&HASH_DOMAIN[..], b"AGENTLOCK-FP-v1\x00");
}

#[test]
fn signing_message_layout() {
    let hash = [0xabu8; 32];
    let msg = signing_message(&hash, "key-1");
    let mut expected = b"AGENTLOCK-FP-v1\x00".to_vec();
    expected.extend_from_slice(&hash);
    expected.extend_from_slice(b"key-1");
    assert_eq!(msg, expected);
    assert_eq!(msg.len(), 16 + 32 + 5);
}

#[test]
fn content_hash_is_blake3_of_domain_and_encoding() {
    let encoding = b"\xa1\x61\x61\x01";
    let h = content_hash_of_encoding(encoding);
    let mut framed = b"AGENTLOCK-FP-v1\x00".to_vec();
    framed.extend_from_slice(encoding);
    assert_eq!(h, *blake3::hash(&framed).as_bytes());
    assert_ne!(h, *blake3::hash(encoding).as_bytes());
    assert_eq!(h, content_hash_of_encoding(encoding));
    assert_ne!(h, content_hash_of_encoding(b"\xa1\x61\x61\x02"));
}

#[test]
fn signature_is_ed25519_over_signing_message() {
    let hash = content_hash_of_encoding(b"payload");
    let sig = sign_content_hash(&hash, &SECRET, "key-1");
    let expected = SigningKey::from_bytes(&SECRET).sign(&signing_message(&hash, "key-1"));
    assert_eq!(sig, expected.to_bytes());
    assert_ne!(sig, [0u8; 64]);
}

#[test]
fn content_signature_sign_then_verify_succeeds() {
    let hash = content_hash_of_encoding(b"payload");
    let sig = sign_content_hash(&hash, &SECRET, "key-1");
    verify_content_signature(&hash, &hash, "key-1", &sig, &public_key(&SECRET))
        .expect("verification must succeed");
}

#[test]
fn stale_content_hash_is_rejected() {
    let hash = content_hash_of_encoding(b"payload");
    let sig = sign_content_hash(&hash, &SECRET, "key-1");
    let recomputed = content_hash_of_encoding(b"tampered payload");
    match verify_content_signature(&hash, &recomputed, "key-1", &sig, &public_key(&SECRET)) {
        Err(FingerprintError::Signature(m)) => assert_eq!(m, "content_hash does not match payload"),
        other => panic!("expected a stale-hash error, got {other:?}"),
    }
}

#[test]
fn changed_signer_key_id_is_rejected() {
    let hash = content_hash_of_encoding(b"payload");
    let sig = sign_content_hash(&hash, &SECRET, "key-1");
    let r = verify_content_signature(&hash, &hash, "key-2", &sig, &public_key(&SECRET));
    assert!(matches!(r, Err(FingerprintError::Signature(_))));
}

#[test]
fn other_public_key_is_rejected() {
    let hash = content_hash_of_encoding(b"payload");
    let sig = sign_content_hash(&hash, &SECRET, "key-1");
    let r = verify_content_signature(&hash, &hash, "key-1", &sig, &public_key(&[9u8; 32]));
    assert!(matches!(r, Err(FingerprintError::Signature(_))));
}

#[test]
fn public_key_of_matches_the_signing_key() {
    assert_eq!(public_key_of(&SECRET), public_key(&SECRET));
    assert_ne!(public_key_of(&SECRET), SECRET);
}

#[test]
fn sign_then_verify_with_derived_public_key() {
    let hash = content_hash_of_encoding(b"another payload");
    let sig = sign_content_hash(&hash, &SECRET, "key-1");
    assert!(verify_content_signature(&hash, &hash, "key-1", &sig, &public_key_of(&SECRET)).is_ok());
}
