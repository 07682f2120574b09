//! The calls into the hashing and signature crates.
//!
//! Each item here is trusted: Verus believes its contract and does not read
//! its body. The contracts only name the results of the outside functions.

use vstd::prelude::*;

use ed25519_dalek::{Signer, Verifier};

verus! {

/// The BLAKE3 digest (32 bytes) of `data`.
pub uninterp spec fn blake3_digest(data: Seq<u8>) -> Seq<u8>;

/// The ed25519 signature (64 bytes) that the secret key `secret_key`
/// produces on `message`. Ed25519 signing (RFC 8032) is deterministic.
pub uninterp spec fn ed25519_signature(secret_key: Seq<u8>, message: Seq<u8>) -> Seq<u8>;

/// The encoded ed25519 public key (32 bytes) that belongs to the secret key
/// `secret_key`.
pub uninterp spec fn ed25519_public_key(secret_key: Seq<u8>) -> Seq<u8>;

/// Whether `signature` is a valid ed25519 signature of `message` under the
/// encoded public key `public_key` (which must decode to a curve point).
pub uninterp spec fn ed25519_accepts(public_key: Seq<u8>, message: Seq<u8>, signature: Seq<u8>) -> bool;

/// The error type of ed25519 key decoding and signature verification.
#[verifier::external_type_specification]
#[verifier::external_body]
pub struct ExSignatureError(ed25519_dalek::SignatureError);

/// Calls `blake3::hash` on `data`. Claimed: the result is the BLAKE3
/// digest of `data`, which depends on `data` alone.
#[verifier::external_body]
pub(crate) fn blake3_hash(data: &[u8]) -> (h: [u8; 32])
    ensures
        h@ == blake3_digest(data@),
{
    *blake3::hash(data).as_bytes()
}

/// Calls `ed25519_dalek::SigningKey::from_bytes` on the secret key and then
/// `SigningKey::verifying_key` and `VerifyingKey::to_bytes`. Claimed: the
/// result is the encoded public key of `secret_key`, which depends on the
/// secret key alone.
#[verifier::external_body]
pub(crate) fn ed25519_public_key_of(secret_key: &[u8; 32]) -> (pk: [u8; 32])
    ensures
        pk@ == ed25519_public_key(secret_key@),
{
    ed25519_dalek::SigningKey::from_bytes(secret_key).verifying_key().to_bytes()
}

/// Calls `ed25519_dalek::SigningKey::from_bytes` on the secret key and then
/// `Signer::sign` on `message`. Claimed: the result is the deterministic
/// ed25519 signature of `message` under `secret_key`, and it verifies over
/// `message` under the public key of `secret_key` (ed25519 correctness).
#[verifier::external_body]
pub(crate) fn ed25519_sign(secret_key: &[u8; 32], message: &[u8]) -> (sig: [u8; 64])
    ensures
        sig@ == ed25519_signature(secret_key@, message@),
        ed25519_accepts(ed25519_public_key(secret_key@), message@, sig@),
{
    ed25519_dalek::SigningKey::from_bytes(secret_key).sign(message).to_bytes()
}

/// Calls `ed25519_dalek::VerifyingKey::from_bytes` on the public key and
/// then `Verifier::verify` on `message` and `signature`. Claimed: the call
/// succeeds exactly when the key decodes and the signature is valid, which
/// depends on the three byte strings alone.
#[verifier::external_body]
pub(crate) fn ed25519_verify(public_key: &[u8; 32], message: &[u8], signature: &[u8; 64]) -> (r: Result<(), ed25519_dalek::SignatureError>)
    ensures
        r is Ok <==> ed25519_accepts(public_key@, message@, signature@),
{
    let sig = ed25519_dalek::Signature::from_bytes(signature);
    ed25519_dalek::VerifyingKey::from_bytes(public_key)?.verify(message, &sig)
}

} // verus!
