//! Content hashing and ed25519 signing of fingerprints, at the byte level.
//!
//! A fingerprint's content hash is BLAKE3 over [`HASH_DOMAIN`] followed by
//! the canonical CBOR encoding of the fingerprint without its hash; the
//! encoding itself is produced by the caller. A signature covers
//! `HASH_DOMAIN || content_hash || signer_key_id`.

use vstd::prelude::*;
use vstd::string::StringSliceAdditionalSpecFns;

use crate::crypto::{
    blake3_digest, blake3_hash, ed25519_accepts, ed25519_public_key, ed25519_public_key_of,
    ed25519_sign, ed25519_signature, ed25519_verify,
};
use crate::error::FingerprintError;

verus! {

/// Domain separator prepended to the canonical CBOR encoding before hashing:
/// the bytes of `AGENTLOCK-FP-v1` followed by a zero byte.
pub const HASH_DOMAIN: [u8; 16] = [65, 71, 69, 78, 84, 76, 79, 67, 75, 45, 70, 80, 45, 118, 49, 0];

/// Appends the bytes of `s` to `v`.
fn append_bytes(v: &mut Vec<u8>, s: &[u8])
    ensures
        final(v)@ == old(v)@ + s@,
{
    let mut i: usize = 0;
    while i < s.len()
        invariant
            i <= s@.len(),
            v@ == old(v)@ + s@.take(i as int),
        decreases s@.len() - i,
    {
        v.push(s[i]);
        i = i + 1;
        proof {
            assert(s@.take(i as int) =~= s@.take(i - 1).push(s@[i - 1]));
        }
    }
    proof {
        assert(s@.take(s@.len() as int) =~= s@);
    }
}

/// The bytes fed to the signer and verifier.
pub open spec fn spec_signing_message(content_hash: Seq<u8>, signer_key_id: &str) -> Seq<u8> {
    HASH_DOMAIN@ + content_hash + signer_key_id.spec_bytes()
}

/// Bytes actually fed to the signer / verifier:
/// `HASH_DOMAIN || content_hash || signer_key_id`.
pub fn signing_message(content_hash: &[u8; 32], signer_key_id: &str) -> (msg: Vec<u8>)
    ensures
        msg@ == spec_signing_message(content_hash@, signer_key_id),
{
    let mut msg: Vec<u8> = Vec::new();
    append_bytes(&mut msg, HASH_DOMAIN.as_slice());
    append_bytes(&mut msg, content_hash.as_slice());
    append_bytes(&mut msg, signer_key_id.as_bytes());
    msg
}

/// The content hash of a fingerprint whose canonical encoding (without its
/// hash) is `encoding`.
pub open spec fn spec_content_hash(encoding: Seq<u8>) -> Seq<u8> {
    blake3_digest(HASH_DOMAIN@ + encoding)
}

/// BLAKE3 of `HASH_DOMAIN || encoding`, where `encoding` is the canonical
/// CBOR encoding of a fingerprint with its content hash left out.
pub fn content_hash_of_encoding(encoding: &[u8]) -> (h: [u8; 32])
    ensures
        h@ == spec_content_hash(encoding@),
{
    let mut framed: Vec<u8> = Vec::new();
    append_bytes(&mut framed, HASH_DOMAIN.as_slice());
    append_bytes(&mut framed, encoding);
    blake3_hash(framed.as_slice())
}

/// The ed25519 public key that verifies signatures made with `secret_key`.
pub fn public_key_of(secret_key: &[u8; 32]) -> (pk: [u8; 32])
    ensures
        pk@ == ed25519_public_key(secret_key@),
{
    ed25519_public_key_of(secret_key)
}

/// Signs a content hash on behalf of `key_id` with the ed25519 secret key
/// `secret_key`: the signature covers [`signing_message`], and it verifies
/// under [`public_key_of`] `secret_key`, so that
/// [`verify_content_signature`] accepts it while the hash is current.
pub fn sign_content_hash(content_hash: &[u8; 32], secret_key: &[u8; 32], key_id: &str) -> (sig: [u8; 64])
    ensures
        sig@ == ed25519_signature(secret_key@, spec_signing_message(content_hash@, key_id)),
        ed25519_accepts(
            ed25519_public_key(secret_key@),
            spec_signing_message(content_hash@, key_id),
            sig@,
        ),
{
    let msg = signing_message(content_hash, key_id);
    ed25519_sign(secret_key, msg.as_slice())
}

/// Whether two 32-byte hashes are equal.
fn hashes_equal(a: &[u8; 32], b: &[u8; 32]) -> (r: bool)
    ensures
        r == (a@ == b@),
{
    let mut i: usize = 0;
    while i < 32
        invariant
            i <= 32,
            a@.len() == 32,
            b@.len() == 32,
            forall|j: int| 0 <= j < i ==> a@[j] == b@[j],
        decreases 32 - i,
    {
        if a[i] != b[i] {
            return false;
        }
        i = i + 1;
    }
    proof {
        assert(a@ =~= b@);
    }
    true
}

/// The message reported when a stored content hash disagrees with the
/// recomputed one.
pub open spec fn stale_hash_message() -> Seq<char> {
    "content_hash does not match payload"@
}

/// Verifies a signed fingerprint given its stored content hash, the hash
/// recomputed from its payload, the declared signer, the signature and the
/// signer's ed25519 public key.
///
/// Fails with [`FingerprintError::Signature`] when the stored hash is stale
/// (the payload was tampered with) and when the signature does not verify
/// over `HASH_DOMAIN || recomputed || signer_key_id`.
pub fn verify_content_signature(
    stored_hash: &[u8; 32],
    recomputed_hash: &[u8; 32],
    signer_key_id: &str,
    signature: &[u8; 64],
    public_key: &[u8; 32],
) -> (r: Result<(), FingerprintError>)
    ensures
        r is Ok <==> (stored_hash@ == recomputed_hash@ && ed25519_accepts(
            public_key@,
            spec_signing_message(recomputed_hash@, signer_key_id),
            signature@,
        )),
        stored_hash@ != recomputed_hash@ ==> (r matches Err(FingerprintError::Signature(m))
            && m@ == stale_hash_message()),
        r matches Err(e) ==> e is Signature,
{
    if !hashes_equal(recomputed_hash, stored_hash) {
        return Err(FingerprintError::Signature("content_hash does not match payload".to_owned()));
    }
    let msg = signing_message(recomputed_hash, signer_key_id);
    match ed25519_verify(public_key, msg.as_slice(), signature) {
        Ok(()) => Ok(()),
        Err(e) => Err(FingerprintError::Signature(e.to_string())),
    }
}

/// Law: a signing message binds both the content hash and the declared
/// signer: two different 32-byte hashes, or two different signer key ids,
/// never yield the same message.
pub proof fn signing_message_binds_hash_and_signer(h1: Seq<u8>, h2: Seq<u8>, k1: &str, k2: &str)
    requires
        h1.len() == 32,
        h2.len() == 32,
        spec_signing_message(h1, k1) == spec_signing_message(h2, k2),
    ensures
        h1 == h2,
        k1@ == k2@,
{
    broadcast use vstd::utf8::encode_utf8_decode_utf8;

    let m1 = spec_signing_message(h1, k1);
    let m2 = spec_signing_message(h2, k2);
    assert(HASH_DOMAIN@.len() == 16);
    assert(h1 =~= m1.subrange(16, 48));
    assert(h2 =~= m2.subrange(16, 48));
    assert(k1.spec_bytes() =~= m1.subrange(48, m1.len() as int));
    assert(k2.spec_bytes() =~= m2.subrange(48, m2.len() as int));
    assert(vstd::utf8::decode_utf8(k1.spec_bytes()) == k1@);
    assert(vstd::utf8::decode_utf8(k2.spec_bytes()) == k2@);
}

} // verus!
