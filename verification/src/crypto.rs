//! Trusted boundary to the cryptographic primitives: Ed25519 key handling,
//! signing and verification from `ed25519-dalek`, and SHA-256 from `sha2`.
//!
//! Each uninterpreted spec function names the result of one outside
//! computation; the wrappers below state of those names only what the
//! crates' sources and documentation show.

use vstd::prelude::*;

use ed25519_dalek::Signer;
use ed25519_dalek::Verifier;
use sha2::Digest;

verus! {

/// The SHA-256 digest of a byte sequence: 32 bytes, a function of the input
/// alone.
pub uninterp spec fn sha256_of(bytes: Seq<u8>) -> Seq<u8>;

/// The Ed25519 public key derived from a 32-byte seed.
pub uninterp spec fn public_key_of(seed: Seq<u8>) -> Seq<u8>;

/// The Ed25519 signature of a message under the key derived from a 32-byte
/// seed.  Ed25519 signing is deterministic (RFC 8032), so the signature is a
/// function of seed and message alone.
pub uninterp spec fn signature_of(seed: Seq<u8>, message: Seq<u8>) -> Seq<u8>;

/// Whether an Ed25519 signature verifies under a public key for a message.
pub uninterp spec fn ed25519_verifies(public_key: Seq<u8>, message: Seq<u8>, signature: Seq<u8>) -> bool;

/// Whether 32 bytes decode to a valid Ed25519 public key.
pub uninterp spec fn is_valid_public_key(bytes: Seq<u8>) -> bool;

/// Relies on `sha2::Sha256` (`Digest::update`, `Digest::finalize`): the
/// digest is 32 bytes and depends on the input bytes alone.
#[verifier::external_body]
pub(crate) fn sha256(bytes: &[u8]) -> (r: Vec<u8>)
    ensures
        r@ == sha256_of(bytes@),
        r@.len() == 32,
{
    let mut hasher = sha2::Sha256::new();
    hasher.update(bytes);
    hasher.finalize().to_vec()
}

/// Relies on `ed25519_dalek::SigningKey::generate` with `rand`'s `OsRng`:
/// it fills a 32-byte seed from the operating system's entropy source.
/// The seed is random, so nothing is assumed of its value.
#[verifier::external_body]
pub(crate) fn generate_seed() -> (r: Vec<u8>)
    ensures
        r@.len() == 32,
{
    let mut rng = rand::rngs::OsRng;
    let key = ed25519_dalek::SigningKey::generate(&mut rng);
    key.to_bytes().to_vec()
}

/// Relies on `ed25519_dalek::SigningKey::from_bytes` and
/// `VerifyingKey::to_bytes`: the public key is derived from the seed alone,
/// is 32 bytes, and — being the compressed form of a curve point — decodes
/// back through `VerifyingKey::from_bytes`.
#[verifier::external_body]
pub(crate) fn derive_public_key(seed: &[u8]) -> (r: Vec<u8>)
    requires
        seed@.len() == 32,
    ensures
        r@ == public_key_of(seed@),
        r@.len() == 32,
        is_valid_public_key(r@),
{
    let bytes: [u8; 32] = seed.try_into().unwrap();
    let key = ed25519_dalek::SigningKey::from_bytes(&bytes);
    key.verifying_key().to_bytes().to_vec()
}

/// Relies on `ed25519_dalek::SigningKey::sign`: deterministic Ed25519
/// (RFC 8032), 64 bytes, a function of seed and message alone; a signature
/// so produced verifies under the public key derived from the same seed.
#[verifier::external_body]
pub(crate) fn ed25519_sign(seed: &[u8], message: &[u8]) -> (r: Vec<u8>)
    requires
        seed@.len() == 32,
    ensures
        r@ == signature_of(seed@, message@),
        r@.len() == 64,
        ed25519_verifies(public_key_of(seed@), message@, r@),
{
    let bytes: [u8; 32] = seed.try_into().unwrap();
    let key = ed25519_dalek::SigningKey::from_bytes(&bytes);
    key.sign(message).to_bytes().to_vec()
}

/// Relies on `ed25519_dalek::VerifyingKey::from_bytes`: whether the 32
/// bytes decompress to a curve point is a function of the bytes alone.
#[verifier::external_body]
pub(crate) fn check_public_key(bytes: &[u8]) -> (r: bool)
    requires
        bytes@.len() == 32,
    ensures
        r == is_valid_public_key(bytes@),
{
    let arr: [u8; 32] = bytes.try_into().unwrap();
    ed25519_dalek::VerifyingKey::from_bytes(&arr).is_ok()
}

/// Relies on `ed25519_dalek::VerifyingKey::verify` (with
/// `VerifyingKey::from_bytes` and `Signature::from_bytes` converting the
/// arguments): the outcome is a function of key, message and signature
/// alone.  The key bytes must decode, else `from_bytes` has no key to give.
#[verifier::external_body]
pub(crate) fn ed25519_verify(public_key: &[u8], message: &[u8], signature: &[u8]) -> (r: bool)
    requires
        public_key@.len() == 32,
        is_valid_public_key(public_key@),
        signature@.len() == 64,
    ensures
        r == ed25519_verifies(public_key@, message@, signature@),
{
    let pk: [u8; 32] = public_key.try_into().unwrap();
    let key = ed25519_dalek::VerifyingKey::from_bytes(&pk).unwrap();
    let sig_bytes: [u8; 64] = signature.try_into().unwrap();
    let sig = ed25519_dalek::Signature::from_bytes(&sig_bytes);
    key.verify(message, &sig).is_ok()
}

} // verus!
