//! Verified core of a signed web-container store: a length-prefixed binary
//! container holding CBOR metadata (a version and an Ed25519 signature)
//! next to raw content, a verifier that judges a stored container against a
//! public key, a key-custody delegate that signs content on request, and
//! the signing logic behind an offline publishing tool.

pub mod codec;
pub mod contract;
pub mod crypto;
pub mod delegate;
pub mod endian;
pub mod metadata;
pub mod signer;
pub mod simple_contract;
