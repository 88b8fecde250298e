//! Offline signer: derives keypairs and produces signed container metadata
//! out of band, for a packaging step that frames it with the content.
//! Reading seeds and content from disk and writing the results back is the
//! surrounding tool's business; this module only computes.

use vstd::prelude::*;

use crate::codec::{encode, spec_frame, MAX_CONTENT_SIZE, MAX_METADATA_SIZE};
use crate::contract::{build_signing_message, spec_signing_message, valid_container_for};
use crate::crypto::{derive_public_key, ed25519_sign, ed25519_verifies, generate_seed,
    is_valid_public_key, public_key_of, signature_of};
use crate::metadata::{metadata_encoding, WebContainerMetadata};

verus! {

/// Draws a fresh keypair: a 32-byte seed and the 32-byte public key
/// derived from it.
pub fn generate_keypair() -> (r: (Vec<u8>, Vec<u8>))
    ensures
        r.0@.len() == 32,
        r.1@ == public_key_of(r.0@),
        r.1@.len() == 32,
        is_valid_public_key(r.1@),
{
    let seed = generate_seed();
    let public_key = derive_public_key(seed.as_slice());
    (seed, public_key)
}

/// Signs `content` under `version`: builds the signing message
/// `version_BE(4) || content`, signs it with the key derived from `seed`,
/// and serializes the resulting metadata with CBOR.
pub fn sign_metadata(seed: &[u8], version: u32, content: &[u8]) -> (r: Vec<u8>)
    requires
        seed@.len() == 32,
    ensures
        r@ == metadata_encoding(
            version,
            signature_of(seed@, spec_signing_message(version, content@)),
        ),
        ed25519_verifies(
            public_key_of(seed@),
            spec_signing_message(version, content@),
            signature_of(seed@, spec_signing_message(version, content@)),
        ),
        signature_of(seed@, spec_signing_message(version, content@)).len() == 64,
{
    let message = build_signing_message(version, content);
    let signature = ed25519_sign(seed, message.as_slice());
    let metadata = WebContainerMetadata { version, signature };
    metadata.to_bytes()
}

/// Signs `content` under `version` and frames metadata and content into a
/// complete container.  `None` comes only if the serialized metadata
/// outgrew its size bound; the chosen encoding stays far below it, but the
/// bound is checked rather than trusted.
pub fn sign_container(seed: &[u8], version: u32, content: &[u8]) -> (r: Option<Vec<u8>>)
    requires
        seed@.len() == 32,
        content@.len() <= MAX_CONTENT_SIZE,
    ensures
        ({
            let sig = signature_of(seed@, spec_signing_message(version, content@));
            &&& (r matches Some(container) ==> container@ == spec_frame(
                metadata_encoding(version, sig),
                content@,
            ) && (version != 0 ==> valid_container_for(public_key_of(seed@), container@)))
            &&& (r is None <==> metadata_encoding(version, sig).len() > MAX_METADATA_SIZE)
        }),
{
    let metadata_bytes = sign_metadata(seed, version, content);
    if metadata_bytes.len() as u64 > MAX_METADATA_SIZE {
        return None;
    }
    let container = encode(metadata_bytes.as_slice(), content);
    proof {
        if version != 0 {
            crate::contract::lemma_signed_container_accepted(
                public_key_of(seed@),
                version,
                signature_of(seed@, spec_signing_message(version, content@)),
                content@,
            );
        }
    }
    Some(container)
}

} // verus!
