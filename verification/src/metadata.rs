//! Container metadata: a version number and an Ed25519 signature,
//! serialized with CBOR (a self-describing binary encoding) through
//! `ciborium`.  On the wire the metadata is a map with the field names as
//! keys, the signature spelled as an array of 64 small integers.

use vstd::prelude::*;

verus! {

/// The CBOR encoding of a `(version, signature)` pair: a map
/// `{"version": version, "signature": signature bytes}`.  `ciborium`
/// serializes a value deterministically, so the encoding is a function of
/// the pair alone.
pub uninterp spec fn metadata_encoding(version: u32, signature: Seq<u8>) -> Seq<u8>;

/// What decoding a byte sequence as CBOR metadata yields: the
/// `(version, signature)` pair, or nothing for bytes no decoder accepts.
/// Decoding is deterministic, a function of the bytes alone.
pub uninterp spec fn metadata_decoding(bytes: Seq<u8>) -> Option<(u32, Seq<u8>)>;

/// The metadata stored beside the content of a container: the content's
/// version and the Ed25519 signature over the signing message.
pub struct WebContainerMetadata {
    /// Version of the content; zero is never acceptable.
    pub version: u32,
    /// 64-byte Ed25519 signature.
    pub signature: Vec<u8>,
}

/// Relies on `ciborium::ser::into_writer` over a `ciborium::Value` map
/// `{"version": ..., "signature": [...]}`: serialization is deterministic,
/// a function of the encoded pair alone, and writing into a `Vec` cannot
/// fail, so the result is always the full encoding.
#[verifier::external_body]
fn cbor_encode_metadata(version: u32, signature: &[u8]) -> (r: Vec<u8>)
    ensures
        r@ == metadata_encoding(version, signature@),
{
    let sig: Vec<ciborium::Value> =
        signature.iter().map(|b| ciborium::Value::from(*b)).collect();
    let value = ciborium::Value::Map(vec![
        (ciborium::Value::from("version"), ciborium::Value::from(version)),
        (ciborium::Value::from("signature"), ciborium::Value::Array(sig)),
    ]);
    let mut out: Vec<u8> = Vec::new();
    let _ = ciborium::ser::into_writer(&value, &mut out);
    out
}

/// Relies on `ciborium::de::from_reader` (into a map keyed by the field
/// names) and `ciborium::Value::deserialized` (for each field): decoding
/// is a function of the bytes alone, and it inverts
/// `ciborium::ser::into_writer`, so a byte sequence that is exactly the
/// encoding of some `(version, signature)` pair decodes back to that pair.
#[verifier::external_body]
fn cbor_decode_metadata(bytes: &[u8]) -> (r: Option<(u32, Vec<u8>)>)
    ensures
        match r {
            Some(p) => metadata_decoding(bytes@) == Some((p.0, p.1@)),
            None => metadata_decoding(bytes@) is None,
        },
        match r {
            Some(p) => forall|v: u32, sig: Seq<u8>|
                bytes@ == #[trigger] metadata_encoding(v, sig) ==> p.0 == v && p.1@ == sig,
            None => forall|v: u32, sig: Seq<u8>| bytes@ != #[trigger] metadata_encoding(v, sig),
        },
{
    let map: std::collections::BTreeMap<String, ciborium::Value> =
        ciborium::de::from_reader(bytes).ok()?;
    let version: u32 = map.get("version")?.deserialized().ok()?;
    let signature: Vec<u8> = map.get("signature")?.deserialized().ok()?;
    Some((version, signature))
}

impl WebContainerMetadata {
    /// A well-formed metadata value carries a full 64-byte signature.
    pub open spec fn well_formed(&self) -> bool {
        self.signature@.len() == 64
    }

    /// Serializes this metadata value with CBOR.
    pub fn to_bytes(&self) -> (r: Vec<u8>)
        ensures
            r@ == metadata_encoding(self.version, self.signature@),
    {
        cbor_encode_metadata(self.version, self.signature.as_slice())
    }

    /// Deserializes a metadata value from CBOR bytes: exactly the decoded
    /// pair, provided it carries a full 64-byte signature; `None` for
    /// malformed bytes.  Any exact encoding of a version and a 64-byte
    /// signature is recovered as that pair.
    pub fn from_bytes(bytes: &[u8]) -> (r: Option<WebContainerMetadata>)
        ensures
            r matches Some(m) ==> m.well_formed(),
            match metadata_decoding(bytes@) {
                Some(p) => if p.1.len() == 64 {
                    (r matches Some(m) && m.version == p.0 && m.signature@ == p.1)
                } else {
                    r is None
                },
                None => r is None,
            },
            forall|v: u32, sig: Seq<u8>|
                sig.len() == 64 && bytes@ == #[trigger] metadata_encoding(v, sig)
                    ==> (r matches Some(m) && m.version == v && m.signature@ == sig),
    {
        match cbor_decode_metadata(bytes) {
            Some((version, signature)) => {
                if signature.len() == 64 {
                    Some(WebContainerMetadata { version, signature })
                } else {
                    None
                }
            },
            None => None,
        }
    }
}

} // verus!
