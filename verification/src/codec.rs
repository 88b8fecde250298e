//! Container codec: frames a metadata byte sequence and a content byte
//! sequence as `metadata_len:u64(BE) || metadata || content_len:u64(BE) ||
//! content`, and parses that layout back, distinguishing an oversized
//! declared length from a truncated buffer.

use vstd::prelude::*;

use crate::endian::{be_bytes_u64, lemma_u64_be_round_trip, push_u64_be, read_u64_be, u64_be_bytes};

verus! {

/// Largest admissible metadata length, in bytes.
pub const MAX_METADATA_SIZE: u64 = 1024;

/// Largest admissible content length, in bytes: 100 MiB.
pub const MAX_CONTENT_SIZE: u64 = 100 * 1024 * 1024;

/// A structural fault of the container framing.
///
/// An oversized declared length points at a corrupt or malicious container,
/// while a truncated buffer may merely be an incomplete transfer; the two are
/// therefore kept apart.
#[derive(Clone, Copy, Debug, PartialEq, Eq, Structural)]
pub enum FormatError {
    /// A declared length field exceeds its maximum.
    OversizedField,
    /// Fewer bytes remain than a length field declares.
    Truncated,
}

/// The framed layout of a metadata and a content byte sequence.
pub open spec fn spec_frame(metadata: Seq<u8>, content: Seq<u8>) -> Seq<u8> {
    u64_be_bytes(metadata.len() as u64) + metadata + u64_be_bytes(content.len() as u64) + content
}

/// What parsing a byte sequence as a container yields: the metadata and
/// content payloads, or the first framing fault found.  Each length field is
/// checked against its maximum before the payload behind it is read, and
/// bytes after the content payload are ignored.
pub open spec fn spec_decode(s: Seq<u8>) -> Result<(Seq<u8>, Seq<u8>), FormatError> {
    if s.len() < 8 {
        Err(FormatError::Truncated)
    } else {
        let metadata_len = be_bytes_u64(s.subrange(0, 8)) as int;
        if metadata_len > MAX_METADATA_SIZE {
            Err(FormatError::OversizedField)
        } else if s.len() < 16 + metadata_len {
            Err(FormatError::Truncated)
        } else {
            let content_len = be_bytes_u64(s.subrange(8 + metadata_len, 16 + metadata_len)) as int;
            if content_len > MAX_CONTENT_SIZE {
                Err(FormatError::OversizedField)
            } else if s.len() < 16 + metadata_len + content_len {
                Err(FormatError::Truncated)
            } else {
                Ok(
                    (
                        s.subrange(8, 8 + metadata_len),
                        s.subrange(16 + metadata_len, 16 + metadata_len + content_len),
                    ),
                )
            }
        }
    }
}

/// Frames `metadata` and `content` into one container byte sequence.
pub fn encode(metadata: &[u8], content: &[u8]) -> (r: Vec<u8>)
    requires
        metadata@.len() <= MAX_METADATA_SIZE,
        content@.len() <= MAX_CONTENT_SIZE,
    ensures
        r@ == spec_frame(metadata@, content@),
{
    let mut out: Vec<u8> = Vec::new();
    push_u64_be(&mut out, metadata.len() as u64);
    out.extend_from_slice(metadata);
    push_u64_be(&mut out, content.len() as u64);
    out.extend_from_slice(content);
    assert(out@ =~= spec_frame(metadata@, content@));
    out
}

/// Copies `len` bytes of `s` starting at `offset` into a fresh vector.
fn copy_range(s: &[u8], offset: usize, len: usize) -> (r: Vec<u8>)
    requires
        offset + len <= s@.len(),
    ensures
        r@ == s@.subrange(offset as int, offset as int + len as int),
{
    let mut out: Vec<u8> = Vec::new();
    let total: usize = s.len();
    let mut i: usize = 0;
    while i < len
        invariant
            offset + len <= total,
            total == s@.len(),
            i <= len,
            out@ == s@.subrange(offset as int, offset as int + i as int),
        decreases len - i,
    {
        out.push(s[offset + i]);
        assert(out@ =~= s@.subrange(offset as int, offset as int + (i + 1) as int));
        i = i + 1;
    }
    out
}

/// Parses a container byte sequence into its metadata and content payloads.
pub fn decode(s: &[u8]) -> (r: Result<(Vec<u8>, Vec<u8>), FormatError>)
    ensures
        match spec_decode(s@) {
            Ok(p) => r matches Ok(q) && q.0@ == p.0 && q.1@ == p.1,
            Err(e) => r == Err::<(Vec<u8>, Vec<u8>), FormatError>(e),
        },
{
    if s.len() < 8 {
        return Err(FormatError::Truncated);
    }
    let metadata_len = read_u64_be(s, 0);
    if metadata_len > MAX_METADATA_SIZE {
        return Err(FormatError::OversizedField);
    }
    let metadata_len: usize = metadata_len as usize;
    if s.len() - 8 < metadata_len {
        return Err(FormatError::Truncated);
    }
    if s.len() - 8 - metadata_len < 8 {
        return Err(FormatError::Truncated);
    }
    let metadata = copy_range(s, 8, metadata_len);
    let content_len = read_u64_be(s, 8 + metadata_len);
    if content_len > MAX_CONTENT_SIZE {
        return Err(FormatError::OversizedField);
    }
    let content_len: usize = content_len as usize;
    if s.len() - 16 - metadata_len < content_len {
        return Err(FormatError::Truncated);
    }
    let content = copy_range(s, 16 + metadata_len, content_len);
    Ok((metadata, content))
}

/// Round trip: a container framed from payloads within the size bounds
/// parses back to exactly those payloads.
pub proof fn lemma_codec_round_trip(metadata: Seq<u8>, content: Seq<u8>)
    requires
        metadata.len() <= MAX_METADATA_SIZE,
        content.len() <= MAX_CONTENT_SIZE,
    ensures
        spec_decode(spec_frame(metadata, content)) == Ok::<_, FormatError>((metadata, content)),
{
    let s = spec_frame(metadata, content);
    let ml = metadata.len() as int;
    let cl = content.len() as int;
    assert(s.len() == 16 + ml + cl);
    assert(s.subrange(0, 8) =~= u64_be_bytes(metadata.len() as u64));
    lemma_u64_be_round_trip(metadata.len() as u64);
    assert(be_bytes_u64(s.subrange(0, 8)) == metadata.len() as u64);
    assert(s.subrange(8, 8 + ml) =~= metadata);
    assert(s.subrange(8 + ml, 16 + ml) =~= u64_be_bytes(content.len() as u64));
    lemma_u64_be_round_trip(content.len() as u64);
    assert(be_bytes_u64(s.subrange(8 + ml, 16 + ml)) == content.len() as u64);
    assert(s.subrange(16 + ml, 16 + ml + cl) =~= content);
}

} // verus!
