//! Big-endian encoding of the fixed-width integers that appear in the
//! container framing (`u64` length fields) and in the signing message
//! (`u32` version prefix).

use vstd::prelude::*;

verus! {

/// The eight bytes of `n`, most significant first.
pub open spec fn u64_be_bytes(n: u64) -> Seq<u8> {
    seq![
        (n >> 56) as u8,
        (n >> 48) as u8,
        (n >> 40) as u8,
        (n >> 32) as u8,
        (n >> 24) as u8,
        (n >> 16) as u8,
        (n >> 8) as u8,
        n as u8,
    ]
}

/// The `u64` read from eight bytes, most significant first.
pub open spec fn be_bytes_u64(b: Seq<u8>) -> u64
    recommends
        b.len() == 8,
{
    (((b[0] as u64) << 56) | ((b[1] as u64) << 48) | ((b[2] as u64) << 40)
        | ((b[3] as u64) << 32) | ((b[4] as u64) << 24) | ((b[5] as u64) << 16)
        | ((b[6] as u64) << 8) | (b[7] as u64)) as u64
}

/// The four bytes of `n`, most significant first.
pub open spec fn u32_be_bytes(n: u32) -> Seq<u8> {
    seq![(n >> 24) as u8, (n >> 16) as u8, (n >> 8) as u8, n as u8]
}

/// Reading back the eight big-endian bytes of `n` yields `n` again.
pub proof fn lemma_u64_be_round_trip(n: u64)
    ensures
        be_bytes_u64(u64_be_bytes(n)) == n,
{
    assert(((((n >> 56) as u8) as u64) << 56) | ((((n >> 48) as u8) as u64) << 48)
        | ((((n >> 40) as u8) as u64) << 40) | ((((n >> 32) as u8) as u64) << 32)
        | ((((n >> 24) as u8) as u64) << 24) | ((((n >> 16) as u8) as u64) << 16)
        | ((((n >> 8) as u8) as u64) << 8) | ((n as u8) as u64) == n) by (bit_vector);
}

/// Appends the eight big-endian bytes of `n` to `out`.
pub fn push_u64_be(out: &mut Vec<u8>, n: u64)
    ensures
        final(out)@ == old(out)@ + u64_be_bytes(n),
{
    out.push((n >> 56) as u8);
    out.push((n >> 48) as u8);
    out.push((n >> 40) as u8);
    out.push((n >> 32) as u8);
    out.push((n >> 24) as u8);
    out.push((n >> 16) as u8);
    out.push((n >> 8) as u8);
    out.push(n as u8);
    assert(out@ =~= old(out)@ + u64_be_bytes(n));
}

/// Appends the four big-endian bytes of `n` to `out`.
pub fn push_u32_be(out: &mut Vec<u8>, n: u32)
    ensures
        final(out)@ == old(out)@ + u32_be_bytes(n),
{
    out.push((n >> 24) as u8);
    out.push((n >> 16) as u8);
    out.push((n >> 8) as u8);
    out.push(n as u8);
    assert(out@ =~= old(out)@ + u32_be_bytes(n));
}

/// Reads the big-endian `u64` that starts at `offset` in `s`.
pub fn read_u64_be(s: &[u8], offset: usize) -> (r: u64)
    requires
        offset + 8 <= s@.len(),
    ensures
        r == be_bytes_u64(s@.subrange(offset as int, offset as int + 8)),
{
    let r = ((s[offset] as u64) << 56) | ((s[offset + 1] as u64) << 48)
        | ((s[offset + 2] as u64) << 40) | ((s[offset + 3] as u64) << 32)
        | ((s[offset + 4] as u64) << 24) | ((s[offset + 5] as u64) << 16)
        | ((s[offset + 6] as u64) << 8) | (s[offset + 7] as u64);
    proof {
        let b = s@.subrange(offset as int, offset as int + 8);
        assert(b[0] == s@[offset as int]);
        assert(b[7] == s@[offset as int + 7]);
    }
    r
}

} // verus!
