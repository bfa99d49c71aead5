//! Little-endian 32-bit integers on the wire: the length fields of the
//! record codec and the frame prefix of the RPC transport.

use vstd::prelude::*;

verus! {

/// The four little-endian bytes of `n`.
pub open spec fn spec_le32(n: u32) -> Seq<u8> {
    seq![
        (n & 0xff) as u8,
        ((n >> 8) & 0xff) as u8,
        ((n >> 16) & 0xff) as u8,
        ((n >> 24) & 0xff) as u8,
    ]
}

/// The value of four little-endian bytes.
pub open spec fn spec_from_le32(s: Seq<u8>) -> u32
    recommends
        s.len() == 4,
{
    (s[0] as u32) | (s[1] as u32) << 8 | (s[2] as u32) << 16 | (s[3] as u32) << 24
}

/// Reading back the four little-endian bytes of `n` yields `n`.
pub proof fn lemma_le32_round_trip(n: u32)
    ensures
        spec_from_le32(spec_le32(n)) == n,
{
    assert((((n & 0xff) as u8) as u32) | ((((n >> 8) & 0xff) as u8) as u32) << 8 | ((((n >> 16)
        & 0xff) as u8) as u32) << 16 | ((((n >> 24) & 0xff) as u8) as u32) << 24 == n)
        by (bit_vector);
}

/// Appends the four little-endian bytes of `n` to `out`.
pub fn push_le32(out: &mut Vec<u8>, n: u32)
    ensures
        final(out)@ == old(out)@ + spec_le32(n),
{
    let b0: u8 = (n & 0xff) as u8;
    let b1: u8 = ((n >> 8) & 0xff) as u8;
    let b2: u8 = ((n >> 16) & 0xff) as u8;
    let b3: u8 = ((n >> 24) & 0xff) as u8;
    out.push(b0);
    out.push(b1);
    out.push(b2);
    out.push(b3);
    assert(out@ =~= old(out)@ + spec_le32(n));
}

/// Reads the little-endian 32-bit value stored at `i`.
pub fn read_le32(s: &Vec<u8>, i: usize) -> (r: u32)
    requires
        i + 4 <= s@.len(),
    ensures
        r == spec_from_le32(s@.subrange(i as int, i + 4)),
{
    let n = s.len();
    let b0 = s[i];
    let b1 = s[i + 1];
    let b2 = s[i + 2];
    let b3 = s[i + 3];
    let r = (b0 as u32) | (b1 as u32) << 8 | (b2 as u32) << 16 | (b3 as u32) << 24;
    proof {
        let sub = s@.subrange(i as int, i + 4);
        assert(sub[0] == b0 && sub[1] == b1 && sub[2] == b2 && sub[3] == b3);
    }
    r
}

} // verus!

verus! {

/// Copies the window `[a, b)` of `s` into a fresh vector.
pub fn copy_range(s: &Vec<u8>, a: usize, b: usize) -> (r: Vec<u8>)
    requires
        a <= b <= s@.len(),
    ensures
        r@ == s@.subrange(a as int, b as int),
{
    let mut r: Vec<u8> = Vec::new();
    let mut k = a;
    while k < b
        invariant
            a <= k <= b <= s@.len(),
            r@ == s@.subrange(a as int, k as int),
        decreases b - k,
    {
        r.push(s[k]);
        assert(s@.subrange(a as int, k + 1) =~= s@.subrange(a as int, k as int).push(s@[k as int]));
        k += 1;
    }
    r
}

} // verus!
