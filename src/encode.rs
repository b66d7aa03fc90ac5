//! Explicit little-endian serialisation of staged vertex words and indices,
//! as uploaded to device buffers.
use vstd::prelude::*;

verus! {

/// The four bytes of a 32-bit word, least significant first.
pub open spec fn word_bytes(w: u32) -> Seq<u8> {
    seq![
        (w & 0xff) as u8,
        ((w >> 8u32) & 0xff) as u8,
        ((w >> 16u32) & 0xff) as u8,
        ((w >> 24u32) & 0xff) as u8,
    ]
}

/// The two bytes of a 16-bit index, least significant first.
pub open spec fn half_bytes(h: u16) -> Seq<u8> {
    seq![(h & 0xff) as u8, ((h >> 8u16) & 0xff) as u8]
}

/// The little-endian image of a sequence of 32-bit words.
pub open spec fn le_words(s: Seq<u32>) -> Seq<u8>
    decreases s.len(),
{
    if s.len() == 0 {
        Seq::empty()
    } else {
        le_words(s.drop_last()) + word_bytes(s.last())
    }
}

/// The little-endian image of a sequence of 16-bit indices.
pub open spec fn le_halves(s: Seq<u16>) -> Seq<u8>
    decreases s.len(),
{
    if s.len() == 0 {
        Seq::empty()
    } else {
        le_halves(s.drop_last()) + half_bytes(s.last())
    }
}

/// Encodes the first `len` words of `src`, four bytes each, least significant byte first.
pub fn encode_words(src: &Vec<u32>, len: usize) -> (r: Vec<u8>)
    requires
        len <= src.len(),
        4 * len <= usize::MAX,
    ensures
        r@ == le_words(src@.subrange(0, len as int)),
{
    let mut out: Vec<u8> = Vec::with_capacity(4 * len);
    let mut i: usize = 0;
    while i < len
        invariant
            i <= len,
            len <= src.len(),
            out@ == le_words(src@.subrange(0, i as int)),
        decreases len - i,
    {
        let w = src[i];
        out.push((w & 0xff) as u8);
        out.push(((w >> 8u32) & 0xff) as u8);
        out.push(((w >> 16u32) & 0xff) as u8);
        out.push(((w >> 24u32) & 0xff) as u8);
        proof {
            let next = src@.subrange(0, i + 1);
            assert(next.drop_last() =~= src@.subrange(0, i as int));
            assert(next.last() == w);
            assert(out@ =~= le_words(next));
        }
        i = i + 1;
    }
    out
}

/// Encodes the first `len` indices of `src`, two bytes each, least significant byte first.
pub fn encode_halves(src: &Vec<u16>, len: usize) -> (r: Vec<u8>)
    requires
        len <= src.len(),
        2 * len <= usize::MAX,
    ensures
        r@ == le_halves(src@.subrange(0, len as int)),
{
    let mut out: Vec<u8> = Vec::with_capacity(2 * len);
    let mut i: usize = 0;
    while i < len
        invariant
            i <= len,
            len <= src.len(),
            out@ == le_halves(src@.subrange(0, i as int)),
        decreases len - i,
    {
        let h = src[i];
        out.push((h & 0xff) as u8);
        out.push(((h >> 8u16) & 0xff) as u8);
        proof {
            let next = src@.subrange(0, i + 1);
            assert(next.drop_last() =~= src@.subrange(0, i as int));
            assert(next.last() == h);
            assert(out@ =~= le_halves(next));
        }
        i = i + 1;
    }
    out
}

} // verus!
