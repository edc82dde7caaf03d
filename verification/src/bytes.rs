//! Little-endian byte serialisation of the integer words that make up vertex
//! and index buffers.  The byte sequences are stated as spec functions and the
//! executable packers are proved to produce exactly those sequences.

use vstd::prelude::*;

verus! {

/// The two little-endian bytes of a 16-bit word, least significant first.
pub open spec fn le16_bytes(x: u16) -> Seq<u8> {
    seq![(x % 256) as u8, ((x / 256) % 256) as u8]
}

/// The four little-endian bytes of a 32-bit word, least significant first.
pub open spec fn le32_bytes(x: u32) -> Seq<u8> {
    seq![
        (x % 256) as u8,
        ((x / 256) % 256) as u8,
        ((x / 65536) % 256) as u8,
        ((x / 16777216) % 256) as u8,
    ]
}

/// All words of a sequence serialised back to back, two bytes each.
pub open spec fn u16s_le_bytes(s: Seq<u16>) -> Seq<u8>
    decreases s.len(),
{
    if s.len() == 0 {
        Seq::empty()
    } else {
        u16s_le_bytes(s.drop_last()) + le16_bytes(s.last())
    }
}

/// All words of a sequence serialised back to back, four bytes each.
pub open spec fn u32s_le_bytes(s: Seq<u32>) -> Seq<u8>
    decreases s.len(),
{
    if s.len() == 0 {
        Seq::empty()
    } else {
        u32s_le_bytes(s.drop_last()) + le32_bytes(s.last())
    }
}

pub proof fn lemma_u16s_le_bytes_len(s: Seq<u16>)
    ensures
        u16s_le_bytes(s).len() == 2 * s.len(),
    decreases s.len(),
{
    if s.len() > 0 {
        lemma_u16s_le_bytes_len(s.drop_last());
    }
}

pub proof fn lemma_u32s_le_bytes_len(s: Seq<u32>)
    ensures
        u32s_le_bytes(s).len() == 4 * s.len(),
    decreases s.len(),
{
    if s.len() > 0 {
        lemma_u32s_le_bytes_len(s.drop_last());
    }
}

/// Appends the two little-endian bytes of `x`.
pub fn push_le16(out: &mut Vec<u8>, x: u16)
    ensures
        final(out)@ == old(out)@ + le16_bytes(x),
{
    let lo: u8 = (x % 256) as u8;
    let hi: u8 = ((x / 256) % 256) as u8;
    out.push(lo);
    out.push(hi);
    proof {
        assert(out@ =~= old(out)@ + le16_bytes(x));
    }
}

/// Appends the four little-endian bytes of `x`.
pub fn push_le32(out: &mut Vec<u8>, x: u32)
    ensures
        final(out)@ == old(out)@ + le32_bytes(x),
{
    let b0: u8 = (x % 256) as u8;
    let b1: u8 = ((x / 256) % 256) as u8;
    let b2: u8 = ((x / 65536) % 256) as u8;
    let b3: u8 = ((x / 16777216) % 256) as u8;
    out.push(b0);
    out.push(b1);
    out.push(b2);
    out.push(b3);
    proof {
        assert(out@ =~= old(out)@ + le32_bytes(x));
    }
}

/// Serialises a whole index buffer of 16-bit words.
pub fn pack_u16s_le(v: &Vec<u16>) -> (r: Vec<u8>)
    ensures
        r@ == u16s_le_bytes(v@),
{
    let mut out: Vec<u8> = Vec::new();
    let mut i: usize = 0;
    while i < v.len()
        invariant
            i <= v@.len(),
            out@ == u16s_le_bytes(v@.take(i as int)),
        decreases v@.len() - i,
    {
        push_le16(&mut out, v[i]);
        proof {
            assert(v@.take(i as int + 1).drop_last() =~= v@.take(i as int));
            assert(v@.take(i as int + 1).last() == v@[i as int]);
        }
        i = i + 1;
    }
    proof {
        assert(v@.take(v@.len() as int) =~= v@);
    }
    out
}

/// Serialises a whole index buffer of 32-bit words.
pub fn pack_u32s_le(v: &Vec<u32>) -> (r: Vec<u8>)
    ensures
        r@ == u32s_le_bytes(v@),
{
    let mut out: Vec<u8> = Vec::new();
    let mut i: usize = 0;
    while i < v.len()
        invariant
            i <= v@.len(),
            out@ == u32s_le_bytes(v@.take(i as int)),
        decreases v@.len() - i,
    {
        push_le32(&mut out, v[i]);
        proof {
            assert(v@.take(i as int + 1).drop_last() =~= v@.take(i as int));
            assert(v@.take(i as int + 1).last() == v@[i as int]);
        }
        i = i + 1;
    }
    proof {
        assert(v@.take(v@.len() as int) =~= v@);
    }
    out
}

} // verus!
