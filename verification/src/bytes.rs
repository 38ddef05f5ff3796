//! Byte-order helpers: little- and big-endian encodings of 16- and 32-bit
//! values, with exact specifications and round-trip proofs.

use vstd::prelude::*;

verus! {

/// Little-endian bytes of a 16-bit value.
pub open spec fn spec_le16(x: u16) -> Seq<u8> {
    seq![(x & 0xff) as u8, ((x >> 8) & 0xff) as u8]
}

/// Big-endian bytes of a 16-bit value.
pub open spec fn spec_be16(x: u16) -> Seq<u8> {
    seq![((x >> 8) & 0xff) as u8, (x & 0xff) as u8]
}

/// Little-endian bytes of a 32-bit value.
pub open spec fn spec_le32(x: u32) -> Seq<u8> {
    seq![
        (x & 0xff) as u8,
        ((x >> 8) & 0xff) as u8,
        ((x >> 16) & 0xff) as u8,
        ((x >> 24) & 0xff) as u8,
    ]
}

/// Big-endian bytes of a 32-bit value.
pub open spec fn spec_be32(x: u32) -> Seq<u8> {
    seq![
        ((x >> 24) & 0xff) as u8,
        ((x >> 16) & 0xff) as u8,
        ((x >> 8) & 0xff) as u8,
        (x & 0xff) as u8,
    ]
}

/// The 32-bit value read from four little-endian bytes.
pub open spec fn spec_u32_from_le(b: Seq<u8>) -> u32
    recommends
        b.len() == 4,
{
    (b[0] as u32) | ((b[1] as u32) << 8) | ((b[2] as u32) << 16) | ((b[3] as u32) << 24)
}

/// Encoding a 16-bit value little endian.
pub fn write_u16_le(x: u16) -> (b: Vec<u8>)
    ensures
        b@ == spec_le16(x),
        b@.len() == 2,
{
    let mut b: Vec<u8> = Vec::new();
    b.push((x & 0xff) as u8);
    b.push(((x >> 8) & 0xff) as u8);
    proof {
        assert(b@ =~= spec_le16(x));
    }
    b
}

/// Encoding a 16-bit value big endian.
pub fn write_u16_be(x: u16) -> (b: Vec<u8>)
    ensures
        b@ == spec_be16(x),
        b@.len() == 2,
{
    let mut b: Vec<u8> = Vec::new();
    b.push(((x >> 8) & 0xff) as u8);
    b.push((x & 0xff) as u8);
    proof {
        assert(b@ =~= spec_be16(x));
    }
    b
}

/// Encoding a 32-bit value little endian.
pub fn write_u32_le(x: u32) -> (b: Vec<u8>)
    ensures
        b@ == spec_le32(x),
        b@.len() == 4,
{
    let mut b: Vec<u8> = Vec::new();
    b.push((x & 0xff) as u8);
    b.push(((x >> 8) & 0xff) as u8);
    b.push(((x >> 16) & 0xff) as u8);
    b.push(((x >> 24) & 0xff) as u8);
    proof {
        assert(b@ =~= spec_le32(x));
    }
    b
}

/// Encoding a 32-bit value big endian.
pub fn write_u32_be(x: u32) -> (b: Vec<u8>)
    ensures
        b@ == spec_be32(x),
        b@.len() == 4,
{
    let mut b: Vec<u8> = Vec::new();
    b.push(((x >> 24) & 0xff) as u8);
    b.push(((x >> 16) & 0xff) as u8);
    b.push(((x >> 8) & 0xff) as u8);
    b.push((x & 0xff) as u8);
    proof {
        assert(b@ =~= spec_be32(x));
    }
    b
}

/// Reading a 32-bit value from four little-endian bytes at `off`.
pub fn read_u32_le(b: &Vec<u8>, off: usize) -> (x: u32)
    requires
        off + 4 <= b.len(),
    ensures
        x == spec_u32_from_le(b@.subrange(off as int, off as int + 4)),
{
    let x = (b[off] as u32) | ((b[off + 1] as u32) << 8) | ((b[off + 2] as u32) << 16) | ((b[off
        + 3] as u32) << 24);
    proof {
        let s = b@.subrange(off as int, off as int + 4);
        assert(s[0] == b@[off as int] && s[1] == b@[off as int + 1] && s[2] == b@[off as int + 2]
            && s[3] == b@[off as int + 3]);
    }
    x
}

/// Reading back the little-endian bytes of a value yields the value.
pub proof fn lemma_le32_round_trip(x: u32)
    ensures
        spec_u32_from_le(spec_le32(x)) == x,
{
    assert((x & 0xff) as u8 as u32 | ((x >> 8 & 0xff) as u8 as u32) << 8 | ((x >> 16
        & 0xff) as u8 as u32) << 16 | ((x >> 24 & 0xff) as u8 as u32) << 24 == x)
        by (bit_vector);
}

/// Little-endian encoding of the value read from four bytes yields the same
/// four bytes: the encoding is a bijection.
pub proof fn lemma_le32_of_from_le(b: Seq<u8>)
    requires
        b.len() == 4,
    ensures
        spec_le32(spec_u32_from_le(b)) == b,
{
    let b0 = b[0];
    let b1 = b[1];
    let b2 = b[2];
    let b3 = b[3];
    let x = spec_u32_from_le(b);
    assert(x == b0 as u32 | (b1 as u32) << 8 | (b2 as u32) << 16 | (b3 as u32) << 24);
    assert(((b0 as u32 | (b1 as u32) << 8 | (b2 as u32) << 16 | (b3 as u32) << 24) & 0xff) as u8
        == b0) by (bit_vector);
    assert(((b0 as u32 | (b1 as u32) << 8 | (b2 as u32) << 16 | (b3 as u32) << 24) >> 8 & 0xff)
        as u8 == b1) by (bit_vector);
    assert(((b0 as u32 | (b1 as u32) << 8 | (b2 as u32) << 16 | (b3 as u32) << 24) >> 16 & 0xff)
        as u8 == b2) by (bit_vector);
    assert(((b0 as u32 | (b1 as u32) << 8 | (b2 as u32) << 16 | (b3 as u32) << 24) >> 24 & 0xff)
        as u8 == b3) by (bit_vector);
    assert(spec_le32(x) =~= b);
}

} // verus!
