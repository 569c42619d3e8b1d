//! Encoding of the counter value as a persisted entry: exactly four bytes,
//! little-endian, the store's native encoding of an unsigned 32-bit integer.

use vstd::prelude::*;

verus! {

/// The four-byte little-endian entry that encodes a counter value.
pub open spec fn le_bytes_of(v: u32) -> Seq<u8> {
    seq![
        (v & 0xff) as u8,
        ((v >> 8) & 0xff) as u8,
        ((v >> 16) & 0xff) as u8,
        ((v >> 24) & 0xff) as u8,
    ]
}

/// The counter value a four-byte little-endian entry decodes to.
pub open spec fn le_value_of(b: Seq<u8>) -> u32
    recommends
        b.len() == 4,
{
    (b[0] as u32) | ((b[1] as u32) << 8) | ((b[2] as u32) << 16) | ((b[3] as u32) << 24)
}

/// Encoding a value and decoding the entry gives the value back.
pub proof fn lemma_le_round_trip(v: u32)
    ensures
        le_value_of(le_bytes_of(v)) == v,
{
    assert((((v & 0xff) as u8) as u32) | ((((v >> 8) & 0xff) as u8) as u32) << 8 | ((((v >> 16)
        & 0xff) as u8) as u32) << 16 | ((((v >> 24) & 0xff) as u8) as u32) << 24 == v)
        by (bit_vector);
}

/// A four-byte entry is exactly the encoding of the value it decodes to.
pub proof fn lemma_le_bytes_of_value(b: Seq<u8>)
    requires
        b.len() == 4,
    ensures
        le_bytes_of(le_value_of(b)) == b,
{
    let b0: u8 = b[0];
    let b1: u8 = b[1];
    let b2: u8 = b[2];
    let b3: u8 = b[3];
    let v: u32 = (b0 as u32) | ((b1 as u32) << 8) | ((b2 as u32) << 16) | ((b3 as u32) << 24);
    assert(((((b0 as u32) | ((b1 as u32) << 8) | ((b2 as u32) << 16) | ((b3 as u32) << 24))
        & 0xff) as u8) == b0) by (bit_vector);
    assert((((((b0 as u32) | ((b1 as u32) << 8) | ((b2 as u32) << 16) | ((b3 as u32) << 24)) >> 8)
        & 0xff) as u8) == b1) by (bit_vector);
    assert((((((b0 as u32) | ((b1 as u32) << 8) | ((b2 as u32) << 16) | ((b3 as u32) << 24)) >> 16)
        & 0xff) as u8) == b2) by (bit_vector);
    assert((((((b0 as u32) | ((b1 as u32) << 8) | ((b2 as u32) << 16) | ((b3 as u32) << 24)) >> 24)
        & 0xff) as u8) == b3) by (bit_vector);
    assert(le_bytes_of(v) =~= b);
}

/// Encodes a counter value as its four-byte little-endian entry.
pub fn encode_u32(v: u32) -> (r: Vec<u8>)
    ensures
        r@ == le_bytes_of(v),
{
    proof {
        assert(v & 0xff < 256 && (v >> 8) & 0xff < 256 && (v >> 16) & 0xff < 256 && (v >> 24)
            & 0xff < 256) by (bit_vector);
    }
    let mut r: Vec<u8> = Vec::new();
    r.push((v & 0xff) as u8);
    r.push(((v >> 8) & 0xff) as u8);
    r.push(((v >> 16) & 0xff) as u8);
    r.push(((v >> 24) & 0xff) as u8);
    proof {
        assert(r@ =~= le_bytes_of(v));
    }
    r
}

/// Decodes a stored entry; fails unless it is exactly four bytes.
pub fn decode_u32(b: &Vec<u8>) -> (r: Option<u32>)
    ensures
        b@.len() == 4 ==> r == Some(le_value_of(b@)),
        b@.len() != 4 ==> r is None,
{
    if b.len() != 4 {
        return None;
    }
    let v: u32 = (b[0] as u32) | ((b[1] as u32) << 8) | ((b[2] as u32) << 16) | ((b[3] as u32)
        << 24);
    Some(v)
}

} // verus!
