//! Little-endian fixed-width integer codec shared by every wire format of the
//! daemon. All multi-byte integer fields on the wire (device ids, payload
//! lengths) are little-endian; byte `k` of a value `x` is `(x / 256^k) % 256`.

use vstd::prelude::*;

verus! {

/// The four little-endian bytes of a 32-bit value, least significant first.
pub open spec fn spec_u32_le(x: u32) -> Seq<u8> {
    seq![
        (x % 256) as u8,
        ((x / 256) % 256) as u8,
        ((x / 65536) % 256) as u8,
        ((x / 16777216) % 256) as u8,
    ]
}

/// The 32-bit value encoded by four little-endian bytes.
pub open spec fn spec_u32_of_le(b0: u8, b1: u8, b2: u8, b3: u8) -> u32 {
    (b0 as int + b1 as int * 256 + b2 as int * 65536 + b3 as int * 16777216) as u32
}

/// The two little-endian bytes of a 16-bit value, least significant first.
pub open spec fn spec_u16_le(x: u16) -> Seq<u8> {
    seq![(x % 256) as u8, ((x / 256) % 256) as u8]
}

/// The 16-bit value encoded by two little-endian bytes.
pub open spec fn spec_u16_of_le(b0: u8, b1: u8) -> u16 {
    (b0 as int + b1 as int * 256) as u16
}

/// Decoding the four bytes of a value gives the value back.
pub proof fn lemma_u32_le_round_trip(x: u32)
    ensures
        spec_u32_of_le(
            spec_u32_le(x)[0],
            spec_u32_le(x)[1],
            spec_u32_le(x)[2],
            spec_u32_le(x)[3],
        ) == x,
{
    assert((x % 256) as u8 as int + ((x / 256) % 256) as u8 as int * 256 + ((x / 65536)
        % 256) as u8 as int * 65536 + ((x / 16777216) % 256) as u8 as int * 16777216 == x as int)
        by (bit_vector);
}

/// Encoding the value read from four bytes gives the same four bytes back.
pub proof fn lemma_u32_of_le_round_trip(b0: u8, b1: u8, b2: u8, b3: u8)
    ensures
        spec_u32_le(spec_u32_of_le(b0, b1, b2, b3)) =~= seq![b0, b1, b2, b3],
{
    let x = spec_u32_of_le(b0, b1, b2, b3);
    assert(x == (b0 as int + b1 as int * 256 + b2 as int * 65536 + b3 as int
        * 16777216) as u32);
    assert({
        &&& (x % 256) as u8 == b0
        &&& ((x / 256) % 256) as u8 == b1
        &&& ((x / 65536) % 256) as u8 == b2
        &&& ((x / 16777216) % 256) as u8 == b3
    }) by (bit_vector)
        requires
            x == (b0 as int + b1 as int * 256 + b2 as int * 65536 + b3 as int
                * 16777216) as u32,
    ;
}

/// Decoding the two bytes of a value gives the value back.
pub proof fn lemma_u16_le_round_trip(x: u16)
    ensures
        spec_u16_of_le(spec_u16_le(x)[0], spec_u16_le(x)[1]) == x,
{
    assert((x % 256) as u8 as int + ((x / 256) % 256) as u8 as int * 256 == x as int)
        by (bit_vector);
}

/// Encoding the value read from two bytes gives the same two bytes back.
pub proof fn lemma_u16_of_le_round_trip(b0: u8, b1: u8)
    ensures
        spec_u16_le(spec_u16_of_le(b0, b1)) =~= seq![b0, b1],
{
    let x = spec_u16_of_le(b0, b1);
    assert({
        &&& (x % 256) as u8 == b0
        &&& ((x / 256) % 256) as u8 == b1
    }) by (bit_vector)
        requires
            x == (b0 as int + b1 as int * 256) as u16,
    ;
}

/// Little-endian byte `k` (0-based) of a 32-bit value.
pub fn u32_le_byte(x: u32, k: usize) -> (b: u8)
    requires
        k < 4,
    ensures
        b == spec_u32_le(x)[k as int],
{
    if k == 0 {
        (x % 256) as u8
    } else if k == 1 {
        ((x / 256) % 256) as u8
    } else if k == 2 {
        ((x / 65536) % 256) as u8
    } else {
        ((x / 16777216) % 256) as u8
    }
}

/// The 32-bit value held by four little-endian bytes.
pub fn u32_of_le(b0: u8, b1: u8, b2: u8, b3: u8) -> (x: u32)
    ensures
        x == spec_u32_of_le(b0, b1, b2, b3),
{
    b0 as u32 + b1 as u32 * 256 + b2 as u32 * 65536 + b3 as u32 * 16777216
}

/// The 16-bit value held by two little-endian bytes.
pub fn u16_of_le(b0: u8, b1: u8) -> (x: u16)
    ensures
        x == spec_u16_of_le(b0, b1),
{
    b0 as u16 + b1 as u16 * 256
}

/// Little-endian byte `k` (0-based) of a 16-bit value.
pub fn u16_le_byte(x: u16, k: usize) -> (b: u8)
    requires
        k < 2,
    ensures
        b == spec_u16_le(x)[k as int],
{
    if k == 0 {
        (x % 256) as u8
    } else {
        ((x / 256) % 256) as u8
    }
}

} // verus!
