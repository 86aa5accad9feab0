//! Big-endian integers as they appear on the wire.
//!
//! Every multi-byte integer of the protocol is sent most significant byte
//! first, signed ones in two's complement. The model is plain integer
//! arithmetic: a bit pattern is named by the mathematical integer it holds.

use vstd::prelude::*;

verus! {

/// The two bytes that carry the low 16 bits of `value`, most significant first.
pub open spec fn be_bytes2(value: int) -> Seq<u8> {
    seq![((value / 0x100) % 0x100) as u8, (value % 0x100) as u8]
}

/// The four bytes that carry the low 32 bits of `value`, most significant first.
pub open spec fn be_bytes4(value: int) -> Seq<u8> {
    seq![
        ((value / 0x100_0000) % 0x100) as u8,
        ((value / 0x1_0000) % 0x100) as u8,
        ((value / 0x100) % 0x100) as u8,
        (value % 0x100) as u8,
    ]
}

/// The eight bytes that carry the low 64 bits of `value`, most significant first.
pub open spec fn be_bytes8(value: int) -> Seq<u8> {
    be_bytes4(value / 0x1_0000_0000) + be_bytes4(value)
}

/// The unsigned integer held by the first two bytes of `bytes`.
pub open spec fn be_u16(bytes: Seq<u8>) -> int {
    bytes[0] * 0x100 + bytes[1]
}

/// The unsigned integer held by the first four bytes of `bytes`.
pub open spec fn be_u32(bytes: Seq<u8>) -> int {
    bytes[0] * 0x100_0000 + bytes[1] * 0x1_0000 + bytes[2] * 0x100 + bytes[3]
}

/// The unsigned integer held by the first eight bytes of `bytes`.
pub open spec fn be_u64(bytes: Seq<u8>) -> int {
    be_u32(bytes) * 0x1_0000_0000 + be_u32(bytes.skip(4))
}

/// The signed reading of an unsigned bit pattern, where `modulus` is two to
/// the number of its bits.
pub open spec fn signed(pattern: int, modulus: int) -> int {
    if 2 * pattern >= modulus {
        pattern - modulus
    } else {
        pattern
    }
}

/// The signed 16-bit integer held by the first two bytes of `bytes`.
pub open spec fn be_i16(bytes: Seq<u8>) -> int {
    signed(be_u16(bytes), 0x1_0000)
}

/// The signed 32-bit integer held by the first four bytes of `bytes`.
pub open spec fn be_i32(bytes: Seq<u8>) -> int {
    signed(be_u32(bytes), 0x1_0000_0000)
}

/// The signed 64-bit integer held by the first eight bytes of `bytes`.
pub open spec fn be_i64(bytes: Seq<u8>) -> int {
    signed(be_u64(bytes), 0x1_0000_0000_0000_0000)
}

/// The signed 16-bit integer with the same low 16 bits as `value`.
pub open spec fn low_i16(value: int) -> int {
    signed(value % 0x1_0000, 0x1_0000)
}

/// The number of bytes that a packet holds after its length field, where
/// the field, which counts itself, declares `declared`. The subtraction is
/// made in 32 bits and the difference is widened to the machine's word, as
/// two's complement does it: a declaration below four gives a count that no
/// packet can have.
pub open spec fn bytes_after_length(declared: i32) -> int {
    let difference = declared - 4;
    let wrapped = if difference < i32::MIN {
        difference + 0x1_0000_0000
    } else {
        difference
    };
    if wrapped >= 0 {
        wrapped
    } else {
        wrapped + usize::MAX + 1
    }
}

/// The number of bytes that a packet holds after its length field.
pub fn rest_of_packet(declared: i32) -> (count: usize)
    ensures
        count == bytes_after_length(declared),
        declared >= 4 ==> count == declared - 4,
{
    let difference: i64 = declared as i64 - 4;
    let wrapped: i64 = if difference < -0x8000_0000 {
        difference + 0x1_0000_0000
    } else {
        difference
    };
    if wrapped >= 0 {
        wrapped as usize
    } else {
        usize::MAX - ((-(wrapped + 1)) as usize)
    }
}

/// Reads a big-endian `i16` from two bytes.
pub fn i16_from_be(b0: u8, b1: u8) -> (value: i16)
    ensures
        value == be_i16(seq![b0, b1]),
{
    let pattern: u16 = (b0 as u16) * 0x100 + (b1 as u16);
    if pattern >= 0x8000 {
        ((pattern - 0x8000) as i16) + i16::MIN
    } else {
        pattern as i16
    }
}

/// Reads a big-endian `u32` from four bytes.
pub fn u32_from_be(b0: u8, b1: u8, b2: u8, b3: u8) -> (value: u32)
    ensures
        value == be_u32(seq![b0, b1, b2, b3]),
{
    (b0 as u32) * 0x100_0000 + (b1 as u32) * 0x1_0000 + (b2 as u32) * 0x100 + (b3 as u32)
}

/// Reads a big-endian `i32` from four bytes.
pub fn i32_from_be(b0: u8, b1: u8, b2: u8, b3: u8) -> (value: i32)
    ensures
        value == be_i32(seq![b0, b1, b2, b3]),
{
    let pattern: u32 = u32_from_be(b0, b1, b2, b3);
    if pattern >= 0x8000_0000 {
        ((pattern - 0x8000_0000) as i32) + i32::MIN
    } else {
        pattern as i32
    }
}

/// Reads a big-endian `i64` from eight bytes.
pub fn i64_from_be(b0: u8, b1: u8, b2: u8, b3: u8, b4: u8, b5: u8, b6: u8, b7: u8) -> (value: i64)
    ensures
        value == be_i64(seq![b0, b1, b2, b3, b4, b5, b6, b7]),
{
    let high: u32 = u32_from_be(b0, b1, b2, b3);
    let low: u32 = u32_from_be(b4, b5, b6, b7);
    let ghost bytes = seq![b0, b1, b2, b3, b4, b5, b6, b7];
    assert(be_u32(bytes) == high);
    assert(be_u32(bytes.skip(4)) == low);
    let pattern: u64 = (high as u64) * 0x1_0000_0000 + (low as u64);
    if pattern >= 0x8000_0000_0000_0000 {
        ((pattern - 0x8000_0000_0000_0000) as i64) + i64::MIN
    } else {
        pattern as i64
    }
}

/// The signed 64-bit integer that bytes begin with is that of their first eight.
pub proof fn lemma_be_i64_of_prefix(bytes: Seq<u8>)
    requires
        bytes.len() >= 8,
    ensures
        be_i64(bytes) == be_i64(
            seq![
                bytes[0],
                bytes[1],
                bytes[2],
                bytes[3],
                bytes[4],
                bytes[5],
                bytes[6],
                bytes[7],
            ],
        ),
{
    let first = seq![
        bytes[0],
        bytes[1],
        bytes[2],
        bytes[3],
        bytes[4],
        bytes[5],
        bytes[6],
        bytes[7],
    ];
    assert(be_u32(bytes.skip(4)) == be_u32(first.skip(4)));
}

/// Appends the two big-endian bytes of the low 16 bits of `value`.
pub fn push_low16(buffer: &mut Vec<u8>, value: u64)
    ensures
        final(buffer)@ == old(buffer)@ + be_bytes2(value as int),
{
    let low: u64 = value % 0x1_0000;
    assert(low / 0x100 == (value / 0x100) % 0x100 && low % 0x100 == value % 0x100) by (bit_vector)
        requires
            low == value % 0x1_0000,
    ;
    buffer.push((low / 0x100) as u8);
    buffer.push((low % 0x100) as u8);
    assert(buffer@ =~= old(buffer)@ + be_bytes2(value as int));
}

/// Appends the four big-endian bytes of the low 32 bits of `value`.
pub fn push_low32(buffer: &mut Vec<u8>, value: u64)
    ensures
        final(buffer)@ == old(buffer)@ + be_bytes4(value as int),
{
    let low: u64 = value % 0x1_0000_0000;
    assert(low / 0x100_0000 == (value / 0x100_0000) % 0x100 && (low / 0x1_0000) % 0x100 == (value
        / 0x1_0000) % 0x100 && (low / 0x100) % 0x100 == (value / 0x100) % 0x100 && low % 0x100
        == value % 0x100) by (bit_vector)
        requires
            low == value % 0x1_0000_0000,
    ;
    buffer.push((low / 0x100_0000) as u8);
    buffer.push(((low / 0x1_0000) % 0x100) as u8);
    buffer.push(((low / 0x100) % 0x100) as u8);
    buffer.push((low % 0x100) as u8);
    assert(buffer@ =~= old(buffer)@ + be_bytes4(value as int));
}

/// Adding two to the 32nd to a value leaves its low four bytes as they are.
pub proof fn lemma_be_bytes4_period(value: int)
    ensures
        be_bytes4(value + 0x1_0000_0000) == be_bytes4(value),
{
    let shifted = value + 0x1_0000_0000;
    assert(shifted / 0x100_0000 == value / 0x100_0000 + 0x100) by {
        vstd::arithmetic::div_mod::lemma_hoist_over_denominator(value, 0x100, 0x100_0000);
    }
    assert(shifted / 0x1_0000 == value / 0x1_0000 + 0x1_0000) by {
        vstd::arithmetic::div_mod::lemma_hoist_over_denominator(value, 0x1_0000, 0x1_0000);
    }
    assert(shifted / 0x100 == value / 0x100 + 0x100_0000) by {
        vstd::arithmetic::div_mod::lemma_hoist_over_denominator(value, 0x100_0000, 0x100);
    }
    assert((shifted / 0x100_0000) % 0x100 == (value / 0x100_0000) % 0x100) by {
        vstd::arithmetic::div_mod::lemma_mod_multiples_vanish(1, value / 0x100_0000, 0x100);
    }
    assert((shifted / 0x1_0000) % 0x100 == (value / 0x1_0000) % 0x100) by {
        vstd::arithmetic::div_mod::lemma_mod_multiples_vanish(0x100, value / 0x1_0000, 0x100);
    }
    assert((shifted / 0x100) % 0x100 == (value / 0x100) % 0x100) by {
        vstd::arithmetic::div_mod::lemma_mod_multiples_vanish(0x1_0000, value / 0x100, 0x100);
    }
    assert(shifted % 0x100 == value % 0x100) by {
        vstd::arithmetic::div_mod::lemma_mod_multiples_vanish(0x100_0000, value, 0x100);
    }
    assert(be_bytes4(shifted) =~= be_bytes4(value));
}

/// Appends a big-endian `i16`.
pub fn push_i16(buffer: &mut Vec<u8>, value: i16)
    ensures
        final(buffer)@ == old(buffer)@ + be_bytes2(value as int),
{
    let pattern: u64 = if value < 0 {
        (value as i64 + 0x1_0000) as u64
    } else {
        value as u64
    };
    assert(be_bytes2(pattern as int) =~= be_bytes2(value as int));
    push_low16(buffer, pattern);
}

/// Appends a big-endian `u32`.
pub fn push_u32(buffer: &mut Vec<u8>, value: u32)
    ensures
        final(buffer)@ == old(buffer)@ + be_bytes4(value as int),
{
    push_low32(buffer, value as u64);
}

/// Appends a big-endian `i32`.
pub fn push_i32(buffer: &mut Vec<u8>, value: i32)
    ensures
        final(buffer)@ == old(buffer)@ + be_bytes4(value as int),
{
    let pattern: u64 = if value < 0 {
        (value as i64 + 0x1_0000_0000) as u64
    } else {
        value as u64
    };
    proof {
        lemma_be_bytes4_period(value as int);
    }
    push_low32(buffer, pattern);
}

/// Appends a big-endian `i64`.
pub fn push_i64(buffer: &mut Vec<u8>, value: i64)
    ensures
        final(buffer)@ == old(buffer)@ + be_bytes8(value as int),
{
    let pattern: u64 = if value < 0 {
        ((value + 0x7FFF_FFFF_FFFF_FFFF) + 1) as u64 + 0x8000_0000_0000_0000
    } else {
        value as u64
    };
    let ghost start = buffer@;
    proof {
        if value < 0 {
            let shifted = value as int + 0x1_0000_0000_0000_0000;
            assert(pattern as int == shifted);
            assert(shifted / 0x1_0000_0000 == value as int / 0x1_0000_0000 + 0x1_0000_0000);
            lemma_be_bytes4_period(value as int / 0x1_0000_0000);
            assert(shifted % 0x1_0000_0000 == value as int % 0x1_0000_0000);
            lemma_be_bytes4_low(shifted);
            lemma_be_bytes4_low(value as int);
        }
    }
    push_low32(buffer, pattern / 0x1_0000_0000);
    push_low32(buffer, pattern);
    assert(buffer@ =~= start + be_bytes8(value as int));
}

/// Adding a multiple of two to the 32nd to a value leaves its low four bytes as they are.
pub proof fn lemma_be_bytes4_shift(value: int, count: int)
    ensures
        be_bytes4(value + count * 0x1_0000_0000) == be_bytes4(value),
    decreases
            if count < 0 {
                -count
            } else {
                count
            },
{
    if count > 0 {
        lemma_be_bytes4_shift(value, count - 1);
        lemma_be_bytes4_period(value + (count - 1) * 0x1_0000_0000);
    } else if count < 0 {
        lemma_be_bytes4_shift(value, count + 1);
        lemma_be_bytes4_period(value + count * 0x1_0000_0000);
    }
}

/// The low four bytes of a value are those of its remainder by two to the 32nd.
pub proof fn lemma_be_bytes4_low(value: int)
    ensures
        be_bytes4(value % 0x1_0000_0000) == be_bytes4(value),
{
    let high = value / 0x1_0000_0000;
    assert(value % 0x1_0000_0000 == value + (-high) * 0x1_0000_0000);
    lemma_be_bytes4_shift(value, -high);
}

/// Appends every byte of `bytes`.
pub fn push_bytes(buffer: &mut Vec<u8>, bytes: &[u8])
    ensures
        final(buffer)@ == old(buffer)@ + bytes@,
{
    buffer.extend_from_slice(bytes);
    assert(final(buffer)@ =~= old(buffer)@ + bytes@);
}

/// Reading back what `be_bytes4` wrote gives the value, for every `u32`.
pub proof fn lemma_u32_round_trip(value: int)
    requires
        0 <= value < 0x1_0000_0000,
    ensures
        be_bytes4(value).len() == 4,
        be_u32(be_bytes4(value)) == value,
{
    let pattern = value as u64;
    assert(((pattern / 0x100_0000) % 0x100) * 0x100_0000 + ((pattern / 0x1_0000) % 0x100)
        * 0x1_0000 + ((pattern / 0x100) % 0x100) * 0x100 + pattern % 0x100 == pattern)
        by (bit_vector)
        requires
            pattern < 0x1_0000_0000,
    ;
}

/// Reading back what `be_bytes4` wrote gives the value, for every `i32`.
pub proof fn lemma_i32_round_trip(value: int)
    requires
        -0x8000_0000 <= value < 0x8000_0000,
    ensures
        be_bytes4(value).len() == 4,
        be_i32(be_bytes4(value)) == value,
{
    if value < 0 {
        lemma_be_bytes4_period(value);
        lemma_u32_round_trip(value + 0x1_0000_0000);
    } else {
        lemma_u32_round_trip(value);
    }
}

/// Reading back what `be_bytes8` wrote gives the value, for every `i64`.
pub proof fn lemma_i64_round_trip(value: int)
    requires
        -0x8000_0000_0000_0000 <= value < 0x8000_0000_0000_0000,
    ensures
        be_bytes8(value).len() == 8,
        be_i64(be_bytes8(value)) == value,
{
    let bytes = be_bytes8(value);
    let high = value / 0x1_0000_0000;
    let low = value % 0x1_0000_0000;
    assert(value == high * 0x1_0000_0000 + low);
    assert(bytes.skip(4) =~= be_bytes4(value));
    lemma_be_bytes4_low(value);
    lemma_be_bytes4_low(high);
    lemma_u32_round_trip(low);
    lemma_u32_round_trip(high % 0x1_0000_0000);
    assert(be_u32(bytes.skip(4)) == low);
    assert(bytes[0] == be_bytes4(high)[0] && bytes[1] == be_bytes4(high)[1] && bytes[2]
        == be_bytes4(high)[2] && bytes[3] == be_bytes4(high)[3]);
    assert(be_u32(bytes) == high % 0x1_0000_0000);
    assert(-0x8000_0000 <= high < 0x8000_0000);
}

} // verus!
