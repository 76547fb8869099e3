//! Bit-level helpers shared by every instruction: sign extension, wrapping
//! addition and byte extraction.

use vstd::prelude::*;

verus! {

/// The value of `x` when its low `bit_count` bits are read as a two's
/// complement number and widened to 16 bits: if bit `bit_count - 1` is set,
/// every bit from `bit_count` upwards is set as well; otherwise `x` is
/// returned as it is.
pub open spec fn sign_extend_spec(x: u16, bit_count: u16) -> u16 {
    if (x >> ((bit_count - 1) as u16)) & 1 == 1 {
        x | (0xFFFFu16 << bit_count)
    } else {
        x
    }
}

/// Sign-extends the low `bit_count` bits of `x` to 16 bits.
pub fn sign_extend(x: u16, bit_count: u16) -> (r: u16)
    requires
        1 <= bit_count <= 16,
    ensures
        r == sign_extend_spec(x, bit_count),
        (x >> ((bit_count - 1) as u16)) & 1 == 0 ==> r == x,
        (x >> ((bit_count - 1) as u16)) & 1 == 1 ==> r == x | (0xFFFFu16 << bit_count),
{
    let top: u16 = bit_count - 1;
    if (x >> top) & 1 == 1 {
        if bit_count == 16 {
            assert(x | (0xFFFFu16 << 16u16) == x) by (bit_vector);
            x
        } else {
            x | (0xFFFFu16 << bit_count)
        }
    } else {
        x
    }
}

/// Addition modulo 2^16.
pub open spec fn wrap_add(a: u16, b: u16) -> u16 {
    ((a + b) % 0x1_0000) as u16
}

/// Adds two words, discarding the carry out of bit 15.
pub fn add_words(a: u16, b: u16) -> (r: u16)
    ensures
        r == wrap_add(a, b),
{
    a.wrapping_add(b)
}

/// Bits 7..0 of a word.
pub open spec fn low_byte_spec(w: u16) -> u8 {
    (w & 0xFF) as u8
}

/// Bits 15..8 of a word.
pub open spec fn high_byte_spec(w: u16) -> u8 {
    (w >> 8) as u8
}

/// The low byte of a word; the high byte is dropped.
pub fn low_byte(w: u16) -> (b: u8)
    ensures
        b == low_byte_spec(w),
        b as int == w as int % 256,
{
    assert(w & 0xFF == w % 256) by (bit_vector);
    (w & 0xFF) as u8
}

/// The high byte of a word.
pub fn high_byte(w: u16) -> (b: u8)
    ensures
        b == high_byte_spec(w),
        b as int == w as int / 256,
{
    assert(w >> 8 == w / 256) by (bit_vector);
    (w >> 8) as u8
}

/// The word whose high byte is `hi` and whose low byte is `lo`.
pub open spec fn word_of_bytes(hi: u8, lo: u8) -> u16 {
    (hi as u16) << 8 | (lo as u16)
}

/// Joins two bytes, most significant first, into one word.
pub fn join_bytes(hi: u8, lo: u8) -> (w: u16)
    ensures
        w == word_of_bytes(hi, lo),
        w as int == hi as int * 256 + lo as int,
{
    assert(((hi as u16) << 8 | (lo as u16)) == (hi as u16) * 256 + (lo as u16)) by (bit_vector);
    (hi as u16) << 8 | (lo as u16)
}

/// A word read as a two's complement number.
pub open spec fn signed_value(w: u16) -> int {
    if w >= 0x8000 {
        w - 0x1_0000
    } else {
        w as int
    }
}

/// Sign extension keeps the number that the field holds: for a field of
/// `bit_count` bits with nothing above it, the extended word read as a signed
/// 16-bit number is the field read as a signed `bit_count`-bit number.
pub proof fn lemma_sign_extend_value(x: u16, bit_count: u16)
    requires
        1 <= bit_count <= 16,
        (x as u32) < (1u32 << bit_count),
    ensures
        (x as u32) < (1u32 << ((bit_count - 1) as u16)) ==> signed_value(
            sign_extend_spec(x, bit_count),
        ) == x,
        (x as u32) >= (1u32 << ((bit_count - 1) as u16)) ==> signed_value(
            sign_extend_spec(x, bit_count),
        ) == x - (1u32 << bit_count),
{
    let top: u16 = (bit_count - 1) as u16;
    assert(((x >> top) & 1 == 1) <==> (x as u32) >= (1u32 << top)) by (bit_vector)
        requires
            1 <= bit_count <= 16,
            top == bit_count - 1,
            (x as u32) < (1u32 << bit_count),
    ;
    assert((x as u32) < (1u32 << top) ==> x < 0x8000) by (bit_vector)
        requires
            1 <= bit_count <= 16,
            top == bit_count - 1,
    ;
    let filled: u16 = x | (0xFFFFu16 << bit_count);
    assert((x as u32) >= (1u32 << top) ==> filled >= 0x8000 && filled as u32 + (1u32 << bit_count)
        == x as u32 + 0x1_0000u32) by (bit_vector)
        requires
            1 <= bit_count <= 16,
            top == bit_count - 1,
            (x as u32) < (1u32 << bit_count),
            filled == x | (0xFFFFu16 << bit_count),
    ;
}

} // verus!
