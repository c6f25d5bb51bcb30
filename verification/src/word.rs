//! Bytes, 16-bit words and the wrapping arithmetic that joins them.

use vstd::prelude::*;

verus! {

/// The number of addressable bytes.
pub const MEMORY_SIZE: usize = 65536;

/// `n` reduced to the range of a byte.
pub open spec fn wrap8(n: int) -> u8 {
    (n % 256) as u8
}

/// `n` reduced to the range of a 16-bit word.
pub open spec fn wrap16(n: int) -> u16 {
    (n % 65536) as u16
}

/// The word whose upper eight bits are `high` and whose lower eight bits are `low`.
pub open spec fn word_of(high: u8, low: u8) -> u16 {
    (high * 256 + low) as u16
}

/// The upper eight bits of `w`, which number its page.
pub open spec fn page_of(w: u16) -> u8 {
    (w / 256) as u8
}

/// The lower eight bits of `w`.
pub open spec fn offset_of(w: u16) -> u8 {
    (w % 256) as u8
}

/// Whether bit `n` of `v` is set; bit 0 is the least significant.
pub open spec fn bit(v: u8, n: u8) -> bool {
    (v >> n) & 1 == 1
}

/// A byte read as a two's-complement number.
pub open spec fn signed(b: u8) -> int {
    if b >= 128 {
        b - 256
    } else {
        b as int
    }
}

/// Joins two bytes into a word, `high` first.
pub fn word(high: u8, low: u8) -> (w: u16)
    ensures
        w == word_of(high, low),
{
    let h: u16 = high as u16;
    let l: u16 = low as u16;
    assert((h << 8) | l == h * 256 + l) by (bit_vector)
        requires
            h < 256,
            l < 256,
    ;
    (h << 8) | l
}

/// The page number of `w`.
pub fn high_byte(w: u16) -> (b: u8)
    ensures
        b == page_of(w),
{
    assert(w >> 8 == w / 256) by (bit_vector);
    (w >> 8) as u8
}

/// The position of `w` within its page.
pub fn low_byte(w: u16) -> (b: u8)
    ensures
        b == offset_of(w),
{
    assert(w & 0xFF == w % 256) by (bit_vector);
    (w & 0xFF) as u8
}

/// Reads bit `n` of `v`.
pub fn bit_of(v: u8, n: u8) -> (b: bool)
    requires
        n < 8,
    ensures
        b == bit(v, n),
{
    (v >> n) & 1 == 1
}

/// The byte before `v`; the byte before 0 is 255.
pub fn decrement(v: u8) -> (r: u8)
    ensures
        r == wrap8(v - 1),
{
    v.wrapping_sub(1)
}

/// The byte after `v`; the byte after 255 is 0.
pub fn increment(v: u8) -> (r: u8)
    ensures
        r == wrap8(v + 1),
{
    v.wrapping_add(1)
}

/// A word is the join of its page number and its offset.
pub proof fn lemma_word_split(w: u16)
    ensures
        word_of(page_of(w), offset_of(w)) == w,
{
}

/// The join of two bytes splits into those bytes.
pub proof fn lemma_word_join(high: u8, low: u8)
    ensures
        page_of(word_of(high, low)) == high,
        offset_of(word_of(high, low)) == low,
{
}

/// Bit 7 of a byte is set exactly when the byte is at least 128, and bit 0
/// exactly when it is odd.
pub proof fn lemma_end_bits(v: u8)
    ensures
        bit(v, 7) <==> v >= 128,
        bit(v, 0) <==> v % 2 == 1,
{
    assert(((v >> 7u8) & 1 == 1) <==> v >= 128) by (bit_vector);
    assert(((v >> 0u8) & 1 == 1) <==> v % 2 == 1) by (bit_vector);
}

/// Shifting a byte left doubles it and drops what leaves the byte.
pub proof fn lemma_shift_left(v: u8)
    ensures
        v << 1u8 == wrap8(v * 2),
{
    assert(v << 1u8 == (v * 2) % 256) by (bit_vector);
}

/// Shifting a byte right halves it.
pub proof fn lemma_shift_right(v: u8)
    ensures
        v >> 1u8 == v / 2,
{
    assert(v >> 1u8 == v / 2) by (bit_vector);
}

/// Rotating left brings `carry` in as bit 0.
pub proof fn lemma_rotate_left(v: u8, carry: u8)
    requires
        carry <= 1,
    ensures
        (v << 1u8) | carry == wrap8(v * 2 + carry),
{
    assert((v << 1u8) | carry == (v * 2 + carry) % 256) by (bit_vector)
        requires
            carry <= 1,
    ;
}

/// Rotating right brings `carry` in as bit 7.
pub proof fn lemma_rotate_right(v: u8, carry: u8)
    requires
        carry <= 1,
    ensures
        (v >> 1u8) | (carry << 7u8) == v / 2 + 128 * carry,
{
    assert((v >> 1u8) | (carry << 7u8) == v / 2 + 128 * carry) by (bit_vector)
        requires
            carry <= 1,
    ;
}

/// The bitwise complement of a byte is its distance from 255.
pub proof fn lemma_complement(v: u8)
    ensures
        !v == 255 - v,
{
    assert(!v == 255 - v) by (bit_vector);
}

} // verus!
