use vstd::prelude::*;

verus! {

// Bit-level facts about bytes and words, stated as arithmetic so that the rest
// of the crate can reason about masks and shifts with ordinary integer logic.

/// Masks, shifts and single bits of a byte as arithmetic on its value.
pub proof fn lemma_u8(x: u8)
    by (bit_vector)
    ensures
        x & 0x01 == x % 2,
        x & 0x03 == x % 4,
        x & 0x07 == x % 8,
        x & 0x0F == x % 16,
        x & 0x1F == x % 32,
        x & 0x3F == x % 64,
        x & 0x7F == x % 128,
        x & 0x80 == x / 128 * 128,
        x & 0x40 == x / 64 % 2 * 64,
        x & 0x20 == x / 32 % 2 * 32,
        x & 0x10 == x / 16 % 2 * 16,
        x & 0x08 == x / 8 % 2 * 8,
        x & 0x04 == x / 4 % 2 * 4,
        x & 0x02 == x / 2 % 2 * 2,
        x & 0xF0 == x / 16 * 16,
        x & !0u8 == x,
        x >> 1u8 == x / 2,
        x >> 2u8 == x / 4,
        x >> 3u8 == x / 8,
        x >> 4u8 == x / 16,
        x >> 5u8 == x / 32,
        x >> 6u8 == x / 64,
        x >> 7u8 == x / 128,
        (x >> 1u8) | (x & 0x80) == x / 2 + x / 128 * 128,
        (x >> 4u8) | (x << 4u8) == x / 16 + x % 16 * 16,

        (x >> 4u8) & 7 == x / 16 % 8,
        (x >> 4u8) & 0x0F == x / 16,
        (x >> 6u8) & 3 == x / 64,
        x < 2 ==> 0xFEu8 | x == 0xFE + x,
        x < 0x80 ==> 0x80u8 | x == 0x80 + x,
        x < 32 ==> (x << 3u8) | (x >> 2u8) == x * 8 + x / 4,
{
}

/// Bytes, nibbles and fields of a 16-bit word as arithmetic on its value.
pub proof fn lemma_u16(v: u16)
    by (bit_vector)
    ensures
        v as u8 == v % 256,
        (v >> 8u16) as u8 == v / 256,
        v >> 8u16 == v / 256,
        v & 0xFF == v % 256,
        v & 0x0F == v % 16,
        v & 0xF0 == v % 256 / 16 * 16,
        v & 0xFFF == v % 4096,
        v & 0x1F == v % 32,
        v & 0x01 == v % 2,
        v & 0x07 == v % 8,
        (v >> 5u16) & 0x1F == v / 32 % 32,
        (v >> 10u16) & 0x1F == v / 1024 % 32,
        v & 0x100 == v / 256 % 2 * 256,
        v & 0x700 == v / 256 % 8 * 256,
        v & 0x1FFF == v % 0x2000,
        v < 256 ==> v << 8u16 == v * 256,
{
}

/// A word built from a high and a low byte.
pub proof fn lemma_pair(hi: u16, lo: u16)
    by (bit_vector)
    requires
        hi < 256,
        lo < 256,
    ensures
        (hi << 8u16) | lo == hi * 256 + lo,
{
}

/// OR of a multiple of 256 and a byte is their sum.
pub proof fn lemma_or_byte(high: u16, low: u16)
    by (bit_vector)
    requires
        high % 256 == 0,
        low < 256,
    ensures
        high | low == high + low,
        low | high == high + low,
{
}

/// Two one-bit values side by side.
pub proof fn lemma_two_bits(hi: u8, lo: u8)
    by (bit_vector)
    requires
        hi < 2,
        lo < 2,
    ensures
        (hi << 1u8) | lo == hi * 2 + lo,
{
}

/// A byte rotated left through a carry bit `c`.
pub proof fn lemma_rotate_left(v: u8, c: u8)
    by (bit_vector)
    requires
        c < 2,
    ensures
        (v << 1u8) | c == v * 2 % 256 + c,
{
}

/// A byte shifted left by one place.
pub proof fn lemma_shift_left(v: u8)
    by (bit_vector)
    ensures
        v << 1u8 == v * 2 % 256,
{
}

/// A byte rotated right through a carry bit `c`.
pub proof fn lemma_rotate_right(v: u8, c: u8)
    by (bit_vector)
    requires
        c < 2,
    ensures
        (v >> 1u8) | (c << 7u8) == v / 2 + c * 128,
{
}

/// Powers of two that the timer and the joypad use.
pub proof fn lemma_small_shifts()
    by (bit_vector)
    ensures
        1u32 << 4u32 == 16,
        1u32 << 6u32 == 64,
        1u32 << 8u32 == 256,
        1u32 << 10u32 == 1024,
        1u8 << 2u8 == 4,
        1u8 << 4u8 == 0x10,
{
}

} // verus!
