//! Facts that tie the bitwise operations used by the executable code to the
//! arithmetic that the contracts are written in.

use vstd::prelude::*;

verus! {

/// Masks of a byte, read as remainders and quotients.
pub proof fn lemma_u8_masks(a: u8)
    by (bit_vector)
    ensures
        a & 0x0F == a % 16,
        a & 0xF0 == (a / 16) * 16,
        a & 0x07 == a % 8,
        a & 0x03 == a % 4,
        a & 0x7F == a % 128,
        (a >> 3) & 0x07 == (a / 8) % 8,
        (a >> 3) & 0x03 == (a / 8) % 4,
        (a >> 4) & 0x03 == (a / 16) % 4,
        (a & 0x80 != 0) == (a >= 128),
        (a & 0x40 != 0) == ((a / 64) % 2 == 1),
        (a & 0x20 != 0) == ((a / 32) % 2 == 1),
        (a & 0x10 != 0) == ((a / 16) % 2 == 1),
        (a & 0x04 != 0) == ((a / 4) % 2 == 1),
        (a & 0x01 != 0) == (a % 2 == 1),
        a | 0xF8 == (a % 8) + 0xF8,
{
}

/// Masks and shifts of a 16-bit word, read as remainders and quotients.
pub proof fn lemma_u16_masks(w: u16)
    by (bit_vector)
    ensures
        w & 0x000F == w % 16,
        w & 0x00FF == w % 256,
        w & 0x0FFF == w % 4096,
        (w & 0xFF00) >> 8 == w / 256,
        w >> 8 == w / 256,
        (w >> 3) & 1 == (w / 8) % 2,
        (w >> 5) & 1 == (w / 32) % 2,
        (w >> 7) & 1 == (w / 128) % 2,
        (w >> 9) & 1 == (w / 512) % 2,
{
}

/// A word assembled from a high and a low byte.
pub proof fn lemma_u16_join(hi: u8, lo: u8)
    by (bit_vector)
    ensures
        ((hi as u16) << 8) | (lo as u16) == (hi as u16) * 256 + (lo as u16),
{
}

/// Two to the power of a bit's number, for the eight bits of a byte.
pub open spec fn bit_weight(n: int) -> int {
    if n == 0 {
        1
    } else if n == 1 {
        2
    } else if n == 2 {
        4
    } else if n == 3 {
        8
    } else if n == 4 {
        16
    } else if n == 5 {
        32
    } else if n == 6 {
        64
    } else {
        128
    }
}

/// Whether bit `n` of a byte is set.
pub open spec fn bit_is_set(v: u8, n: int) -> bool {
    (v as int / bit_weight(n)) % 2 == 1
}

/// Rotates, shifts and the nibble swap of a byte, as arithmetic. `c` is a
/// carry-in of 0 or 1.
pub proof fn lemma_u8_shifts(v: u8, c: u8)
    by (bit_vector)
    requires
        c <= 1,
    ensures
        (v << 1u8) | (v >> 7u8) == (v % 128) * 2 + v / 128,
        (v >> 1u8) | (v << 7u8) == v / 2 + (v % 2) * 128,
        (v << 1u8) | c == (v % 128) * 2 + c,
        (v >> 1u8) | (c << 7u8) == v / 2 + c * 128,
        v << 1u8 == (v % 128) * 2,
        (v >> 1u8) | (v & 0x80) == v / 2 + (v / 128) * 128,
        v >> 1u8 == v / 2,
        (v << 4u8) | (v >> 4u8) == (v % 16) * 16 + v / 16,
        !v == 255 - v,
{
}

/// Testing, clearing and setting each single bit of a byte, as arithmetic.
pub proof fn lemma_u8_single_bits(v: u8)
    by (bit_vector)
    ensures
        (v & 0x01u8 != 0) == ((v / 1) % 2 == 1),
        (v & 0x02u8 != 0) == ((v / 2) % 2 == 1),
        (v & 0x04u8 != 0) == ((v / 4) % 2 == 1),
        (v & 0x08u8 != 0) == ((v / 8) % 2 == 1),
        (v & 0x10u8 != 0) == ((v / 16) % 2 == 1),
        (v & 0x20u8 != 0) == ((v / 32) % 2 == 1),
        (v & 0x40u8 != 0) == ((v / 64) % 2 == 1),
        (v & 0x80u8 != 0) == ((v / 128) % 2 == 1),
        v & !0x01u8 == v - ((v / 1) % 2) * 1,
        v & !0x02u8 == v - ((v / 2) % 2) * 2,
        v & !0x04u8 == v - ((v / 4) % 2) * 4,
        v & !0x08u8 == v - ((v / 8) % 2) * 8,
        v & !0x10u8 == v - ((v / 16) % 2) * 16,
        v & !0x20u8 == v - ((v / 32) % 2) * 32,
        v & !0x40u8 == v - ((v / 64) % 2) * 64,
        v & !0x80u8 == v - ((v / 128) % 2) * 128,
        v | 0x01u8 == v + (1 - (v / 1) % 2) * 1,
        v | 0x02u8 == v + (1 - (v / 2) % 2) * 2,
        v | 0x04u8 == v + (1 - (v / 4) % 2) * 4,
        v | 0x08u8 == v + (1 - (v / 8) % 2) * 8,
        v | 0x10u8 == v + (1 - (v / 16) % 2) * 16,
        v | 0x20u8 == v + (1 - (v / 32) % 2) * 32,
        v | 0x40u8 == v + (1 - (v / 64) % 2) * 64,
        v | 0x80u8 == v + (1 - (v / 128) % 2) * 128,
{
}

/// Setting or clearing one bit of a byte changes that bit and no other.
/// `m` and `k` are masks of one bit each.
pub proof fn lemma_one_bit(v: u8, m: u8, k: u8)
    by (bit_vector)
    requires
        m == 0x01 || m == 0x02 || m == 0x04 || m == 0x08 || m == 0x10 || m == 0x20 || m == 0x40
            || m == 0x80,
        k == 0x01 || k == 0x02 || k == 0x04 || k == 0x08 || k == 0x10 || k == 0x20 || k == 0x40
            || k == 0x80,
    ensures
        (v | m) & m != 0,
        (v & !m) & m == 0,
        k != m ==> ((v | m) & k != 0) == (v & k != 0),
        k != m ==> ((v & !m) & k != 0) == (v & k != 0),
{
}

/// The mask of bit `n % 8`.
pub fn single_bit(n: u8) -> (r: u8)
    ensures
        r == bit_weight((n % 8) as int),
{
    proof {
        lemma_u8_masks(n);
    }
    match n & 0x07 {
        0 => 0x01,
        1 => 0x02,
        2 => 0x04,
        3 => 0x08,
        4 => 0x10,
        5 => 0x20,
        6 => 0x40,
        _ => 0x80,
    }
}

} // verus!
