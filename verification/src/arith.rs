//! Word arithmetic of the data path: rotations and shifts, sums and
//! products wider than a word, and the parts of a word.

use crate::bit::Bit;
use vstd::prelude::*;

verus! {

/// Two to the power 32.
pub const WORD_RANGE: u64 = 0x1_0000_0000;

/// `x` rotated right by `n` bits, for `n` below 32.
pub open spec fn rotate_right_spec(x: u32, n: u32) -> u32 {
    if n == 0 {
        x
    } else {
        (x >> n) | (x << ((32 - n) as u32))
    }
}

/// Rotates `x` right by `n` bits.
pub fn rotate_right(x: u32, n: u32) -> (r: u32)
    requires
        n < 32,
    ensures
        r == rotate_right_spec(x, n),
{
    if n == 0 {
        x
    } else {
        (x >> n) | (x << (32 - n))
    }
}

/// `x` shifted right by `n` bits, for `n` from 1 to 31, with copies of bit
/// 31 coming in from the left.
pub open spec fn arithmetic_shift_right_spec(x: u32, n: u32) -> u32 {
    if x.bit_spec(31) {
        (x >> n) | !(0xFFFF_FFFFu32 >> n)
    } else {
        x >> n
    }
}

/// Shifts `x` right by `n` bits, keeping its sign.
pub fn arithmetic_shift_right(x: u32, n: u32) -> (r: u32)
    requires
        n < 32,
    ensures
        r == arithmetic_shift_right_spec(x, n),
{
    if x.bit(31) {
        (x >> n) | !(0xFFFF_FFFFu32 >> n)
    } else {
        x >> n
    }
}

proof fn lemma_moved_bits(x: u32, n: u32, i: u32)
    by (bit_vector)
    requires
        0 < n < 32,
        i < 32,
    ensures
        ((((x >> n) | (x << ((32 - n) as u32))) & (1u32 << i)) != 0) == (if i + n < 32 {
            x & (1u32 << ((i + n) as u32)) != 0
        } else {
            x & (1u32 << ((i + n - 32) as u32)) != 0
        }),
        (((x >> n) | !(0xFFFF_FFFFu32 >> n)) & (1u32 << i) != 0) == (i + n >= 32 || x & (1u32 << ((i
            + n) as u32)) != 0),
        ((x >> n) & (1u32 << i) != 0) == (i + n < 32 && x & (1u32 << ((i + n) as u32)) != 0),
{
}

/// Bit `i` of a word rotated right by `n` is bit `i + n` of the word,
/// counted round the word.
pub proof fn lemma_rotate_right_bits(x: u32, n: u32, i: u8)
    requires
        n < 32,
        i < 32,
    ensures
        rotate_right_spec(x, n).bit_spec(i) == x.bit_spec(((i + n) % 32) as u8),
{
    if n > 0 {
        lemma_moved_bits(x, n, i as u32);
    }
}

/// Bit `i` of a word shifted right arithmetically by `n` is bit `i + n` of
/// the word, or bit 31 where there is no such bit.
pub proof fn lemma_arithmetic_shift_right_bits(x: u32, n: u32, i: u8)
    requires
        0 < n < 32,
        i < 32,
    ensures
        arithmetic_shift_right_spec(x, n).bit_spec(i) == (if i + n < 32 {
            x.bit_spec((i + n) as u8)
        } else {
            x.bit_spec(31)
        }),
{
    lemma_moved_bits(x, n, i as u32);
}

/// The word that every bit of is bit 31 of `x`.
pub open spec fn sign_fill_spec(x: u32) -> u32 {
    if x.bit_spec(31) {
        0xFFFF_FFFF
    } else {
        0
    }
}

/// Spreads bit 31 of `x` over the whole word.
pub fn sign_fill(x: u32) -> (r: u32)
    ensures
        r == sign_fill_spec(x),
{
    if x.bit(31) {
        0xFFFF_FFFF
    } else {
        0
    }
}

/// The number that a flag adds to a sum.
pub open spec fn carry_value(carry: bool) -> int {
    if carry {
        1
    } else {
        0
    }
}

/// The sum of two words and a carry, at full width.
pub fn wide_sum(a: u32, b: u32, carry: bool) -> (sum: u64)
    ensures
        sum == a + b + carry_value(carry),
{
    let c: u64 = if carry {
        1
    } else {
        0
    };
    a as u64 + b as u64 + c
}

/// The low word of a 64 bit value.
pub fn low_word(value: u64) -> (word: u32)
    ensures
        word == value % WORD_RANGE,
{
    (value % WORD_RANGE) as u32
}

/// The high word of a 64 bit value.
pub fn high_word(value: u64) -> (word: u32)
    ensures
        word == value / WORD_RANGE,
{
    (value / WORD_RANGE) as u32
}

/// The 64 bit value with the given high and low words.
pub fn join_words(high: u32, low: u32) -> (value: u64)
    ensures
        value == high * WORD_RANGE + low,
{
    high as u64 * WORD_RANGE + low as u64
}

/// `a - b - borrow` brought into the range of a word by adding two to the
/// power 32 where it is negative.
pub open spec fn wrapping_difference_spec(a: u32, b: u32, borrow: bool) -> u32 {
    let d = a - b - carry_value(borrow);
    if d < 0 {
        (d + WORD_RANGE) as u32
    } else {
        d as u32
    }
}

/// Computes `a - b - borrow`, wrapping below zero.
pub fn wrapping_difference(a: u32, b: u32, borrow: bool) -> (r: u32)
    ensures
        r == wrapping_difference_spec(a, b, borrow),
{
    let wide: u64 = a as u64 + WORD_RANGE - b as u64 - (if borrow {
        1u64
    } else {
        0u64
    });
    if wide >= WORD_RANGE {
        (wide - WORD_RANGE) as u32
    } else {
        wide as u32
    }
}

/// The low word of the product of two words.
pub fn wrapping_product(a: u32, b: u32) -> (r: u32)
    ensures
        r == (a * b) % (WORD_RANGE as int),
{
    low_word(unsigned_product(a, b))
}

/// The product of two words as unsigned numbers.
pub fn unsigned_product(a: u32, b: u32) -> (product: u64)
    ensures
        product == a * b,
{
    assert(0 <= a * b <= 0xFFFF_FFFF * 0xFFFF_FFFF) by (nonlinear_arith)
        requires
            0 <= a <= 0xFFFF_FFFF,
            0 <= b <= 0xFFFF_FFFF,
    ;
    a as u64 * b as u64
}

/// The number that a word stands for in two's complement.
pub open spec fn signed_spec(x: u32) -> int {
    if x >= 0x8000_0000 {
        x - WORD_RANGE
    } else {
        x as int
    }
}

/// The 64 bit pattern that stands for `n` in two's complement.
pub open spec fn twos_complement_spec(n: int) -> int {
    if n < 0 {
        n + 0x1_0000_0000_0000_0000
    } else {
        n
    }
}

fn signed(x: u32) -> (n: i64)
    ensures
        n == signed_spec(x),
{
    if x >= 0x8000_0000 {
        x as i64 - 0x1_0000_0000
    } else {
        x as i64
    }
}

/// The product of two words as signed numbers, as a 64 bit pattern.
pub fn signed_product(a: u32, b: u32) -> (product: u64)
    ensures
        product == twos_complement_spec(signed_spec(a) * signed_spec(b)),
{
    let x = signed(a);
    let y = signed(b);
    assert(-0x4000_0000_0000_0000 <= x * y <= 0x4000_0000_0000_0000) by (nonlinear_arith)
        requires
            -0x8000_0000 <= x < 0x8000_0000,
            -0x8000_0000 <= y < 0x8000_0000,
    ;
    let p: i64 = x * y;
    if p < 0 {
        let below: u64 = (-(p + 1)) as u64;
        u64::MAX - below
    } else {
        p as u64
    }
}

/// The sum of two 64 bit values, cut to 64 bits.
pub fn wrapping_sum_long(a: u64, b: u64) -> (sum: u64)
    ensures
        sum == (a + b) % 0x1_0000_0000_0000_0000,
{
    a.wrapping_add(b)
}

/// The low byte of a word.
pub fn low_byte(value: u32) -> (byte: u8)
    ensures
        byte == value % 0x100,
{
    (value % 0x100) as u8
}

/// The low halfword of a word.
pub fn low_halfword(value: u32) -> (halfword: u16)
    ensures
        halfword == value % 0x1_0000,
{
    (value % 0x1_0000) as u16
}

/// The word that stands for the same number as `byte` does in two's
/// complement.
pub open spec fn extend_byte_spec(byte: u8) -> u32 {
    if byte >= 0x80 {
        (byte + 0xFFFF_FF00) as u32
    } else {
        byte as u32
    }
}

/// Sign-extends a byte.
pub fn extend_byte(byte: u8) -> (word: u32)
    ensures
        word == extend_byte_spec(byte),
{
    if byte >= 0x80 {
        byte as u32 + 0xFFFF_FF00
    } else {
        byte as u32
    }
}

/// The word that stands for the same number as `halfword` does in two's
/// complement.
pub open spec fn extend_halfword_spec(halfword: u16) -> u32 {
    if halfword >= 0x8000 {
        (halfword + 0xFFFF_0000) as u32
    } else {
        halfword as u32
    }
}

/// Sign-extends a halfword.
pub fn extend_halfword(halfword: u16) -> (word: u32)
    ensures
        word == extend_halfword_spec(halfword),
{
    if halfword >= 0x8000 {
        halfword as u32 + 0xFFFF_0000
    } else {
        halfword as u32
    }
}

/// The word of a byte or halfword read, zero-extended.
pub fn widen_byte(byte: u8) -> (word: u32)
    ensures
        word == byte,
{
    byte as u32
}

/// The word of a halfword read, zero-extended.
pub fn widen_halfword(halfword: u16) -> (word: u32)
    ensures
        word == halfword,
{
    halfword as u32
}

} // verus!
