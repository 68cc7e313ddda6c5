//! Reading and writing single bits and bit ranges of unsigned words.
//!
//! Offset zero is the least significant bit. A range is half open: it
//! starts at `range.start` and stops before `range.end`. Every operation is
//! defined for the 8, 16 and 32 bit words.

use core::ops::Range;
use vstd::arithmetic::power2::{lemma2_to64, pow2};
use vstd::bits::{
    lemma_low_bits_mask_values, lemma_u32_low_bits_mask_is_mod, lemma_u32_pow2_no_overflow,
    lemma_u32_shl_is_mul, lemma_u32_shr_is_div, low_bits_mask,
};
use vstd::prelude::*;

verus! {

/// The word with only its lowest bit set.
pub trait One: Sized {
    spec fn one_spec() -> Self;

    fn one() -> (r: Self)
        ensures
            r == Self::one_spec(),
    ;
}

/// The word with no bit set.
pub trait Zero: Sized {
    spec fn zero_spec() -> Self;

    fn zero() -> (r: Self)
        ensures
            r == Self::zero_spec(),
    ;
}

/// Get the bit at a given offset.
pub trait Bit: Sized {
    /// Whether `offset` names a bit of the word.
    spec fn has_bit(offset: u8) -> bool;

    /// The bit at `offset`.
    spec fn bit_spec(self, offset: u8) -> bool;

    fn bit(self, offset: u8) -> (b: bool)
        requires
            Self::has_bit(offset),
        ensures
            b == self.bit_spec(offset),
    ;
}

/// Get a given range of bits, moved down to offset zero.
pub trait Bits: Sized {
    /// Whether `range` lies inside the word.
    spec fn has_bits(range: Range<u8>) -> bool;

    /// The field that `range` selects, zero-extended.
    spec fn bits_spec(self, range: Range<u8>) -> Self;

    fn bits(self, range: Range<u8>) -> (field: Self)
        requires
            Self::has_bits(range),
        ensures
            field == self.bits_spec(range),
    ;
}

/// Set or clear the bit at a given offset.
pub trait SetBit: Sized {
    /// Whether `offset` names a bit of the word.
    spec fn can_set_bit(offset: u8) -> bool;

    /// The word with the bit at `offset` made equal to `value`.
    spec fn set_bit_spec(self, offset: u8, value: bool) -> Self;

    fn set_bit(&mut self, offset: u8, value: bool)
        requires
            Self::can_set_bit(offset),
        ensures
            *final(self) == old(self).set_bit_spec(offset, value),
    ;
}

/// Overwrite a given range of bits.
pub trait SetBits: Sized {
    /// Whether `range` lies inside the word.
    spec fn can_set_bits(range: Range<u8>) -> bool;

    /// The word with the field that `range` selects replaced by the low bits
    /// of `value`; bits of `value` above the length of the range are ignored.
    spec fn set_bits_spec(self, range: Range<u8>, value: Self) -> Self;

    fn set_bits(&mut self, range: Range<u8>, value: Self)
        requires
            Self::can_set_bits(range),
        ensures
            *final(self) == old(self).set_bits_spec(range, value),
    ;
}

/// The 32 bit word whose low `length` bits are set and whose other bits are
/// clear; every bit is set once `length` reaches 32.
pub open spec fn mask32(length: u8) -> u32 {
    if length >= 32 {
        0xFFFF_FFFFu32
    } else {
        !(0xFFFF_FFFFu32 << length)
    }
}

fn low_mask32(length: u8) -> (mask: u32)
    ensures
        mask == mask32(length),
{
    if length >= 32 {
        0xFFFF_FFFF
    } else {
        !(0xFFFF_FFFFu32 << length)
    }
}

impl One for u32 {
    open spec fn one_spec() -> u32 {
        1
    }

    fn one() -> u32 {
        1
    }
}

impl Zero for u32 {
    open spec fn zero_spec() -> u32 {
        0
    }

    fn zero() -> u32 {
        0
    }
}

impl Bit for u32 {
    open spec fn has_bit(offset: u8) -> bool {
        offset < 32
    }

    open spec fn bit_spec(self, offset: u8) -> bool {
        self & (1u32 << offset) != 0
    }

    fn bit(self, offset: u8) -> bool {
        self & (1u32 << offset) != 0
    }
}

impl Bits for u32 {
    open spec fn has_bits(range: Range<u8>) -> bool {
        range.start <= range.end <= 32
    }

    open spec fn bits_spec(self, range: Range<u8>) -> u32 {
        if range.start >= 32 {
            0
        } else {
            (self >> range.start) & mask32((range.end - range.start) as u8)
        }
    }

    fn bits(self, range: Range<u8>) -> u32 {
        if range.start >= 32 {
            0
        } else {
            (self >> range.start) & low_mask32(range.end - range.start)
        }
    }
}

impl SetBit for u32 {
    open spec fn can_set_bit(offset: u8) -> bool {
        offset < 32
    }

    open spec fn set_bit_spec(self, offset: u8, value: bool) -> u32 {
        if value {
            self | (1u32 << offset)
        } else {
            self & !(1u32 << offset)
        }
    }

    fn set_bit(&mut self, offset: u8, value: bool) {
        if value {
            *self = *self | (1u32 << offset);
        } else {
            *self = *self & !(1u32 << offset);
        }
    }
}

impl SetBits for u32 {
    open spec fn can_set_bits(range: Range<u8>) -> bool {
        range.start <= range.end <= 32
    }

    open spec fn set_bits_spec(self, range: Range<u8>, value: u32) -> u32 {
        if range.start >= 32 {
            self
        } else {
            let mask = mask32((range.end - range.start) as u8);
            (self & !(mask << range.start)) | ((value & mask) << range.start)
        }
    }

    fn set_bits(&mut self, range: Range<u8>, value: u32) {
        if range.start < 32 {
            let mask = low_mask32(range.end - range.start);
            *self = (*self & !(mask << range.start)) | ((value & mask) << range.start);
        }
    }
}

/// Writing back the field that was read from a range gives the word back.
pub proof fn lemma_set_bits_round_trip_u32(x: u32, range: Range<u8>)
    requires
        range.start <= range.end <= 32,
    ensures
        x.set_bits_spec(range, x.bits_spec(range)) == x,
{
    let start = range.start;
    let length = (range.end - range.start) as u8;
    let mask = mask32(length);
    assert(start < 32 ==> (x & !(mask << start)) | ((((x >> start) & mask) & mask) << start) == x)
        by (bit_vector);
}

/// The 16 bit word whose low `length` bits are set and whose other bits are
/// clear; every bit is set once `length` reaches 16.
pub open spec fn mask16(length: u8) -> u16 {
    if length >= 16 {
        0xFFFFu16
    } else {
        !(0xFFFFu16 << length)
    }
}

fn low_mask16(length: u8) -> (mask: u16)
    ensures
        mask == mask16(length),
{
    if length >= 16 {
        0xFFFF
    } else {
        !(0xFFFFu16 << length)
    }
}

impl One for u16 {
    open spec fn one_spec() -> u16 {
        1
    }

    fn one() -> u16 {
        1
    }
}

impl Zero for u16 {
    open spec fn zero_spec() -> u16 {
        0
    }

    fn zero() -> u16 {
        0
    }
}

impl Bit for u16 {
    open spec fn has_bit(offset: u8) -> bool {
        offset < 16
    }

    open spec fn bit_spec(self, offset: u8) -> bool {
        self & (1u16 << offset) != 0
    }

    fn bit(self, offset: u8) -> bool {
        self & (1u16 << offset) != 0
    }
}

impl Bits for u16 {
    open spec fn has_bits(range: Range<u8>) -> bool {
        range.start <= range.end <= 16
    }

    open spec fn bits_spec(self, range: Range<u8>) -> u16 {
        if range.start >= 16 {
            0
        } else {
            (self >> range.start) & mask16((range.end - range.start) as u8)
        }
    }

    fn bits(self, range: Range<u8>) -> u16 {
        if range.start >= 16 {
            0
        } else {
            (self >> range.start) & low_mask16(range.end - range.start)
        }
    }
}

impl SetBit for u16 {
    open spec fn can_set_bit(offset: u8) -> bool {
        offset < 16
    }

    open spec fn set_bit_spec(self, offset: u8, value: bool) -> u16 {
        if value {
            self | (1u16 << offset)
        } else {
            self & !(1u16 << offset)
        }
    }

    fn set_bit(&mut self, offset: u8, value: bool) {
        if value {
            *self = *self | (1u16 << offset);
        } else {
            *self = *self & !(1u16 << offset);
        }
    }
}

impl SetBits for u16 {
    open spec fn can_set_bits(range: Range<u8>) -> bool {
        range.start <= range.end <= 16
    }

    open spec fn set_bits_spec(self, range: Range<u8>, value: u16) -> u16 {
        if range.start >= 16 {
            self
        } else {
            let mask = mask16((range.end - range.start) as u8);
            (self & !(mask << range.start)) | ((value & mask) << range.start)
        }
    }

    fn set_bits(&mut self, range: Range<u8>, value: u16) {
        if range.start < 16 {
            let mask = low_mask16(range.end - range.start);
            *self = (*self & !(mask << range.start)) | ((value & mask) << range.start);
        }
    }
}

/// Writing back the field that was read from a range gives the word back.
pub proof fn lemma_set_bits_round_trip_u16(x: u16, range: Range<u8>)
    requires
        range.start <= range.end <= 16,
    ensures
        x.set_bits_spec(range, x.bits_spec(range)) == x,
{
    let start = range.start;
    let length = (range.end - range.start) as u8;
    let mask = mask16(length);
    assert(start < 16 ==> (x & !(mask << start)) | ((((x >> start) & mask) & mask) << start) == x)
        by (bit_vector);
}

/// The 8 bit word whose low `length` bits are set and whose other bits are
/// clear; every bit is set once `length` reaches 8.
pub open spec fn mask8(length: u8) -> u8 {
    if length >= 8 {
        0xFFu8
    } else {
        !(0xFFu8 << length)
    }
}

fn low_mask8(length: u8) -> (mask: u8)
    ensures
        mask == mask8(length),
{
    if length >= 8 {
        0xFF
    } else {
        !(0xFFu8 << length)
    }
}

impl One for u8 {
    open spec fn one_spec() -> u8 {
        1
    }

    fn one() -> u8 {
        1
    }
}

impl Zero for u8 {
    open spec fn zero_spec() -> u8 {
        0
    }

    fn zero() -> u8 {
        0
    }
}

impl Bit for u8 {
    open spec fn has_bit(offset: u8) -> bool {
        offset < 8
    }

    open spec fn bit_spec(self, offset: u8) -> bool {
        self & (1u8 << offset) != 0
    }

    fn bit(self, offset: u8) -> bool {
        self & (1u8 << offset) != 0
    }
}

impl Bits for u8 {
    open spec fn has_bits(range: Range<u8>) -> bool {
        range.start <= range.end <= 8
    }

    open spec fn bits_spec(self, range: Range<u8>) -> u8 {
        if range.start >= 8 {
            0
        } else {
            (self >> range.start) & mask8((range.end - range.start) as u8)
        }
    }

    fn bits(self, range: Range<u8>) -> u8 {
        if range.start >= 8 {
            0
        } else {
            (self >> range.start) & low_mask8(range.end - range.start)
        }
    }
}

impl SetBit for u8 {
    open spec fn can_set_bit(offset: u8) -> bool {
        offset < 8
    }

    open spec fn set_bit_spec(self, offset: u8, value: bool) -> u8 {
        if value {
            self | (1u8 << offset)
        } else {
            self & !(1u8 << offset)
        }
    }

    fn set_bit(&mut self, offset: u8, value: bool) {
        if value {
            *self = *self | (1u8 << offset);
        } else {
            *self = *self & !(1u8 << offset);
        }
    }
}

impl SetBits for u8 {
    open spec fn can_set_bits(range: Range<u8>) -> bool {
        range.start <= range.end <= 8
    }

    open spec fn set_bits_spec(self, range: Range<u8>, value: u8) -> u8 {
        if range.start >= 8 {
            self
        } else {
            let mask = mask8((range.end - range.start) as u8);
            (self & !(mask << range.start)) | ((value & mask) << range.start)
        }
    }

    fn set_bits(&mut self, range: Range<u8>, value: u8) {
        if range.start < 8 {
            let mask = low_mask8(range.end - range.start);
            *self = (*self & !(mask << range.start)) | ((value & mask) << range.start);
        }
    }
}

/// Writing back the field that was read from a range gives the word back.
pub proof fn lemma_set_bits_round_trip_u8(x: u8, range: Range<u8>)
    requires
        range.start <= range.end <= 8,
    ensures
        x.set_bits_spec(range, x.bits_spec(range)) == x,
{
    let start = range.start;
    let length = (range.end - range.start) as u8;
    let mask = mask8(length);
    assert(start < 8 ==> (x & !(mask << start)) | ((((x >> start) & mask) & mask) << start) == x)
        by (bit_vector);
}

proof fn lemma_field_facts(x: u32, value: u32, start: u8, length: u8, mask: u32, offset: u8)
    by (bit_vector)
    requires
        start < 32,
        start + length <= 32,
        offset < 32,
        length >= 32 ==> mask == 0xFFFF_FFFFu32,
        length < 32 ==> mask == !(0xFFFF_FFFFu32 << length),
    ensures
        (((x & !(mask << start)) | ((value & mask) << start)) >> start) & mask == value & mask,
        (offset < start || start + length <= offset) ==> ((x & !(mask << start)) | ((value & mask)
            << start)) & (1u32 << offset) == x & (1u32 << offset),
        (offset >= length) ==> ((x >> start) & mask) & (1u32 << offset) == 0,
        (offset < length) ==> ((((x >> start) & mask) & (1u32 << offset) == 0) == (x & (1u32 << (
        start + offset) as u8) == 0)),
        0u32 & (1u32 << offset) == 0,
{
}

proof fn lemma_single_bit_facts(x: u32, offset: u8, other: u8)
    by (bit_vector)
    requires
        offset < 32,
        other < 32,
    ensures
        ((x | (1u32 << offset)) & (1u32 << other) != 0) == (other == offset || (x & (1u32 << other)
            != 0)),
        ((x & !(1u32 << offset)) & (1u32 << other) != 0) == (other != offset && (x & (1u32
            << other) != 0)),
{
}

/// A field that was written to a range is read back from it, cut to the
/// length of the range.
pub proof fn lemma_bits_of_set_bits(x: u32, range: Range<u8>, value: u32)
    requires
        range.start <= range.end <= 32,
    ensures
        x.set_bits_spec(range, value).bits_spec(range) == (if range.start >= 32 {
            0
        } else {
            value & mask32((range.end - range.start) as u8)
        }),
{
    if range.start < 32 {
        let length = (range.end - range.start) as u8;
        lemma_field_facts(x, value, range.start, length, mask32(length), 0);
    }
}

/// Writing to a range leaves every bit outside the range as it was.
pub proof fn lemma_set_bits_keeps_other_bits(x: u32, range: Range<u8>, value: u32, offset: u8)
    requires
        range.start <= range.end <= 32,
        offset < 32,
        offset < range.start || range.end <= offset,
    ensures
        x.set_bits_spec(range, value).bit_spec(offset) == x.bit_spec(offset),
{
    if range.start < 32 {
        let length = (range.end - range.start) as u8;
        lemma_field_facts(x, value, range.start, length, mask32(length), offset);
    }
}

/// The field read from a range holds, bit for bit, the bits of the word
/// from the start of the range on, and nothing above the length of the range.
pub proof fn lemma_bits_bitwise(x: u32, range: Range<u8>, offset: u8)
    requires
        range.start <= range.end <= 32,
        offset < 32,
    ensures
        x.bits_spec(range).bit_spec(offset) == (offset < range.end - range.start && x.bit_spec(
            (range.start + offset) as u8,
        )),
{
    if range.start < 32 {
        let length = (range.end - range.start) as u8;
        lemma_field_facts(x, 0, range.start, length, mask32(length), offset);
    } else {
        lemma_field_facts(x, 0, 0, 0, mask32(0), offset);
    }
}

/// Setting a bit makes that bit equal to the value and leaves the others.
pub proof fn lemma_bit_of_set_bit(x: u32, offset: u8, value: bool, other: u8)
    requires
        offset < 32,
        other < 32,
    ensures
        x.set_bit_spec(offset, value).bit_spec(other) == (if other == offset {
            value
        } else {
            x.bit_spec(other)
        }),
{
    lemma_single_bit_facts(x, offset, other);
}

proof fn lemma_mask_shapes(x: u32, start: u8, length: u8)
    by (bit_vector)
    requires
        start < 32,
        length < 32,
    ensures
        !(0xFFFF_FFFFu32 << length) == (1u32 << (length as u32)) - 1,
        (1u32 << (length as u32)) >= 1,
        x & 0xFFFF_FFFFu32 == x,
        (x & (1u32 << start) != 0) == ((x >> (start as u32)) & 1 == 1),
{
}

/// The field that a range selects is the quotient of the word by two to
/// the power of the start of the range, taken modulo two to the power of the
/// length of the range. A bit is such a quotient modulo two.
pub proof fn lemma_bits_as_arithmetic(x: u32, range: Range<u8>)
    requires
        range.start <= range.end <= 32,
    ensures
        x.bits_spec(range) == (x as nat / pow2(range.start as nat)) % pow2(
            (range.end - range.start) as nat,
        ),
        range.start < 32 ==> x.bit_spec(range.start) == ((x as nat / pow2(range.start as nat)) % 2
            == 1),
{
    let start = range.start;
    let length = (range.end - range.start) as u8;
    let divisor = pow2(start as nat);
    let modulus = pow2(length as nat);
    let quotient = x as nat / divisor;
    lemma2_to64();
    lemma_low_bits_mask_values();
    if start < 32 {
        let moved = x >> (start as u32);
        lemma_u32_shr_is_div(x, start as u32);
        assert(x >> start == moved && moved == quotient);
        lemma_u32_low_bits_mask_is_mod(moved, 1);
        lemma_mask_shapes(x, start, 0);
        if length < 32 {
            lemma_mask_shapes(moved, start, length);
            lemma_u32_pow2_no_overflow(length as nat);
            lemma_u32_shl_is_mul(1, length as u32);
            assert(mask32(length) == low_bits_mask(length as nat) as u32);
            lemma_u32_low_bits_mask_is_mod(moved, length as nat);
            assert(x.bits_spec(range) == quotient % modulus);
        } else {
            lemma_mask_shapes(moved, start, 0);
            assert(x.bits_spec(range) == moved);
            assert(modulus == 0x1_0000_0000);
            assert(quotient % modulus == quotient) by (nonlinear_arith)
                requires
                    quotient < 0x1_0000_0000,
                    modulus == 0x1_0000_0000,
            ;
        }
    } else {
        assert(divisor == 0x1_0000_0000 && modulus == 1);
        assert(quotient == 0) by (nonlinear_arith)
            requires
                quotient == x as nat / divisor,
                divisor == 0x1_0000_0000,
                x < 0x1_0000_0000,
        ;
    }
}

} // verus!
