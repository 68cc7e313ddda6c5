//! The memory bus: what a device answers to reads and does on writes of
//! bytes, halfwords and words. Halfwords and words are little-endian.
//!
//! A device is described by its view. What a read returns is a function of
//! the view and the address; a write takes the view to another view, or is
//! refused and leaves it as it was.

use vstd::prelude::*;

verus! {

/// Why a device refuses an access.
#[derive(Clone, Copy, PartialEq, Eq, Structural, Debug)]
pub enum Fault {
    /// Nothing answers an access of `width` bytes at `address`.
    Unmapped { address: u32, width: u8 },
    /// A value other than 0 and 1 was written to the one-bit register at
    /// `address`.
    NonBoolean { address: u32 },
}

/// The halfword whose low byte is `b0` and whose high byte is `b1`.
pub open spec fn halfword_of_bytes(b0: u8, b1: u8) -> u16 {
    (b0 as u16) | ((b1 as u16) << 8u8)
}

/// The word made of four bytes, `b0` the lowest.
pub open spec fn word_of_bytes(b0: u8, b1: u8, b2: u8, b3: u8) -> u32 {
    (b0 as u32) | ((b1 as u32) << 8u8) | ((b2 as u32) << 16u8) | ((b3 as u32) << 24u8)
}

/// Byte `index` of a word, byte 0 the lowest.
pub open spec fn byte_of_word(value: u32, index: u8) -> u8 {
    ((value >> ((8 * index) as u8)) & 0xFF) as u8
}

/// Byte `index` of a halfword, byte 0 the lowest.
pub open spec fn byte_of_halfword(value: u16, index: u8) -> u8 {
    ((value >> ((8 * index) as u8)) & 0xFF) as u8
}

/// A device that can be read.
pub trait Read: View {
    /// What a byte read at `address` returns from a device in `state`.
    spec fn load_byte(state: Self::V, address: u32) -> Result<u8, Fault>;

    /// What a halfword read at `address` returns from a device in `state`.
    spec fn load_halfword(state: Self::V, address: u32) -> Result<u16, Fault>;

    /// What a word read at `address` returns from a device in `state`.
    spec fn load_word(state: Self::V, address: u32) -> Result<u32, Fault>;

    fn read_byte(&self, address: u32) -> (r: Result<u8, Fault>)
        ensures
            r == Self::load_byte(self@, address),
    ;

    fn read_halfword(&self, address: u32) -> (r: Result<u16, Fault>)
        ensures
            r == Self::load_halfword(self@, address),
    ;

    fn read_word(&self, address: u32) -> (r: Result<u32, Fault>)
        ensures
            r == Self::load_word(self@, address),
    ;
}

/// A device that can be written.
pub trait Write: View {
    /// The state that a write of a byte takes `state` to, or why the device
    /// refuses the write.
    spec fn store_byte(state: Self::V, address: u32, value: u8) -> Result<Self::V, Fault>;

    /// The state that a write of a halfword takes `state` to, or why the
    /// device refuses the write.
    spec fn store_halfword(state: Self::V, address: u32, value: u16) -> Result<Self::V, Fault>;

    /// The state that a write of a word takes `state` to, or why the device
    /// refuses the write.
    spec fn store_word(state: Self::V, address: u32, value: u32) -> Result<Self::V, Fault>;

    fn write_byte(&mut self, address: u32, value: u8) -> (r: Result<(), Fault>)
        ensures
            (match Self::store_byte(old(self)@, address, value) {
                Ok(state) => r is Ok && final(self)@ == state,
                Err(fault) => r == Err::<(), Fault>(fault) && final(self)@ == old(self)@,
            }),
    ;

    fn write_halfword(&mut self, address: u32, value: u16) -> (r: Result<(), Fault>)
        ensures
            (match Self::store_halfword(old(self)@, address, value) {
                Ok(state) => r is Ok && final(self)@ == state,
                Err(fault) => r == Err::<(), Fault>(fault) && final(self)@ == old(self)@,
            }),
    ;

    fn write_word(&mut self, address: u32, value: u32) -> (r: Result<(), Fault>)
        ensures
            (match Self::store_word(old(self)@, address, value) {
                Ok(state) => r is Ok && final(self)@ == state,
                Err(fault) => r == Err::<(), Fault>(fault) && final(self)@ == old(self)@,
            }),
    ;
}

proof fn lemma_bytes_bits(value: u32, half: u16, b0: u8, b1: u8, b2: u8, b3: u8)
    by (bit_vector)
    ensures
        ((((value >> 0u8) & 0xFF) as u8) as u32) | (((((value >> 8u8) & 0xFF) as u8) as u32) << 8u8)
            | (((((value >> 16u8) & 0xFF) as u8) as u32) << 16u8) | (((((value >> 24u8) & 0xFF)
            as u8) as u32) << 24u8) == value,
        ((((half >> 0u8) & 0xFF) as u8) as u16) | (((((half >> 8u8) & 0xFF) as u8) as u16) << 8u8)
            == half,
        ({
            let word = (b0 as u32) | ((b1 as u32) << 8u8) | ((b2 as u32) << 16u8) | ((b3 as u32)
                << 24u8);
            &&& ((word >> 0u8) & 0xFF) as u8 == b0
            &&& ((word >> 8u8) & 0xFF) as u8 == b1
            &&& ((word >> 16u8) & 0xFF) as u8 == b2
            &&& ((word >> 24u8) & 0xFF) as u8 == b3
        }),
        ({
            let halfword = (b0 as u16) | ((b1 as u16) << 8u8);
            &&& ((halfword >> 0u8) & 0xFF) as u8 == b0
            &&& ((halfword >> 8u8) & 0xFF) as u8 == b1
        }),
{
}

/// A word is made of its four bytes, and a halfword of its two.
pub proof fn lemma_value_of_its_bytes(word: u32, halfword: u16)
    ensures
        word_of_bytes(
            byte_of_word(word, 0),
            byte_of_word(word, 1),
            byte_of_word(word, 2),
            byte_of_word(word, 3),
        ) == word,
        halfword_of_bytes(byte_of_halfword(halfword, 0), byte_of_halfword(halfword, 1))
            == halfword,
{
    lemma_bytes_bits(word, halfword, 0, 0, 0, 0);
}

/// The bytes of the word made of four bytes are those bytes, and likewise
/// for a halfword.
pub proof fn lemma_bytes_of_value(b0: u8, b1: u8, b2: u8, b3: u8)
    ensures
        byte_of_word(word_of_bytes(b0, b1, b2, b3), 0) == b0,
        byte_of_word(word_of_bytes(b0, b1, b2, b3), 1) == b1,
        byte_of_word(word_of_bytes(b0, b1, b2, b3), 2) == b2,
        byte_of_word(word_of_bytes(b0, b1, b2, b3), 3) == b3,
        byte_of_halfword(halfword_of_bytes(b0, b1), 0) == b0,
        byte_of_halfword(halfword_of_bytes(b0, b1), 1) == b1,
{
    lemma_bytes_bits(0, 0, b0, b1, b2, b3);
}

} // verus!
