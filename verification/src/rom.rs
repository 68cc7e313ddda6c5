//! A read-only image, such as the BIOS or a cartridge, held in memory.

use crate::bus::{halfword_of_bytes, word_of_bytes, Fault, Read};
use crate::memory::{bytes_load_byte, bytes_load_halfword, bytes_load_word};
use byteorder::{ByteOrder, LittleEndian};
use vstd::prelude::*;
use vstd::slice::slice_subrange;

verus! {

/// The bytes of an image. Offset zero is its first byte; nothing answers
/// past its end.
pub struct Rom(Vec<u8>);

impl View for Rom {
    type V = Seq<u8>;

    closed spec fn view(&self) -> Seq<u8> {
        self.0@
    }
}

/// `byteorder::LittleEndian::read_u16`: the halfword whose low byte is the
/// first byte of `buf` and whose high byte is the second. The function
/// panics on a buffer of fewer than two bytes, which `requires` leaves out.
#[verifier::external_body]
fn read_u16_le(buf: &[u8]) -> (value: u16)
    requires
        buf@.len() >= 2,
    ensures
        value == halfword_of_bytes(buf@[0], buf@[1]),
{
    LittleEndian::read_u16(buf)
}

/// `byteorder::LittleEndian::read_u32`: the word made of the first four
/// bytes of `buf`, the first the lowest. The function panics on a buffer of
/// fewer than four bytes, which `requires` leaves out.
#[verifier::external_body]
fn read_u32_le(buf: &[u8]) -> (value: u32)
    requires
        buf@.len() >= 4,
    ensures
        value == word_of_bytes(buf@[0], buf@[1], buf@[2], buf@[3]),
{
    LittleEndian::read_u32(buf)
}

impl Rom {
    /// The image that holds `bytes`.
    pub fn new(bytes: Vec<u8>) -> (rom: Rom)
        ensures
            rom@ == bytes@,
    {
        Rom(bytes)
    }

    /// Number of bytes of the image.
    pub fn len(&self) -> (len: usize)
        ensures
            len == self@.len(),
    {
        self.0.len()
    }
}

impl Read for Rom {
    open spec fn load_byte(state: Seq<u8>, address: u32) -> Result<u8, Fault> {
        bytes_load_byte(state, address)
    }

    open spec fn load_halfword(state: Seq<u8>, address: u32) -> Result<u16, Fault> {
        bytes_load_halfword(state, address)
    }

    open spec fn load_word(state: Seq<u8>, address: u32) -> Result<u32, Fault> {
        bytes_load_word(state, address)
    }

    fn read_byte(&self, address: u32) -> (r: Result<u8, Fault>) {
        if address as u64 + 1 <= self.0.len() as u64 {
            Ok(self.0[address as usize])
        } else {
            Err(Fault::Unmapped { address, width: 1 })
        }
    }

    fn read_halfword(&self, address: u32) -> (r: Result<u16, Fault>) {
        if address as u64 + 2 <= self.0.len() as u64 {
            let start = address as usize;
            Ok(read_u16_le(slice_subrange(self.0.as_slice(), start, start + 2)))
        } else {
            Err(Fault::Unmapped { address, width: 2 })
        }
    }

    fn read_word(&self, address: u32) -> (r: Result<u32, Fault>) {
        if address as u64 + 4 <= self.0.len() as u64 {
            let start = address as usize;
            Ok(read_u32_le(slice_subrange(self.0.as_slice(), start, start + 4)))
        } else {
            Err(Fault::Unmapped { address, width: 4 })
        }
    }
}

} // verus!
