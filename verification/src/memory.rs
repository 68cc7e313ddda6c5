//! A flat random access memory.

use crate::bus::{
    byte_of_halfword, byte_of_word, halfword_of_bytes, lemma_value_of_its_bytes, word_of_bytes,
    Fault, Read, Write,
};
use vstd::prelude::*;

verus! {

/// Number of bytes of a [`Memory`]: 256 MiB.
pub const MEMORY_SIZE: usize = 268_435_456;

/// Byte-addressable memory that starts at address zero. Nothing answers
/// past its last byte.
pub struct Memory(Vec<u8>);

impl View for Memory {
    type V = Seq<u8>;

    closed spec fn view(&self) -> Seq<u8> {
        self.0@
    }
}

/// Whether `width` bytes from `address` on lie inside a memory of `len`
/// bytes.
pub open spec fn in_bounds(len: nat, address: u32, width: u8) -> bool {
    address + width <= len
}

/// What a read of one byte finds in `bytes`.
pub open spec fn bytes_load_byte(bytes: Seq<u8>, address: u32) -> Result<u8, Fault> {
    if in_bounds(bytes.len(), address, 1) {
        Ok(bytes[address as int])
    } else {
        Err(Fault::Unmapped { address, width: 1 })
    }
}

/// What a read of a little-endian halfword finds in `bytes`.
pub open spec fn bytes_load_halfword(bytes: Seq<u8>, address: u32) -> Result<u16, Fault> {
    if in_bounds(bytes.len(), address, 2) {
        Ok(halfword_of_bytes(bytes[address as int], bytes[address + 1]))
    } else {
        Err(Fault::Unmapped { address, width: 2 })
    }
}

/// What a read of a little-endian word finds in `bytes`.
pub open spec fn bytes_load_word(bytes: Seq<u8>, address: u32) -> Result<u32, Fault> {
    if in_bounds(bytes.len(), address, 4) {
        Ok(
            word_of_bytes(
                bytes[address as int],
                bytes[address + 1],
                bytes[address + 2],
                bytes[address + 3],
            ),
        )
    } else {
        Err(Fault::Unmapped { address, width: 4 })
    }
}

/// `bytes` after a write of one byte.
pub open spec fn bytes_store_byte(bytes: Seq<u8>, address: u32, value: u8) -> Result<
    Seq<u8>,
    Fault,
> {
    if in_bounds(bytes.len(), address, 1) {
        Ok(bytes.update(address as int, value))
    } else {
        Err(Fault::Unmapped { address, width: 1 })
    }
}

/// `bytes` after a write of a halfword, low byte first.
pub open spec fn bytes_store_halfword(bytes: Seq<u8>, address: u32, value: u16) -> Result<
    Seq<u8>,
    Fault,
> {
    if in_bounds(bytes.len(), address, 2) {
        Ok(
            bytes.update(address as int, byte_of_halfword(value, 0)).update(
                address + 1,
                byte_of_halfword(value, 1),
            ),
        )
    } else {
        Err(Fault::Unmapped { address, width: 2 })
    }
}

/// `bytes` after a write of a word, lowest byte first.
pub open spec fn bytes_store_word(bytes: Seq<u8>, address: u32, value: u32) -> Result<
    Seq<u8>,
    Fault,
> {
    if in_bounds(bytes.len(), address, 4) {
        Ok(
            bytes.update(address as int, byte_of_word(value, 0)).update(
                address + 1,
                byte_of_word(value, 1),
            ).update(address + 2, byte_of_word(value, 2)).update(
                address + 3,
                byte_of_word(value, 3),
            ),
        )
    } else {
        Err(Fault::Unmapped { address, width: 4 })
    }
}

/// What was stored is what is loaded from the same address. A store is
/// refused exactly where a load of the same width is, and keeps the size of
/// the memory.
pub proof fn lemma_load_after_store(
    bytes: Seq<u8>,
    address: u32,
    byte: u8,
    halfword: u16,
    word: u32,
)
    ensures
        bytes_store_byte(bytes, address, byte) matches Ok(stored) ==> stored.len() == bytes.len()
            && bytes_load_byte(stored, address) == Ok::<u8, Fault>(byte),
        bytes_store_halfword(bytes, address, halfword) matches Ok(stored) ==> stored.len()
            == bytes.len() && bytes_load_halfword(stored, address) == Ok::<u16, Fault>(halfword),
        bytes_store_word(bytes, address, word) matches Ok(stored) ==> stored.len() == bytes.len()
            && bytes_load_word(stored, address) == Ok::<u32, Fault>(word),
        bytes_store_byte(bytes, address, byte) is Ok <==> bytes_load_byte(bytes, address) is Ok,
        bytes_store_halfword(bytes, address, halfword) is Ok <==> bytes_load_halfword(
            bytes,
            address,
        ) is Ok,
        bytes_store_word(bytes, address, word) is Ok <==> bytes_load_word(bytes, address) is Ok,
{
    lemma_value_of_its_bytes(word, halfword);
}

impl Memory {
    /// A memory of [`MEMORY_SIZE`] zero bytes.
    pub fn new() -> (memory: Memory)
        ensures
            memory@.len() == MEMORY_SIZE,
            forall|i: int| 0 <= i < MEMORY_SIZE ==> memory@[i] == 0,
    {
        Memory(vec![0u8; 268_435_456])
    }

    /// A memory of `size` zero bytes.
    pub fn with_size(size: usize) -> (memory: Memory)
        ensures
            memory@.len() == size,
            forall|i: int| 0 <= i < size ==> memory@[i] == 0,
    {
        Memory(vec![0u8; size])
    }
}

impl Read for Memory {
    open spec fn load_byte(state: Seq<u8>, address: u32) -> Result<u8, Fault> {
        bytes_load_byte(state, address)
    }

    open spec fn load_halfword(state: Seq<u8>, address: u32) -> Result<u16, Fault> {
        bytes_load_halfword(state, address)
    }

    open spec fn load_word(state: Seq<u8>, address: u32) -> Result<u32, Fault> {
        bytes_load_word(state, address)
    }

    fn read_byte(&self, address: u32) -> (r: Result<u8, Fault>) {
        if address as u64 + 1 <= self.0.len() as u64 {
            Ok(self.0[address as usize])
        } else {
            Err(Fault::Unmapped { address, width: 1 })
        }
    }

    fn read_halfword(&self, address: u32) -> (r: Result<u16, Fault>) {
        if address as u64 + 2 <= self.0.len() as u64 {
            let b0 = self.0[address as usize];
            let b1 = self.0[address as usize + 1];
            Ok((b0 as u16) | ((b1 as u16) << 8u8))
        } else {
            Err(Fault::Unmapped { address, width: 2 })
        }
    }

    fn read_word(&self, address: u32) -> (r: Result<u32, Fault>) {
        if address as u64 + 4 <= self.0.len() as u64 {
            let b0 = self.0[address as usize];
            let b1 = self.0[address as usize + 1];
            let b2 = self.0[address as usize + 2];
            let b3 = self.0[address as usize + 3];
            Ok((b0 as u32) | ((b1 as u32) << 8u8) | ((b2 as u32) << 16u8) | ((b3 as u32) << 24u8))
        } else {
            Err(Fault::Unmapped { address, width: 4 })
        }
    }
}

impl Write for Memory {
    open spec fn store_byte(state: Seq<u8>, address: u32, value: u8) -> Result<Seq<u8>, Fault> {
        bytes_store_byte(state, address, value)
    }

    open spec fn store_halfword(state: Seq<u8>, address: u32, value: u16) -> Result<
        Seq<u8>,
        Fault,
    > {
        bytes_store_halfword(state, address, value)
    }

    open spec fn store_word(state: Seq<u8>, address: u32, value: u32) -> Result<Seq<u8>, Fault> {
        bytes_store_word(state, address, value)
    }

    fn write_byte(&mut self, address: u32, value: u8) -> (r: Result<(), Fault>) {
        if address as u64 + 1 <= self.0.len() as u64 {
            self.0[address as usize] = value;
            Ok(())
        } else {
            Err(Fault::Unmapped { address, width: 1 })
        }
    }

    fn write_halfword(&mut self, address: u32, value: u16) -> (r: Result<(), Fault>) {
        if address as u64 + 2 <= self.0.len() as u64 {
            self.0[address as usize] = #[verifier::truncate]
            (((value >> 0u8) & 0xFF) as u8);
            self.0[address as usize + 1] = #[verifier::truncate]
            (((value >> 8u8) & 0xFF) as u8);
            Ok(())
        } else {
            Err(Fault::Unmapped { address, width: 2 })
        }
    }

    fn write_word(&mut self, address: u32, value: u32) -> (r: Result<(), Fault>) {
        if address as u64 + 4 <= self.0.len() as u64 {
            self.0[address as usize] = #[verifier::truncate]
            (((value >> 0u8) & 0xFF) as u8);
            self.0[address as usize + 1] = #[verifier::truncate]
            (((value >> 8u8) & 0xFF) as u8);
            self.0[address as usize + 2] = #[verifier::truncate]
            (((value >> 16u8) & 0xFF) as u8);
            self.0[address as usize + 3] = #[verifier::truncate]
            (((value >> 24u8) & 0xFF) as u8);
            Ok(())
        } else {
            Err(Fault::Unmapped { address, width: 4 })
        }
    }
}

} // verus!
