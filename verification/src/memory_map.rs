//! The address space of the machine: which device answers at which address.

use crate::bit::SetBits;
use crate::bus::{byte_of_word, Fault, Read, Write};
use crate::interrupt_controller::{InterruptController, InterruptState};
use crate::memory::{
    bytes_load_byte, bytes_load_halfword, bytes_load_word, bytes_store_byte, bytes_store_halfword,
    bytes_store_word, Memory,
};
use crate::rom::Rom;
use vstd::prelude::*;

verus! {

/// Offset of the flag that the BIOS sets after boot.
pub const POSTFLG: u32 = 0x300;

/// Offset of the power-down control.
pub const HALTCNT: u32 = 0x301;

/// Offset of the memory control word.
pub const MEMCNT: u32 = 0x800;

/// Three registers that belong to no other device.
#[derive(Clone, Copy, PartialEq, Eq, Structural, Debug)]
pub struct MiscRegisters {
    pub postflg: bool,
    pub haltcnt: bool,
    pub memcnt: u32,
}

/// The number that stands for a flag.
pub open spec fn flag_value(flag: bool) -> u8 {
    if flag {
        1
    } else {
        0
    }
}

impl View for MiscRegisters {
    type V = MiscRegisters;

    open spec fn view(&self) -> MiscRegisters {
        *self
    }
}

impl MiscRegisters {
    /// The registers after reset: both flags clear, the control word zero.
    pub fn new() -> (registers: MiscRegisters)
        ensures
            registers == (MiscRegisters { postflg: false, haltcnt: false, memcnt: 0 }),
    {
        MiscRegisters { postflg: false, haltcnt: false, memcnt: 0 }
    }

    /// The registers after a write of `value`, as wide as it may be, to one
    /// of the two flags: only 0 and 1 are taken.
    pub open spec fn store_flag(self, address: u32, value: u32) -> Result<MiscRegisters, Fault> {
        if value > 1 {
            Err(Fault::NonBoolean { address })
        } else if address == POSTFLG {
            Ok(MiscRegisters { postflg: value == 1, ..self })
        } else {
            Ok(MiscRegisters { haltcnt: value == 1, ..self })
        }
    }

    fn write_flag(&mut self, address: u32, value: u32) -> (r: Result<(), Fault>)
        requires
            address == POSTFLG || address == HALTCNT,
        ensures
            (match old(self).store_flag(address, value) {
                Ok(state) => r is Ok && *final(self) == state,
                Err(fault) => r == Err::<(), Fault>(fault) && *final(self) == *old(self),
            }),
    {
        if value > 1 {
            Err(Fault::NonBoolean { address })
        } else {
            if address == POSTFLG {
                self.postflg = value == 1;
            } else {
                self.haltcnt = value == 1;
            }
            Ok(())
        }
    }
}

fn flag(set: bool) -> (value: u8)
    ensures
        value == flag_value(set),
{
    if set {
        1
    } else {
        0
    }
}

impl Read for MiscRegisters {
    open spec fn load_byte(state: MiscRegisters, address: u32) -> Result<u8, Fault> {
        if address == POSTFLG {
            Ok(flag_value(state.postflg))
        } else if address == HALTCNT {
            Ok(flag_value(state.haltcnt))
        } else if MEMCNT <= address <= MEMCNT + 3 {
            Ok(byte_of_word(state.memcnt, (address - MEMCNT) as u8))
        } else {
            Err(Fault::Unmapped { address, width: 1 })
        }
    }

    open spec fn load_halfword(state: MiscRegisters, address: u32) -> Result<u16, Fault> {
        if address == POSTFLG {
            Ok(flag_value(state.postflg) as u16)
        } else if address == HALTCNT {
            Ok(flag_value(state.haltcnt) as u16)
        } else if address == MEMCNT {
            Ok((state.memcnt & 0xFFFF) as u16)
        } else if address == MEMCNT + 2 {
            Ok((state.memcnt >> 16u8) as u16)
        } else {
            Err(Fault::Unmapped { address, width: 2 })
        }
    }

    open spec fn load_word(state: MiscRegisters, address: u32) -> Result<u32, Fault> {
        if address == POSTFLG {
            Ok(flag_value(state.postflg) as u32)
        } else if address == HALTCNT {
            Ok(flag_value(state.haltcnt) as u32)
        } else if address == MEMCNT {
            Ok(state.memcnt)
        } else {
            Err(Fault::Unmapped { address, width: 4 })
        }
    }

    fn read_byte(&self, address: u32) -> (r: Result<u8, Fault>) {
        match address {
            0x300 => Ok(flag(self.postflg)),
            0x301 => Ok(flag(self.haltcnt)),
            0x800 => Ok(
                #[verifier::truncate]
                (((self.memcnt >> 0u8) & 0xFF) as u8),
            ),
            0x801 => Ok(
                #[verifier::truncate]
                (((self.memcnt >> 8u8) & 0xFF) as u8),
            ),
            0x802 => Ok(
                #[verifier::truncate]
                (((self.memcnt >> 16u8) & 0xFF) as u8),
            ),
            0x803 => Ok(
                #[verifier::truncate]
                (((self.memcnt >> 24u8) & 0xFF) as u8),
            ),
            _ => Err(Fault::Unmapped { address, width: 1 }),
        }
    }

    fn read_halfword(&self, address: u32) -> (r: Result<u16, Fault>) {
        match address {
            0x300 => Ok(flag(self.postflg) as u16),
            0x301 => Ok(flag(self.haltcnt) as u16),
            0x800 => Ok(
                #[verifier::truncate]
                ((self.memcnt & 0xFFFF) as u16),
            ),
            0x802 => Ok(
                #[verifier::truncate]
                ((self.memcnt >> 16u8) as u16),
            ),
            _ => Err(Fault::Unmapped { address, width: 2 }),
        }
    }

    fn read_word(&self, address: u32) -> (r: Result<u32, Fault>) {
        match address {
            0x300 => Ok(flag(self.postflg) as u32),
            0x301 => Ok(flag(self.haltcnt) as u32),
            0x800 => Ok(self.memcnt),
            _ => Err(Fault::Unmapped { address, width: 4 }),
        }
    }
}

impl Write for MiscRegisters {
    open spec fn store_byte(state: MiscRegisters, address: u32, value: u8) -> Result<
        MiscRegisters,
        Fault,
    > {
        if address == POSTFLG || address == HALTCNT {
            state.store_flag(address, value as u32)
        } else if MEMCNT <= address <= MEMCNT + 3 {
            let low = (8 * (address - MEMCNT)) as u8;
            Ok(
                MiscRegisters {
                    memcnt: state.memcnt.set_bits_spec(low..((low + 8) as u8), value as u32),
                    ..state
                },
            )
        } else {
            Err(Fault::Unmapped { address, width: 1 })
        }
    }

    open spec fn store_halfword(state: MiscRegisters, address: u32, value: u16) -> Result<
        MiscRegisters,
        Fault,
    > {
        if address == POSTFLG || address == HALTCNT {
            state.store_flag(address, value as u32)
        } else if address == MEMCNT {
            Ok(MiscRegisters { memcnt: state.memcnt.set_bits_spec(0..16, value as u32), ..state })
        } else if address == MEMCNT + 2 {
            Ok(MiscRegisters { memcnt: state.memcnt.set_bits_spec(16..32, value as u32), ..state })
        } else {
            Err(Fault::Unmapped { address, width: 2 })
        }
    }

    open spec fn store_word(state: MiscRegisters, address: u32, value: u32) -> Result<
        MiscRegisters,
        Fault,
    > {
        if address == POSTFLG || address == HALTCNT {
            state.store_flag(address, value)
        } else if address == MEMCNT {
            Ok(MiscRegisters { memcnt: value, ..state })
        } else {
            Err(Fault::Unmapped { address, width: 4 })
        }
    }

    fn write_byte(&mut self, address: u32, value: u8) -> (r: Result<(), Fault>) {
        match address {
            0x300 | 0x301 => self.write_flag(address, value as u32),
            0x800 => {
                self.memcnt.set_bits(0..8, value as u32);
                Ok(())
            },
            0x801 => {
                self.memcnt.set_bits(8..16, value as u32);
                Ok(())
            },
            0x802 => {
                self.memcnt.set_bits(16..24, value as u32);
                Ok(())
            },
            0x803 => {
                self.memcnt.set_bits(24..32, value as u32);
                Ok(())
            },
            _ => Err(Fault::Unmapped { address, width: 1 }),
        }
    }

    fn write_halfword(&mut self, address: u32, value: u16) -> (r: Result<(), Fault>) {
        match address {
            0x300 | 0x301 => self.write_flag(address, value as u32),
            0x800 => {
                self.memcnt.set_bits(0..16, value as u32);
                Ok(())
            },
            0x802 => {
                self.memcnt.set_bits(16..32, value as u32);
                Ok(())
            },
            _ => Err(Fault::Unmapped { address, width: 2 }),
        }
    }

    fn write_word(&mut self, address: u32, value: u32) -> (r: Result<(), Fault>) {
        match address {
            0x300 | 0x301 => self.write_flag(address, value),
            0x800 => {
                self.memcnt = value;
                Ok(())
            },
            _ => Err(Fault::Unmapped { address, width: 4 }),
        }
    }
}

/// A device of the address space.
#[derive(Clone, Copy, PartialEq, Eq, Structural, Debug)]
pub enum Device {
    /// The BIOS image, read-only.
    Bios,
    /// The work memory on the board: 256 KiB.
    BoardRam,
    /// The work memory on the chip: 32 KiB.
    ChipRam,
    /// The registers of the interrupt controller.
    Interrupts,
    /// POSTFLG, HALTCNT and MEMCNT.
    Misc,
    /// The palette memory: 1 KiB.
    Palette,
    /// The video memory: 96 KiB.
    Vram,
    /// The object attribute memory: 1 KiB.
    Oam,
    /// The cartridge, read-only, seen three times over.
    Rom,
    /// The memory of the cartridge: 64 KiB.
    Sram,
}

/// The bits of an address that a device sees.
pub const OFFSET: u32 = 0xFF_FFFF;

/// Number of bytes of the work memory on the board.
pub const BOARD_RAM_SIZE: usize = 0x4_0000;

/// Number of bytes of the work memory on the chip.
pub const CHIP_RAM_SIZE: usize = 0x8000;

/// Number of bytes of the palette memory.
pub const PALETTE_SIZE: usize = 0x400;

/// Number of bytes of the video memory.
pub const VRAM_SIZE: usize = 0x1_8000;

/// Number of bytes of the object attribute memory.
pub const OAM_SIZE: usize = 0x400;

/// Number of bytes of the memory of the cartridge.
pub const SRAM_SIZE: usize = 0x1_0000;

/// The device that answers a read at `address`, and the offset that it sees.
pub open spec fn map_read_spec(address: u32) -> Option<(Device, u32)> {
    if address <= 0x0000_3FFF {
        Some((Device::Bios, address & OFFSET))
    } else if 0x0200_0000 <= address <= 0x0203_FFFF {
        Some((Device::BoardRam, address & OFFSET))
    } else if 0x0300_0000 <= address <= 0x0300_7FFF {
        Some((Device::ChipRam, address & OFFSET))
    } else if 0x0400_0200 <= address <= 0x0400_0209 {
        Some((Device::Interrupts, address & OFFSET))
    } else if 0x0400_0300 <= address <= 0x0400_0803 {
        Some((Device::Misc, address & OFFSET))
    } else if 0x0500_0000 <= address <= 0x0500_03FF {
        Some((Device::Palette, address & OFFSET))
    } else if 0x0600_0000 <= address <= 0x0601_7FFF {
        Some((Device::Vram, address & OFFSET))
    } else if 0x0700_0000 <= address <= 0x0700_03FF {
        Some((Device::Oam, address & OFFSET))
    } else if 0x0800_0000 <= address <= 0x0DFF_FFFF {
        Some((Device::Rom, address & OFFSET))
    } else if 0x0E00_0000 <= address <= 0x0E00_FFFF {
        Some((Device::Sram, address & OFFSET))
    } else {
        None
    }
}

/// The device that takes a write at `address`, and the offset that it sees.
/// The two images take none.
pub open spec fn map_write_spec(address: u32) -> Option<(Device, u32)> {
    if 0x0200_0000 <= address <= 0x0203_FFFF {
        Some((Device::BoardRam, address & OFFSET))
    } else if 0x0300_0000 <= address <= 0x0300_7FFF {
        Some((Device::ChipRam, address & OFFSET))
    } else if 0x0400_0200 <= address <= 0x0400_0209 {
        Some((Device::Interrupts, address & OFFSET))
    } else if 0x0400_0300 <= address <= 0x0400_0803 {
        Some((Device::Misc, address & OFFSET))
    } else if 0x0500_0000 <= address <= 0x0500_03FF {
        Some((Device::Palette, address & OFFSET))
    } else if 0x0600_0000 <= address <= 0x0601_7FFF {
        Some((Device::Vram, address & OFFSET))
    } else if 0x0700_0000 <= address <= 0x0700_03FF {
        Some((Device::Oam, address & OFFSET))
    } else if 0x0E00_0000 <= address <= 0x0E00_FFFF {
        Some((Device::Sram, address & OFFSET))
    } else {
        None
    }
}

/// Finds the device that answers a read at `address`.
pub fn map_read(address: u32) -> (target: Option<(Device, u32)>)
    ensures
        target == map_read_spec(address),
{
    if address <= 0x0000_3FFF {
        Some((Device::Bios, address & OFFSET))
    } else if 0x0200_0000 <= address && address <= 0x0203_FFFF {
        Some((Device::BoardRam, address & OFFSET))
    } else if 0x0300_0000 <= address && address <= 0x0300_7FFF {
        Some((Device::ChipRam, address & OFFSET))
    } else if 0x0400_0200 <= address && address <= 0x0400_0209 {
        Some((Device::Interrupts, address & OFFSET))
    } else if 0x0400_0300 <= address && address <= 0x0400_0803 {
        Some((Device::Misc, address & OFFSET))
    } else if 0x0500_0000 <= address && address <= 0x0500_03FF {
        Some((Device::Palette, address & OFFSET))
    } else if 0x0600_0000 <= address && address <= 0x0601_7FFF {
        Some((Device::Vram, address & OFFSET))
    } else if 0x0700_0000 <= address && address <= 0x0700_03FF {
        Some((Device::Oam, address & OFFSET))
    } else if 0x0800_0000 <= address && address <= 0x0DFF_FFFF {
        Some((Device::Rom, address & OFFSET))
    } else if 0x0E00_0000 <= address && address <= 0x0E00_FFFF {
        Some((Device::Sram, address & OFFSET))
    } else {
        None
    }
}

/// Finds the device that takes a write at `address`.
pub fn map_write(address: u32) -> (target: Option<(Device, u32)>)
    ensures
        target == map_write_spec(address),
{
    if 0x0200_0000 <= address && address <= 0x0203_FFFF {
        Some((Device::BoardRam, address & OFFSET))
    } else if 0x0300_0000 <= address && address <= 0x0300_7FFF {
        Some((Device::ChipRam, address & OFFSET))
    } else if 0x0400_0200 <= address && address <= 0x0400_0209 {
        Some((Device::Interrupts, address & OFFSET))
    } else if 0x0400_0300 <= address && address <= 0x0400_0803 {
        Some((Device::Misc, address & OFFSET))
    } else if 0x0500_0000 <= address && address <= 0x0500_03FF {
        Some((Device::Palette, address & OFFSET))
    } else if 0x0600_0000 <= address && address <= 0x0601_7FFF {
        Some((Device::Vram, address & OFFSET))
    } else if 0x0700_0000 <= address && address <= 0x0700_03FF {
        Some((Device::Oam, address & OFFSET))
    } else if 0x0E00_0000 <= address && address <= 0x0E00_FFFF {
        Some((Device::Sram, address & OFFSET))
    } else {
        None
    }
}

/// A fault of a device, with the address of the bus in place of the offset
/// that the device saw.
pub open spec fn rebase_spec(fault: Fault, address: u32) -> Fault {
    match fault {
        Fault::Unmapped { width, .. } => Fault::Unmapped { address, width },
        Fault::NonBoolean { .. } => Fault::NonBoolean { address },
    }
}

/// The answer of a device as the bus gives it: a fault names the address
/// of the bus.
pub open spec fn at<T>(address: u32, answer: Result<T, Fault>) -> Result<T, Fault> {
    match answer {
        Ok(value) => Ok(value),
        Err(fault) => Err(rebase_spec(fault, address)),
    }
}

fn rebase(fault: Fault, address: u32) -> (rebased: Fault)
    ensures
        rebased == rebase_spec(fault, address),
{
    match fault {
        Fault::Unmapped { width, .. } => Fault::Unmapped { address, width },
        Fault::NonBoolean { .. } => Fault::NonBoolean { address },
    }
}

/// Whether `bytes` are `size` zero bytes.
pub open spec fn zeroed(bytes: Seq<u8>, size: nat) -> bool {
    bytes.len() == size && forall|i: int| 0 <= i < size ==> bytes[i] == 0
}

/// The address space as a value: the state of each device.
pub struct MemoryMapView {
    pub bios: Seq<u8>,
    pub board_ram: Seq<u8>,
    pub chip_ram: Seq<u8>,
    pub interrupts: InterruptState,
    pub misc: MiscRegisters,
    pub palette: Seq<u8>,
    pub vram: Seq<u8>,
    pub oam: Seq<u8>,
    pub rom: Seq<u8>,
    pub sram: Seq<u8>,
}

impl MemoryMapView {
    /// What a read of a byte at `address` returns.
    pub open spec fn load_byte(self, address: u32) -> Result<u8, Fault> {
        match map_read_spec(address) {
            None => Err(Fault::Unmapped { address, width: 1 }),
            Some((device, offset)) => at(
                address,
                match device {
                    Device::Bios => bytes_load_byte(self.bios, offset),
                    Device::BoardRam => bytes_load_byte(self.board_ram, offset),
                    Device::ChipRam => bytes_load_byte(self.chip_ram, offset),
                    Device::Interrupts => <InterruptController as Read>::load_byte(
                        self.interrupts,
                        offset,
                    ),
                    Device::Misc => <MiscRegisters as Read>::load_byte(self.misc, offset),
                    Device::Palette => bytes_load_byte(self.palette, offset),
                    Device::Vram => bytes_load_byte(self.vram, offset),
                    Device::Oam => bytes_load_byte(self.oam, offset),
                    Device::Rom => bytes_load_byte(self.rom, offset),
                    Device::Sram => bytes_load_byte(self.sram, offset),
                },
            ),
        }
    }

    /// What a read of a halfword at `address` returns.
    pub open spec fn load_halfword(self, address: u32) -> Result<u16, Fault> {
        match map_read_spec(address) {
            None => Err(Fault::Unmapped { address, width: 2 }),
            Some((device, offset)) => at(
                address,
                match device {
                    Device::Bios => bytes_load_halfword(self.bios, offset),
                    Device::BoardRam => bytes_load_halfword(self.board_ram, offset),
                    Device::ChipRam => bytes_load_halfword(self.chip_ram, offset),
                    Device::Interrupts => <InterruptController as Read>::load_halfword(
                        self.interrupts,
                        offset,
                    ),
                    Device::Misc => <MiscRegisters as Read>::load_halfword(self.misc, offset),
                    Device::Palette => bytes_load_halfword(self.palette, offset),
                    Device::Vram => bytes_load_halfword(self.vram, offset),
                    Device::Oam => bytes_load_halfword(self.oam, offset),
                    Device::Rom => bytes_load_halfword(self.rom, offset),
                    Device::Sram => bytes_load_halfword(self.sram, offset),
                },
            ),
        }
    }

    /// What a read of a word at `address` returns.
    pub open spec fn load_word(self, address: u32) -> Result<u32, Fault> {
        match map_read_spec(address) {
            None => Err(Fault::Unmapped { address, width: 4 }),
            Some((device, offset)) => at(
                address,
                match device {
                    Device::Bios => bytes_load_word(self.bios, offset),
                    Device::BoardRam => bytes_load_word(self.board_ram, offset),
                    Device::ChipRam => bytes_load_word(self.chip_ram, offset),
                    Device::Interrupts => <InterruptController as Read>::load_word(
                        self.interrupts,
                        offset,
                    ),
                    Device::Misc => <MiscRegisters as Read>::load_word(self.misc, offset),
                    Device::Palette => bytes_load_word(self.palette, offset),
                    Device::Vram => bytes_load_word(self.vram, offset),
                    Device::Oam => bytes_load_word(self.oam, offset),
                    Device::Rom => bytes_load_word(self.rom, offset),
                    Device::Sram => bytes_load_word(self.sram, offset),
                },
            ),
        }
    }

    /// The address space after a write of a byte to `address`.
    pub open spec fn store_byte(self, address: u32, value: u8) -> Result<MemoryMapView, Fault> {
        match map_write_spec(address) {
            None => Err(Fault::Unmapped { address, width: 1 }),
            Some((device, offset)) => at(
                address,
                match device {
                    Device::BoardRam => match bytes_store_byte(self.board_ram, offset, value) {
                        Ok(board_ram) => Ok(MemoryMapView { board_ram, ..self }),
                        Err(fault) => Err(fault),
                    },
                    Device::ChipRam => match bytes_store_byte(self.chip_ram, offset, value) {
                        Ok(chip_ram) => Ok(MemoryMapView { chip_ram, ..self }),
                        Err(fault) => Err(fault),
                    },
                    Device::Interrupts => match <InterruptController as Write>::store_byte(
                        self.interrupts,
                        offset,
                        value,
                    ) {
                        Ok(interrupts) => Ok(MemoryMapView { interrupts, ..self }),
                        Err(fault) => Err(fault),
                    },
                    Device::Misc => match <MiscRegisters as Write>::store_byte(
                        self.misc,
                        offset,
                        value,
                    ) {
                        Ok(misc) => Ok(MemoryMapView { misc, ..self }),
                        Err(fault) => Err(fault),
                    },
                    Device::Palette => match bytes_store_byte(self.palette, offset, value) {
                        Ok(palette) => Ok(MemoryMapView { palette, ..self }),
                        Err(fault) => Err(fault),
                    },
                    Device::Vram => match bytes_store_byte(self.vram, offset, value) {
                        Ok(vram) => Ok(MemoryMapView { vram, ..self }),
                        Err(fault) => Err(fault),
                    },
                    Device::Oam => match bytes_store_byte(self.oam, offset, value) {
                        Ok(oam) => Ok(MemoryMapView { oam, ..self }),
                        Err(fault) => Err(fault),
                    },
                    Device::Sram => match bytes_store_byte(self.sram, offset, value) {
                        Ok(sram) => Ok(MemoryMapView { sram, ..self }),
                        Err(fault) => Err(fault),
                    },
                    Device::Bios | Device::Rom => Err(Fault::Unmapped { address, width: 1 }),
                },
            ),
        }
    }

    /// The address space after a write of a halfword to `address`.
    pub open spec fn store_halfword(self, address: u32, value: u16) -> Result<
        MemoryMapView,
        Fault,
    > {
        match map_write_spec(address) {
            None => Err(Fault::Unmapped { address, width: 2 }),
            Some((device, offset)) => at(
                address,
                match device {
                    Device::BoardRam => match bytes_store_halfword(self.board_ram, offset, value) {
                        Ok(board_ram) => Ok(MemoryMapView { board_ram, ..self }),
                        Err(fault) => Err(fault),
                    },
                    Device::ChipRam => match bytes_store_halfword(self.chip_ram, offset, value) {
                        Ok(chip_ram) => Ok(MemoryMapView { chip_ram, ..self }),
                        Err(fault) => Err(fault),
                    },
                    Device::Interrupts => match <InterruptController as Write>::store_halfword(
                        self.interrupts,
                        offset,
                        value,
                    ) {
                        Ok(interrupts) => Ok(MemoryMapView { interrupts, ..self }),
                        Err(fault) => Err(fault),
                    },
                    Device::Misc => match <MiscRegisters as Write>::store_halfword(
                        self.misc,
                        offset,
                        value,
                    ) {
                        Ok(misc) => Ok(MemoryMapView { misc, ..self }),
                        Err(fault) => Err(fault),
                    },
                    Device::Palette => match bytes_store_halfword(self.palette, offset, value) {
                        Ok(palette) => Ok(MemoryMapView { palette, ..self }),
                        Err(fault) => Err(fault),
                    },
                    Device::Vram => match bytes_store_halfword(self.vram, offset, value) {
                        Ok(vram) => Ok(MemoryMapView { vram, ..self }),
                        Err(fault) => Err(fault),
                    },
                    Device::Oam => match bytes_store_halfword(self.oam, offset, value) {
                        Ok(oam) => Ok(MemoryMapView { oam, ..self }),
                        Err(fault) => Err(fault),
                    },
                    Device::Sram => match bytes_store_halfword(self.sram, offset, value) {
                        Ok(sram) => Ok(MemoryMapView { sram, ..self }),
                        Err(fault) => Err(fault),
                    },
                    Device::Bios | Device::Rom => Err(Fault::Unmapped { address, width: 2 }),
                },
            ),
        }
    }

    /// The address space after a write of a word to `address`.
    pub open spec fn store_word(self, address: u32, value: u32) -> Result<MemoryMapView, Fault> {
        match map_write_spec(address) {
            None => Err(Fault::Unmapped { address, width: 4 }),
            Some((device, offset)) => at(
                address,
                match device {
                    Device::BoardRam => match bytes_store_word(self.board_ram, offset, value) {
                        Ok(board_ram) => Ok(MemoryMapView { board_ram, ..self }),
                        Err(fault) => Err(fault),
                    },
                    Device::ChipRam => match bytes_store_word(self.chip_ram, offset, value) {
                        Ok(chip_ram) => Ok(MemoryMapView { chip_ram, ..self }),
                        Err(fault) => Err(fault),
                    },
                    Device::Interrupts => match <InterruptController as Write>::store_word(
                        self.interrupts,
                        offset,
                        value,
                    ) {
                        Ok(interrupts) => Ok(MemoryMapView { interrupts, ..self }),
                        Err(fault) => Err(fault),
                    },
                    Device::Misc => match <MiscRegisters as Write>::store_word(
                        self.misc,
                        offset,
                        value,
                    ) {
                        Ok(misc) => Ok(MemoryMapView { misc, ..self }),
                        Err(fault) => Err(fault),
                    },
                    Device::Palette => match bytes_store_word(self.palette, offset, value) {
                        Ok(palette) => Ok(MemoryMapView { palette, ..self }),
                        Err(fault) => Err(fault),
                    },
                    Device::Vram => match bytes_store_word(self.vram, offset, value) {
                        Ok(vram) => Ok(MemoryMapView { vram, ..self }),
                        Err(fault) => Err(fault),
                    },
                    Device::Oam => match bytes_store_word(self.oam, offset, value) {
                        Ok(oam) => Ok(MemoryMapView { oam, ..self }),
                        Err(fault) => Err(fault),
                    },
                    Device::Sram => match bytes_store_word(self.sram, offset, value) {
                        Ok(sram) => Ok(MemoryMapView { sram, ..self }),
                        Err(fault) => Err(fault),
                    },
                    Device::Bios | Device::Rom => Err(Fault::Unmapped { address, width: 4 }),
                },
            ),
        }
    }
}

/// The address space: the two images, the memories, the interrupt
/// controller and the miscellaneous registers. Nothing answers at any other
/// address.
pub struct MemoryMap {
    pub bios: Rom,
    pub board_ram: Memory,
    pub chip_ram: Memory,
    pub interrupts: InterruptController,
    pub misc: MiscRegisters,
    pub palette: Memory,
    pub vram: Memory,
    pub oam: Memory,
    pub rom: Rom,
    pub sram: Memory,
}

impl View for MemoryMap {
    type V = MemoryMapView;

    open spec fn view(&self) -> MemoryMapView {
        MemoryMapView {
            bios: self.bios@,
            board_ram: self.board_ram@,
            chip_ram: self.chip_ram@,
            interrupts: self.interrupts@,
            misc: self.misc,
            palette: self.palette@,
            vram: self.vram@,
            oam: self.oam@,
            rom: self.rom@,
            sram: self.sram@,
        }
    }
}

impl MemoryMap {
    /// An address space with the given images and interrupt controller, zeroed
    /// memories and the miscellaneous registers at reset.
    pub fn new(bios: Rom, rom: Rom, interrupts: InterruptController) -> (memory: MemoryMap)
        ensures
            memory@.bios == bios@,
            memory@.rom == rom@,
            memory@.interrupts == interrupts@,
            memory@.misc == (MiscRegisters { postflg: false, haltcnt: false, memcnt: 0 }),
            zeroed(memory@.board_ram, BOARD_RAM_SIZE as nat),
            zeroed(memory@.chip_ram, CHIP_RAM_SIZE as nat),
            zeroed(memory@.palette, PALETTE_SIZE as nat),
            zeroed(memory@.vram, VRAM_SIZE as nat),
            zeroed(memory@.oam, OAM_SIZE as nat),
            zeroed(memory@.sram, SRAM_SIZE as nat),
    {
        MemoryMap {
            bios,
            board_ram: Memory::with_size(BOARD_RAM_SIZE),
            chip_ram: Memory::with_size(CHIP_RAM_SIZE),
            interrupts,
            misc: MiscRegisters::new(),
            palette: Memory::with_size(PALETTE_SIZE),
            vram: Memory::with_size(VRAM_SIZE),
            oam: Memory::with_size(OAM_SIZE),
            rom,
            sram: Memory::with_size(SRAM_SIZE),
        }
    }
}

impl Read for MemoryMap {
    open spec fn load_byte(state: MemoryMapView, address: u32) -> Result<u8, Fault> {
        state.load_byte(address)
    }

    open spec fn load_halfword(state: MemoryMapView, address: u32) -> Result<u16, Fault> {
        state.load_halfword(address)
    }

    open spec fn load_word(state: MemoryMapView, address: u32) -> Result<u32, Fault> {
        state.load_word(address)
    }

    fn read_byte(&self, address: u32) -> (r: Result<u8, Fault>) {
        match map_read(address) {
            None => Err(Fault::Unmapped { address, width: 1 }),
            Some((device, offset)) => {
                let answer = match device {
                    Device::Bios => self.bios.read_byte(offset),
                    Device::BoardRam => self.board_ram.read_byte(offset),
                    Device::ChipRam => self.chip_ram.read_byte(offset),
                    Device::Interrupts => self.interrupts.read_byte(offset),
                    Device::Misc => self.misc.read_byte(offset),
                    Device::Palette => self.palette.read_byte(offset),
                    Device::Vram => self.vram.read_byte(offset),
                    Device::Oam => self.oam.read_byte(offset),
                    Device::Rom => self.rom.read_byte(offset),
                    Device::Sram => self.sram.read_byte(offset),
                };
                match answer {
                    Ok(value) => Ok(value),
                    Err(fault) => Err(rebase(fault, address)),
                }
            },
        }
    }

    fn read_halfword(&self, address: u32) -> (r: Result<u16, Fault>) {
        match map_read(address) {
            None => Err(Fault::Unmapped { address, width: 2 }),
            Some((device, offset)) => {
                let answer = match device {
                    Device::Bios => self.bios.read_halfword(offset),
                    Device::BoardRam => self.board_ram.read_halfword(offset),
                    Device::ChipRam => self.chip_ram.read_halfword(offset),
                    Device::Interrupts => self.interrupts.read_halfword(offset),
                    Device::Misc => self.misc.read_halfword(offset),
                    Device::Palette => self.palette.read_halfword(offset),
                    Device::Vram => self.vram.read_halfword(offset),
                    Device::Oam => self.oam.read_halfword(offset),
                    Device::Rom => self.rom.read_halfword(offset),
                    Device::Sram => self.sram.read_halfword(offset),
                };
                match answer {
                    Ok(value) => Ok(value),
                    Err(fault) => Err(rebase(fault, address)),
                }
            },
        }
    }

    fn read_word(&self, address: u32) -> (r: Result<u32, Fault>) {
        match map_read(address) {
            None => Err(Fault::Unmapped { address, width: 4 }),
            Some((device, offset)) => {
                let answer = match device {
                    Device::Bios => self.bios.read_word(offset),
                    Device::BoardRam => self.board_ram.read_word(offset),
                    Device::ChipRam => self.chip_ram.read_word(offset),
                    Device::Interrupts => self.interrupts.read_word(offset),
                    Device::Misc => self.misc.read_word(offset),
                    Device::Palette => self.palette.read_word(offset),
                    Device::Vram => self.vram.read_word(offset),
                    Device::Oam => self.oam.read_word(offset),
                    Device::Rom => self.rom.read_word(offset),
                    Device::Sram => self.sram.read_word(offset),
                };
                match answer {
                    Ok(value) => Ok(value),
                    Err(fault) => Err(rebase(fault, address)),
                }
            },
        }
    }
}

impl Write for MemoryMap {
    open spec fn store_byte(state: MemoryMapView, address: u32, value: u8) -> Result<
        MemoryMapView,
        Fault,
    > {
        state.store_byte(address, value)
    }

    open spec fn store_halfword(state: MemoryMapView, address: u32, value: u16) -> Result<
        MemoryMapView,
        Fault,
    > {
        state.store_halfword(address, value)
    }

    open spec fn store_word(state: MemoryMapView, address: u32, value: u32) -> Result<
        MemoryMapView,
        Fault,
    > {
        state.store_word(address, value)
    }

    fn write_byte(&mut self, address: u32, value: u8) -> (r: Result<(), Fault>) {
        match map_write(address) {
            None => Err(Fault::Unmapped { address, width: 1 }),
            Some((device, offset)) => {
                let answer = match device {
                    Device::BoardRam => self.board_ram.write_byte(offset, value),
                    Device::ChipRam => self.chip_ram.write_byte(offset, value),
                    Device::Interrupts => self.interrupts.write_byte(offset, value),
                    Device::Misc => self.misc.write_byte(offset, value),
                    Device::Palette => self.palette.write_byte(offset, value),
                    Device::Vram => self.vram.write_byte(offset, value),
                    Device::Oam => self.oam.write_byte(offset, value),
                    Device::Sram => self.sram.write_byte(offset, value),
                    Device::Bios | Device::Rom => Err(Fault::Unmapped { address, width: 1 }),
                };
                match answer {
                    Ok(()) => Ok(()),
                    Err(fault) => Err(rebase(fault, address)),
                }
            },
        }
    }

    fn write_halfword(&mut self, address: u32, value: u16) -> (r: Result<(), Fault>) {
        match map_write(address) {
            None => Err(Fault::Unmapped { address, width: 2 }),
            Some((device, offset)) => {
                let answer = match device {
                    Device::BoardRam => self.board_ram.write_halfword(offset, value),
                    Device::ChipRam => self.chip_ram.write_halfword(offset, value),
                    Device::Interrupts => self.interrupts.write_halfword(offset, value),
                    Device::Misc => self.misc.write_halfword(offset, value),
                    Device::Palette => self.palette.write_halfword(offset, value),
                    Device::Vram => self.vram.write_halfword(offset, value),
                    Device::Oam => self.oam.write_halfword(offset, value),
                    Device::Sram => self.sram.write_halfword(offset, value),
                    Device::Bios | Device::Rom => Err(Fault::Unmapped { address, width: 2 }),
                };
                match answer {
                    Ok(()) => Ok(()),
                    Err(fault) => Err(rebase(fault, address)),
                }
            },
        }
    }

    fn write_word(&mut self, address: u32, value: u32) -> (r: Result<(), Fault>) {
        match map_write(address) {
            None => Err(Fault::Unmapped { address, width: 4 }),
            Some((device, offset)) => {
                let answer = match device {
                    Device::BoardRam => self.board_ram.write_word(offset, value),
                    Device::ChipRam => self.chip_ram.write_word(offset, value),
                    Device::Interrupts => self.interrupts.write_word(offset, value),
                    Device::Misc => self.misc.write_word(offset, value),
                    Device::Palette => self.palette.write_word(offset, value),
                    Device::Vram => self.vram.write_word(offset, value),
                    Device::Oam => self.oam.write_word(offset, value),
                    Device::Sram => self.sram.write_word(offset, value),
                    Device::Bios | Device::Rom => Err(Fault::Unmapped { address, width: 4 }),
                };
                match answer {
                    Ok(()) => Ok(()),
                    Err(fault) => Err(rebase(fault, address)),
                }
            },
        }
    }
}

} // verus!
