use arm7tdmi::bus::{Fault, Read, Write};
use arm7tdmi::interrupt_controller::{Input, InterruptController};
use arm7tdmi::irq_input::IrqInput;
use arm7tdmi::memory::Memory;
use arm7tdmi::memory_map::{map_read, map_write, Device, MemoryMap, MiscRegisters};
use arm7tdmi::rom::Rom;

fn unmapped(address: u32, width: u8) -> Fault {
    Fault::Unmapped { address, width }
}

#[test]
fn memory_is_little_endian() {
    let mut memory = Memory::with_size(16);
    assert_eq!(memory.write_word(4, 0x1122_3344), Ok(()));
    assert_eq!(memory.read_byte(4), Ok(0x44));
    assert_eq!(memory.read_byte(5), Ok(0x33));
    assert_eq!(memory.read_byte(6), Ok(0x22));
    assert_eq!(memory.read_byte(7), Ok(0x11));
    assert_eq!(memory.read_halfword(4), Ok(0x3344));
    assert_eq!(memory.read_halfword(6), Ok(0x1122));
    assert_eq!(memory.read_word(4), Ok(0x1122_3344));
    assert_eq!(memory.read_word(5), Ok(0x0011_2233));
    assert_eq!(memory.write_halfword(0, 0xABCD), Ok(()));
    assert_eq!(memory.read_byte(0), Ok(0xCD));
    assert_eq!(memory.read_byte(1), Ok(0xAB));
    assert_eq!(memory.write_byte(15, 0x7F), Ok(()));
    assert_eq!(memory.read_byte(15), Ok(0x7F));
    assert_eq!(memory.read_word(12), Ok(0x7F00_0000));
}

#[test]
fn memory_refuses_what_lies_past_its_end() {
    let mut memory = Memory::with_size(16);
    assert_eq!(memory.read_byte(16), Err(unmapped(16, 1)));
    assert_eq!(memory.read_halfword(15), Err(unmapped(15, 2)));
    assert_eq!(memory.read_word(13), Err(unmapped(13, 4)));
    assert_eq!(memory.read_word(0xFFFF_FFFF), Err(unmapped(0xFFFF_FFFF, 4)));
    assert_eq!(memory.write_byte(16, 1), Err(unmapped(16, 1)));
    assert_eq!(memory.write_halfword(15, 1), Err(unmapped(15, 2)));
    assert_eq!(memory.write_word(13, 0xFFFF_FFFF), Err(unmapped(13, 4)));
    assert_eq!(memory.read_word(12), Ok(0));
}

#[test]
fn memory_new_has_256_mib_of_zeros() {
    let mut memory = Memory::new();
    assert_eq!(memory.read_word(0), Ok(0));
    assert_eq!(memory.read_word(0x0FFF_FFFC), Ok(0));
    assert_eq!(memory.read_byte(0x1000_0000), Err(unmapped(0x1000_0000, 1)));
    assert_eq!(memory.write_word(0x0FFF_FFFC, 0xDEAD_BEEF), Ok(()));
    assert_eq!(memory.read_halfword(0x0FFF_FFFE), Ok(0xDEAD));
}

#[test]
fn rom_reads_little_endian_values() {
    let rom = Rom::new(vec![0x44, 0x33, 0x22, 0x11, 0xEF, 0xBE, 0xAD, 0xDE]);
    assert_eq!(rom.len(), 8);
    assert_eq!(rom.read_byte(1), Ok(0x33));
    assert_eq!(rom.read_halfword(0), Ok(0x3344));
    assert_eq!(rom.read_halfword(1), Ok(0x2233));
    assert_eq!(rom.read_halfword(6), Ok(0xDEAD));
    assert_eq!(rom.read_word(0), Ok(0x1122_3344));
    assert_eq!(rom.read_word(4), Ok(0xDEAD_BEEF));
    assert_eq!(rom.read_word(2), Ok(0xBEEF_1122));
    assert_eq!(rom.read_byte(8), Err(unmapped(8, 1)));
    assert_eq!(rom.read_halfword(7), Err(unmapped(7, 2)));
    assert_eq!(rom.read_word(5), Err(unmapped(5, 4)));
}

#[test]
fn irq_input_is_a_latch() {
    let mut line = IrqInput::new();
    assert!(!line.is_asserted());
    line.assert_line();
    assert!(line.is_asserted());
    line.reset();
    assert!(!line.is_asserted());
}

#[test]
fn interrupt_inputs_have_their_bits() {
    let inputs = [
        Input::VBlank,
        Input::HBlank,
        Input::VCounter,
        Input::Timer0,
        Input::Timer1,
        Input::Timer2,
        Input::Timer3,
        Input::Serial,
        Input::Dma0,
        Input::Dma1,
        Input::Dma2,
        Input::Dma3,
        Input::Key,
        Input::GamePak,
    ];
    for (bit, input) in inputs.iter().enumerate() {
        assert_eq!(input.bit() as usize, bit);
    }
}

#[test]
fn interrupt_controller_raises_the_line_for_enabled_inputs_only() {
    let mut controller = InterruptController::new();
    assert!(!controller.is_asserted());
    assert_eq!(controller.read_halfword(0x200), Ok(0));
    assert_eq!(controller.read_halfword(0x202), Ok(0));
    assert_eq!(controller.read_halfword(0x208), Ok(0));
    controller.assert_input(Input::VBlank);
    assert!(!controller.is_asserted());
    assert_eq!(controller.read_halfword(0x202), Ok(0));
    assert_eq!(controller.write_halfword(0x200, 0b1001), Ok(()));
    controller.assert_input(Input::HBlank);
    assert!(!controller.is_asserted());
    controller.assert_input(Input::Timer0);
    assert!(controller.is_asserted());
    assert_eq!(controller.read_halfword(0x202), Ok(0b1000));
    controller.reset();
    assert!(!controller.is_asserted());
    assert_eq!(controller.read_halfword(0x202), Ok(0b1000));
}

#[test]
fn interrupt_controller_registers() {
    let mut controller = InterruptController::new();
    assert_eq!(controller.write_halfword(0x200, 0xFFFF), Ok(()));
    assert_eq!(controller.read_halfword(0x200), Ok(0x3FFF));
    controller.assert_input(Input::VBlank);
    controller.assert_input(Input::GamePak);
    assert_eq!(controller.read_halfword(0x202), Ok(0x2001));
    // Writing a one to a flag clears it.
    assert_eq!(controller.write_halfword(0x202, 0x0001), Ok(()));
    assert_eq!(controller.read_halfword(0x202), Ok(0x2000));
    assert_eq!(controller.write_halfword(0x202, 0xFFFF), Ok(()));
    assert_eq!(controller.read_halfword(0x202), Ok(0));
    assert_eq!(controller.write_halfword(0x208, 1), Ok(()));
    assert_eq!(controller.read_halfword(0x208), Ok(1));
    assert_eq!(controller.write_halfword(0x208, 0), Ok(()));
    assert_eq!(controller.read_halfword(0x208), Ok(0));
    assert_eq!(controller.write_halfword(0x208, 2), Err(Fault::NonBoolean { address: 0x208 }));
    assert_eq!(controller.read_halfword(0x208), Ok(0));
    assert_eq!(controller.read_halfword(0x204), Err(unmapped(0x204, 2)));
    assert_eq!(controller.write_halfword(0x204, 0), Err(unmapped(0x204, 2)));
    assert_eq!(controller.read_byte(0x200), Err(unmapped(0x200, 1)));
    assert_eq!(controller.read_word(0x200), Err(unmapped(0x200, 4)));
    assert_eq!(controller.write_byte(0x200, 0), Err(unmapped(0x200, 1)));
    assert_eq!(controller.write_word(0x200, 0), Err(unmapped(0x200, 4)));
}

#[test]
fn misc_registers() {
    let mut misc = MiscRegisters::new();
    assert_eq!(misc, MiscRegisters { postflg: false, haltcnt: false, memcnt: 0 });
    assert_eq!(misc.write_byte(0x300, 1), Ok(()));
    assert_eq!(misc.write_halfword(0x301, 1), Ok(()));
    assert_eq!(misc.read_byte(0x300), Ok(1));
    assert_eq!(misc.read_halfword(0x301), Ok(1));
    assert_eq!(misc.read_word(0x300), Ok(1));
    assert_eq!(misc.write_word(0x300, 0), Ok(()));
    assert_eq!(misc.read_byte(0x300), Ok(0));
    assert_eq!(misc.write_byte(0x300, 2), Err(Fault::NonBoolean { address: 0x300 }));
    assert_eq!(misc.write_halfword(0x301, 0x100), Err(Fault::NonBoolean { address: 0x301 }));
    assert_eq!(misc.write_word(0x301, 0xFFFF_FFFF), Err(Fault::NonBoolean { address: 0x301 }));
    assert!(misc.haltcnt);
    assert_eq!(misc.write_word(0x800, 0x1122_3344), Ok(()));
    assert_eq!(misc.read_word(0x800), Ok(0x1122_3344));
    assert_eq!(misc.read_halfword(0x800), Ok(0x3344));
    assert_eq!(misc.read_halfword(0x802), Ok(0x1122));
    assert_eq!(misc.read_byte(0x800), Ok(0x44));
    assert_eq!(misc.read_byte(0x801), Ok(0x33));
    assert_eq!(misc.read_byte(0x802), Ok(0x22));
    assert_eq!(misc.read_byte(0x803), Ok(0x11));
    assert_eq!(misc.write_byte(0x801, 0xAA), Ok(()));
    assert_eq!(misc.memcnt, 0x1122_AA44);
    assert_eq!(misc.write_byte(0x803, 0xBB), Ok(()));
    assert_eq!(misc.memcnt, 0xBB22_AA44);
    assert_eq!(misc.write_halfword(0x802, 0xCCDD), Ok(()));
    assert_eq!(misc.memcnt, 0xCCDD_AA44);
    assert_eq!(misc.write_halfword(0x800, 0xEEFF), Ok(()));
    assert_eq!(misc.memcnt, 0xCCDD_EEFF);
    assert_eq!(misc.read_byte(0x302), Err(unmapped(0x302, 1)));
    assert_eq!(misc.read_halfword(0x801), Err(unmapped(0x801, 2)));
    assert_eq!(misc.read_word(0x802), Err(unmapped(0x802, 4)));
    assert_eq!(misc.write_byte(0x804, 0), Err(unmapped(0x804, 1)));
    assert_eq!(misc.write_halfword(0x801, 0), Err(unmapped(0x801, 2)));
    assert_eq!(misc.write_word(0x804, 0), Err(unmapped(0x804, 4)));
}

#[test]
fn regions_of_the_address_space() {
    assert_eq!(map_read(0), Some((Device::Bios, 0)));
    assert_eq!(map_read(0x3FFF), Some((Device::Bios, 0x3FFF)));
    assert_eq!(map_read(0x4000), None);
    assert_eq!(map_read(0x0200_0000), Some((Device::BoardRam, 0)));
    assert_eq!(map_read(0x0203_FFFF), Some((Device::BoardRam, 0x3_FFFF)));
    assert_eq!(map_read(0x0204_0000), None);
    assert_eq!(map_read(0x0300_7FFF), Some((Device::ChipRam, 0x7FFF)));
    assert_eq!(map_read(0x0300_8000), None);
    assert_eq!(map_read(0x0400_0000), None);
    assert_eq!(map_read(0x0400_0200), Some((Device::Interrupts, 0x200)));
    assert_eq!(map_read(0x0400_0209), Some((Device::Interrupts, 0x209)));
    assert_eq!(map_read(0x0400_0300), Some((Device::Misc, 0x300)));
    assert_eq!(map_read(0x0400_0803), Some((Device::Misc, 0x803)));
    assert_eq!(map_read(0x0400_0804), None);
    assert_eq!(map_read(0x0500_0000), Some((Device::Palette, 0)));
    assert_eq!(map_read(0x0500_03FF), Some((Device::Palette, 0x3FF)));
    assert_eq!(map_read(0x0500_0400), None);
    assert_eq!(map_read(0x0600_0000), Some((Device::Vram, 0)));
    assert_eq!(map_read(0x0601_7FFF), Some((Device::Vram, 0x1_7FFF)));
    assert_eq!(map_read(0x0601_8000), None);
    assert_eq!(map_read(0x0700_03FF), Some((Device::Oam, 0x3FF)));
    assert_eq!(map_read(0x0700_0400), None);
    assert_eq!(map_read(0x07FF_FFFF), None);
    assert_eq!(map_read(0x0800_0000), Some((Device::Rom, 0)));
    assert_eq!(map_read(0x0A00_0004), Some((Device::Rom, 4)));
    assert_eq!(map_read(0x0C00_0008), Some((Device::Rom, 8)));
    assert_eq!(map_read(0x0DFF_FFFF), Some((Device::Rom, 0xFF_FFFF)));
    assert_eq!(map_read(0x0E00_0000), Some((Device::Sram, 0)));
    assert_eq!(map_read(0x0E00_FFFF), Some((Device::Sram, 0xFFFF)));
    assert_eq!(map_read(0x0E01_0000), None);
    assert_eq!(map_read(0xFFFF_FFFF), None);
    assert_eq!(map_write(0), None);
    assert_eq!(map_write(0x0800_0000), None);
    assert_eq!(map_write(0x0200_0010), Some((Device::BoardRam, 0x10)));
    assert_eq!(map_write(0x0300_0010), Some((Device::ChipRam, 0x10)));
    assert_eq!(map_write(0x0400_0208), Some((Device::Interrupts, 0x208)));
    assert_eq!(map_write(0x0400_0800), Some((Device::Misc, 0x800)));
    assert_eq!(map_write(0x0500_0002), Some((Device::Palette, 2)));
    assert_eq!(map_write(0x0600_0004), Some((Device::Vram, 4)));
    assert_eq!(map_write(0x0700_0006), Some((Device::Oam, 6)));
    assert_eq!(map_write(0x0E00_0008), Some((Device::Sram, 8)));
    assert_eq!(map_write(0x0400_0000), None);
    assert_eq!(map_write(0x0100_0000), None);
}

fn address_space() -> MemoryMap {
    let bios = Rom::new(vec![0x01, 0x02, 0x03, 0x04]);
    let rom = Rom::new(vec![0x11, 0x12, 0x13, 0x14, 0x15, 0x16]);
    MemoryMap::new(bios, rom, InterruptController::new())
}

#[test]
fn address_space_reads_and_writes_its_devices() {
    let mut memory = address_space();
    assert_eq!(memory.read_word(0), Ok(0x0403_0201));
    assert_eq!(memory.read_halfword(0x0800_0004), Ok(0x1615));
    assert_eq!(memory.read_byte(0x0A00_0001), Ok(0x12));
    assert_eq!(memory.read_word(0x0C00_0000), Ok(0x1413_1211));
    assert_eq!(memory.read_word(0x0200_0000), Ok(0));
    assert_eq!(memory.write_word(0x0200_0000, 0xCAFE_F00D), Ok(()));
    assert_eq!(memory.read_word(0x0200_0000), Ok(0xCAFE_F00D));
    assert_eq!(memory.write_byte(0x0203_FFFF, 0x99), Ok(()));
    assert_eq!(memory.read_byte(0x0203_FFFF), Ok(0x99));
    assert_eq!(memory.write_halfword(0x0300_7FFE, 0xBEEF), Ok(()));
    assert_eq!(memory.read_halfword(0x0300_7FFE), Ok(0xBEEF));
    assert_eq!(memory.read_word(0x0300_0000), Ok(0));
    assert_eq!(memory.write_halfword(0x0400_0200, 0x0001), Ok(()));
    assert_eq!(memory.read_halfword(0x0400_0200), Ok(0x0001));
    memory.interrupts.assert_input(Input::VBlank);
    assert_eq!(memory.read_halfword(0x0400_0202), Ok(0x0001));
    assert!(memory.interrupts.is_asserted());
    assert_eq!(memory.write_word(0x0400_0800, 0x0D00_0020), Ok(()));
    assert_eq!(memory.read_byte(0x0400_0803), Ok(0x0D));
    assert_eq!(memory.misc.memcnt, 0x0D00_0020);
    assert_eq!(memory.write_halfword(0x0500_03FE, 0x7FFF), Ok(()));
    assert_eq!(memory.read_halfword(0x0500_03FE), Ok(0x7FFF));
    assert_eq!(memory.write_word(0x0601_7FFC, 0x0102_0304), Ok(()));
    assert_eq!(memory.read_word(0x0601_7FFC), Ok(0x0102_0304));
    assert_eq!(memory.write_byte(0x0700_0000, 0xAB), Ok(()));
    assert_eq!(memory.read_byte(0x0700_0000), Ok(0xAB));
    assert_eq!(memory.write_byte(0x0E00_FFFF, 0xCD), Ok(()));
    assert_eq!(memory.read_byte(0x0E00_FFFF), Ok(0xCD));
    assert_eq!(memory.read_word(0x0500_0000), Ok(0));
}

#[test]
fn address_space_faults_name_the_bus_address() {
    let mut memory = address_space();
    assert_eq!(memory.read_word(4), Err(unmapped(4, 4)));
    assert_eq!(memory.read_word(0x4000), Err(unmapped(0x4000, 4)));
    assert_eq!(memory.read_byte(0x0800_0006), Err(unmapped(0x0800_0006, 1)));
    assert_eq!(memory.read_halfword(0x0203_FFFF), Err(unmapped(0x0203_FFFF, 2)));
    assert_eq!(memory.read_word(0x0400_0200), Err(unmapped(0x0400_0200, 4)));
    assert_eq!(memory.read_halfword(0x0400_0204), Err(unmapped(0x0400_0204, 2)));
    assert_eq!(memory.write_word(0, 0), Err(unmapped(0, 4)));
    assert_eq!(memory.write_byte(0x0800_0000, 0), Err(unmapped(0x0800_0000, 1)));
    assert_eq!(memory.write_halfword(0x0400_0000, 0), Err(unmapped(0x0400_0000, 2)));
    assert_eq!(memory.read_halfword(0x0400_0130), Err(unmapped(0x0400_0130, 2)));
    assert_eq!(memory.write_halfword(0x0500_03FF, 0), Err(unmapped(0x0500_03FF, 2)));
    assert_eq!(memory.read_word(0x0E00_FFFE), Err(unmapped(0x0E00_FFFE, 4)));
    assert_eq!(memory.write_word(0x0203_FFFE, 0), Err(unmapped(0x0203_FFFE, 4)));
    assert_eq!(
        memory.write_halfword(0x0400_0208, 2),
        Err(Fault::NonBoolean { address: 0x0400_0208 })
    );
    assert_eq!(memory.write_byte(0x0400_0300, 5), Err(Fault::NonBoolean { address: 0x0400_0300 }));
    assert_eq!(memory.read_word(0), Ok(0x0403_0201));
}
