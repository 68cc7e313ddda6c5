use arm7tdmi::bus::{Fault, Read, Write};
use arm7tdmi::cpu::{Cpu, Mode, Register, LR, PC, SP};
use arm7tdmi::execute::{
    addr_mode_1, addr_mode_2, addr_mode_3, alu, borrow_from, carry_from, condition_passed,
    exception, execute, flags, listed, overflow_from_add, overflow_from_sub, set_flags,
    sign_extend, Access, ExecuteError, Flags, Operation,
};
use arm7tdmi::instruction::{
    AddressMode1, AddressMode2, AddressMode3, AddressingMode, AddressingOffset, BlockTransfer,
    Condition, Instruction, ShiftDirection,
};
use arm7tdmi::interrupt_controller::InterruptController;
use arm7tdmi::memory_map::MemoryMap;
use arm7tdmi::rom::Rom;

const AL: Condition = Condition::Al;
const RAM: u32 = 0x0200_0000;
const NO_FLAGS: Flags = Flags { n: false, z: false, c: false, v: false };

fn machine() -> Cpu {
    Cpu::new(MemoryMap::new(
        Rom::new(vec![0; 0x4000]),
        Rom::new(Vec::new()),
        InterruptController::new(),
    ))
}

fn machine_in(mode: Mode) -> Cpu {
    let mut cpu = machine();
    cpu.cpsr.set_mode(mode);
    cpu.registers.set_mode(mode);
    cpu
}

fn register(index: u32) -> AddressMode1 {
    AddressMode1::Shift {
        rm: Register(index),
        shift: ShiftDirection::Lsl,
        shift_imm: AddressingOffset::Immediate(0),
    }
}

fn shifted(shift: ShiftDirection, amount: u16) -> AddressMode1 {
    AddressMode1::Shift { rm: Register(1), shift, shift_imm: AddressingOffset::Immediate(amount) }
}

fn shifted_by_register(shift: ShiftDirection) -> AddressMode1 {
    AddressMode1::Shift {
        rm: Register(1),
        shift,
        shift_imm: AddressingOffset::Register(Register(2)),
    }
}

#[test]
fn conditions_follow_the_flags() {
    let all = [
        Condition::Eq,
        Condition::Ne,
        Condition::Cs,
        Condition::Cc,
        Condition::Mi,
        Condition::Pl,
        Condition::Vs,
        Condition::Vc,
        Condition::Hi,
        Condition::Ls,
        Condition::Ge,
        Condition::Lt,
        Condition::Gt,
        Condition::Le,
        Condition::Al,
        Condition::Nv,
    ];
    for bits in 0..16u32 {
        let (n, z, c, v) = (bits & 8 != 0, bits & 4 != 0, bits & 2 != 0, bits & 1 != 0);
        let mut cpu = machine();
        set_flags(&mut cpu.cpsr, Flags { n, z, c, v });
        assert_eq!(cpu.cpsr.to_bits(), (bits << 28) | 0x1F);
        assert_eq!(flags(&cpu.cpsr), Flags { n, z, c, v });
        let expected = [
            z,
            !z,
            c,
            !c,
            n,
            !n,
            v,
            !v,
            c && !z,
            !c || z,
            n == v,
            n != v,
            !z && n == v,
            z || n != v,
            true,
            false,
        ];
        for (condition, passes) in all.iter().zip(expected) {
            assert_eq!(condition_passed(&cpu, *condition), passes);
        }
    }
}

#[test]
fn a_failed_condition_skips_the_instruction() {
    for condition in [Condition::Eq, Condition::Nv] {
        let mut cpu = machine();
        let inst = Instruction::Mov {
            condition,
            s: true,
            rd: Register(0),
            operand2: AddressMode1::Immediate { value: 1, rotate: 0 },
        };
        assert_eq!(execute(&mut cpu, inst), Ok(()));
        assert_eq!(cpu.registers.read(Register(0)), 0);
        assert_eq!(cpu.cpsr.to_bits(), 0x1F);
    }
}

#[test]
fn arithmetic_flag_helpers() {
    assert!(carry_from(0x1_0000_0000));
    assert!(carry_from(0x1_FFFF_FFFE));
    assert!(!carry_from(0xFFFF_FFFF));
    assert!(borrow_from(0, 1));
    assert!(!borrow_from(1, 1));
    assert!(!borrow_from(2, 1));
    assert!(overflow_from_add(0x7FFF_FFFF, 1, 0x8000_0000));
    assert!(overflow_from_add(0x8000_0000, 0x8000_0000, 0));
    assert!(!overflow_from_add(1, 0xFFFF_FFFF, 0));
    assert!(overflow_from_sub(0x8000_0000, 1, 0x7FFF_FFFF));
    assert!(overflow_from_sub(0x7FFF_FFFF, 0xFFFF_FFFF, 0x8000_0000));
    assert!(!overflow_from_sub(0, 1, 0xFFFF_FFFF));
    assert_eq!(sign_extend(0x80_0000, 24), 0xFF80_0000);
    assert_eq!(sign_extend(0x7F_FFFF, 24), 0x007F_FFFF);
    assert_eq!(sign_extend(0xFF_FFFE, 24), 0xFFFF_FFFE);
    assert_eq!(sign_extend(0x80, 8), 0xFFFF_FF80);
    assert_eq!(sign_extend(0xFFFF_FFFF, 32), 0xFFFF_FFFF);
    assert_eq!(sign_extend(1, 1), 0xFFFF_FFFF);
}

#[test]
fn alu_bitwise_operations() {
    let old = Flags { n: false, z: false, c: false, v: true };
    let a = 0xF0F0_00FF;
    let b = 0x0FF0_0F0F;
    let after = |result: u32, c: bool| {
        (result, Flags { n: result >> 31 == 1, z: result == 0, c, v: true })
    };
    assert_eq!(alu(Operation::And, a, b, true, old), after(0x00F0_000F, true));
    assert_eq!(alu(Operation::Tst, a, b, false, old), after(0x00F0_000F, false));
    assert_eq!(alu(Operation::Eor, a, b, true, old), after(0xFF00_0FF0, true));
    assert_eq!(alu(Operation::Teq, a, a, false, old), after(0, false));
    assert_eq!(alu(Operation::Orr, a, b, false, old), after(0xFFF0_0FFF, false));
    assert_eq!(alu(Operation::Bic, a, b, false, old), after(0xF000_00F0, false));
    assert_eq!(alu(Operation::Mov, a, b, true, old), after(b, true));
    assert_eq!(alu(Operation::Mvn, a, b, false, old), after(0xF00F_F0F0, false));
}

#[test]
fn alu_additions() {
    let carry = Flags { c: true, ..NO_FLAGS };
    assert_eq!(
        alu(Operation::Add, 0x7FFF_FFFF, 1, false, carry),
        (0x8000_0000, Flags { n: true, z: false, c: false, v: true })
    );
    assert_eq!(
        alu(Operation::Add, 0x8000_0000, 0x8000_0000, false, NO_FLAGS),
        (0, Flags { n: false, z: true, c: true, v: true })
    );
    assert_eq!(
        alu(Operation::Cmn, 2, 3, true, NO_FLAGS),
        (5, Flags { n: false, z: false, c: false, v: false })
    );
    assert_eq!(alu(Operation::Adc, 2, 3, false, carry), (6, NO_FLAGS));
    assert_eq!(alu(Operation::Adc, 2, 3, false, NO_FLAGS), (5, NO_FLAGS));
    assert_eq!(
        alu(Operation::Adc, 0xFFFF_FFFF, 0xFFFF_FFFF, false, carry),
        (0xFFFF_FFFF, Flags { n: true, z: false, c: true, v: false })
    );
    assert_eq!(
        alu(Operation::Adc, 0xFFFF_FFFF, 0, false, carry),
        (0, Flags { n: false, z: true, c: true, v: false })
    );
}

#[test]
fn alu_subtractions() {
    let carry = Flags { c: true, ..NO_FLAGS };
    assert_eq!(
        alu(Operation::Sub, 5, 5, false, NO_FLAGS),
        (0, Flags { n: false, z: true, c: true, v: false })
    );
    assert_eq!(
        alu(Operation::Cmp, 5, 6, false, NO_FLAGS),
        (0xFFFF_FFFF, Flags { n: true, z: false, c: false, v: false })
    );
    assert_eq!(
        alu(Operation::Cmp, 0x8000_0000, 1, false, NO_FLAGS),
        (0x7FFF_FFFF, Flags { n: false, z: false, c: true, v: true })
    );
    assert_eq!(
        alu(Operation::Rsb, 1, 10, false, NO_FLAGS),
        (9, Flags { n: false, z: false, c: true, v: false })
    );
    // With the carry flag set nothing more is subtracted; with it clear, one.
    assert_eq!(alu(Operation::Sbc, 10, 3, false, carry), (7, carry));
    assert_eq!(alu(Operation::Sbc, 10, 3, false, NO_FLAGS), (6, carry));
    assert_eq!(
        alu(Operation::Sbc, 3, 3, false, NO_FLAGS),
        (0xFFFF_FFFF, Flags { n: true, z: false, c: false, v: false })
    );
    assert_eq!(
        alu(Operation::Sbc, 0, 0xFFFF_FFFF, false, NO_FLAGS),
        (0, Flags { n: false, z: true, c: false, v: false })
    );
    assert_eq!(alu(Operation::Rsc, 3, 10, false, carry), (7, carry));
    assert_eq!(alu(Operation::Rsc, 3, 10, false, NO_FLAGS), (6, carry));
    assert_eq!(
        alu(Operation::Sub, 0x7FFF_FFFF, 0xFFFF_FFFF, false, NO_FLAGS),
        (0x8000_0000, Flags { n: true, z: false, c: false, v: true })
    );
}

#[test]
fn shifter_immediate_operands() {
    let mut cpu = machine();
    let immediate = |value, rotate| AddressMode1::Immediate { value, rotate };
    assert_eq!(addr_mode_1(&cpu, immediate(0xFF, 0)), (0xFF, false));
    cpu.cpsr.set_c(true);
    assert_eq!(addr_mode_1(&cpu, immediate(0xFF, 0)), (0xFF, true));
    assert_eq!(addr_mode_1(&cpu, immediate(0xFF, 4)), (0xFF00_0000, true));
    assert_eq!(addr_mode_1(&cpu, immediate(0x01, 1)), (0x4000_0000, false));
    assert_eq!(addr_mode_1(&cpu, immediate(0x3F, 15)), (0xFC, false));
    assert_eq!(addr_mode_1(&cpu, immediate(0x81, 1)), (0x4000_0020, false));
    assert_eq!(addr_mode_1(&cpu, immediate(0x02, 1)), (0x8000_0000, true));
}

#[test]
fn shifter_shifts_by_immediate() {
    let mut cpu = machine();
    cpu.registers.write(Register(1), 0x8000_0003);
    cpu.cpsr.set_c(true);
    assert_eq!(addr_mode_1(&cpu, shifted(ShiftDirection::Lsl, 0)), (0x8000_0003, true));
    assert_eq!(addr_mode_1(&cpu, shifted(ShiftDirection::Lsl, 1)), (6, true));
    assert_eq!(addr_mode_1(&cpu, shifted(ShiftDirection::Lsl, 2)), (12, false));
    assert_eq!(addr_mode_1(&cpu, shifted(ShiftDirection::Lsl, 31)), (0x8000_0000, true));
    // A shift right by zero stands for one by 32.
    assert_eq!(addr_mode_1(&cpu, shifted(ShiftDirection::Lsr, 0)), (0, true));
    assert_eq!(addr_mode_1(&cpu, shifted(ShiftDirection::Lsr, 1)), (0x4000_0001, true));
    assert_eq!(addr_mode_1(&cpu, shifted(ShiftDirection::Lsr, 3)), (0x1000_0000, false));
    assert_eq!(addr_mode_1(&cpu, shifted(ShiftDirection::Lsr, 31)), (1, false));
    assert_eq!(addr_mode_1(&cpu, shifted(ShiftDirection::Asr, 0)), (0xFFFF_FFFF, true));
    assert_eq!(addr_mode_1(&cpu, shifted(ShiftDirection::Asr, 1)), (0xC000_0001, true));
    assert_eq!(addr_mode_1(&cpu, shifted(ShiftDirection::Asr, 4)), (0xF800_0000, false));
    assert_eq!(addr_mode_1(&cpu, shifted(ShiftDirection::Asr, 31)), (0xFFFF_FFFF, false));
    assert_eq!(addr_mode_1(&cpu, shifted(ShiftDirection::Ror, 1)), (0xC000_0001, true));
    assert_eq!(addr_mode_1(&cpu, shifted(ShiftDirection::Ror, 4)), (0x3800_0000, false));
    // A rotation by zero stands for the rotation through carry.
    assert_eq!(addr_mode_1(&cpu, shifted(ShiftDirection::Ror, 0)), (0xC000_0001, true));
    assert_eq!(addr_mode_1(&cpu, shifted(ShiftDirection::Rrx, 0)), (0xC000_0001, true));
    cpu.cpsr.set_c(false);
    assert_eq!(addr_mode_1(&cpu, shifted(ShiftDirection::Rrx, 0)), (0x4000_0001, true));
    cpu.registers.write(Register(1), 0x7FFF_FFFE);
    assert_eq!(addr_mode_1(&cpu, shifted(ShiftDirection::Rrx, 0)), (0x3FFF_FFFF, false));
    assert_eq!(addr_mode_1(&cpu, shifted(ShiftDirection::Asr, 0)), (0, false));
    assert_eq!(addr_mode_1(&cpu, shifted(ShiftDirection::Asr, 4)), (0x07FF_FFFF, true));
    assert_eq!(addr_mode_1(&cpu, shifted(ShiftDirection::Lsr, 0)), (0, false));
    assert_eq!(addr_mode_1(&cpu, shifted(ShiftDirection::Lsl, 0)), (0x7FFF_FFFE, false));
}

#[test]
fn shifter_shifts_by_register() {
    let mut cpu = machine();
    cpu.registers.write(Register(1), 0x8000_0003);
    cpu.cpsr.set_c(true);
    let mut by = |amount: u32, shift: ShiftDirection| {
        cpu.registers.write(Register(2), amount);
        addr_mode_1(&cpu, shifted_by_register(shift))
    };
    let shifts =
        [ShiftDirection::Lsl, ShiftDirection::Lsr, ShiftDirection::Asr, ShiftDirection::Ror];
    for shift in shifts {
        assert_eq!(by(0, shift), (0x8000_0003, true));
        // Only the low byte of the register counts.
        assert_eq!(by(0xFFFF_FF00, shift), (0x8000_0003, true));
    }
    assert_eq!(by(1, ShiftDirection::Lsl), (6, true));
    assert_eq!(by(31, ShiftDirection::Lsl), (0x8000_0000, true));
    assert_eq!(by(32, ShiftDirection::Lsl), (0, true));
    assert_eq!(by(33, ShiftDirection::Lsl), (0, false));
    assert_eq!(by(255, ShiftDirection::Lsl), (0, false));
    assert_eq!(by(1, ShiftDirection::Lsr), (0x4000_0001, true));
    assert_eq!(by(2, ShiftDirection::Lsr), (0x2000_0000, true));
    assert_eq!(by(32, ShiftDirection::Lsr), (0, true));
    assert_eq!(by(33, ShiftDirection::Lsr), (0, false));
    assert_eq!(by(4, ShiftDirection::Asr), (0xF800_0000, false));
    assert_eq!(by(32, ShiftDirection::Asr), (0xFFFF_FFFF, true));
    assert_eq!(by(200, ShiftDirection::Asr), (0xFFFF_FFFF, true));
    assert_eq!(by(4, ShiftDirection::Ror), (0x3800_0000, false));
    assert_eq!(by(32, ShiftDirection::Ror), (0x8000_0003, true));
    assert_eq!(by(36, ShiftDirection::Ror), (0x3800_0000, false));
    assert_eq!(by(64, ShiftDirection::Ror), (0x8000_0003, true));
    assert_eq!(by(0x124, ShiftDirection::Ror), (0x3800_0000, false));
}

#[test]
fn addresses_of_word_transfers() {
    let mut cpu = machine();
    cpu.registers.write(Register(1), 0x1000);
    cpu.registers.write(Register(2), 0x8000_0010);
    let address = |offset, addressing, u| AddressMode2 { rn: Register(1), offset, addressing, u };
    let immediate = AddressingOffset::Immediate(0x10);
    assert_eq!(
        addr_mode_2(&cpu, address(immediate, AddressingMode::Offset, true)),
        Access { address: 0x1010, writeback: None }
    );
    assert_eq!(
        addr_mode_2(&cpu, address(immediate, AddressingMode::Offset, false)),
        Access { address: 0x0FF0, writeback: None }
    );
    assert_eq!(
        addr_mode_2(&cpu, address(immediate, AddressingMode::PreIndexed, true)),
        Access { address: 0x1010, writeback: Some(0x1010) }
    );
    assert_eq!(
        addr_mode_2(&cpu, address(immediate, AddressingMode::PostIndexed, false)),
        Access { address: 0x1000, writeback: Some(0x0FF0) }
    );
    let by_register = AddressingOffset::Register(Register(2));
    assert_eq!(
        addr_mode_2(&cpu, address(by_register, AddressingMode::Offset, true)).address,
        0x8000_1010
    );
    assert_eq!(
        addr_mode_2(&cpu, address(by_register, AddressingMode::Offset, false)).address,
        0x8000_0FF0
    );
    let scaled = |shift, shift_imm| AddressingOffset::ScaledRegister {
        rm: Register(2),
        shift,
        shift_imm,
    };
    let at = |cpu: &Cpu, offset| {
        addr_mode_2(cpu, address(offset, AddressingMode::Offset, true)).address
    };
    assert_eq!(at(&cpu, scaled(ShiftDirection::Lsl, 0)), 0x8000_1010);
    assert_eq!(at(&cpu, scaled(ShiftDirection::Lsl, 4)), 0x1100);
    assert_eq!(at(&cpu, scaled(ShiftDirection::Lsr, 4)), 0x0800_1001);
    assert_eq!(at(&cpu, scaled(ShiftDirection::Lsr, 0)), 0x1000);
    assert_eq!(at(&cpu, scaled(ShiftDirection::Asr, 4)), 0xF800_1001);
    assert_eq!(at(&cpu, scaled(ShiftDirection::Asr, 0)), 0x0FFF);
    assert_eq!(at(&cpu, scaled(ShiftDirection::Ror, 4)), 0x0800_1001);
    assert_eq!(at(&cpu, scaled(ShiftDirection::Rrx, 0)), 0x4000_1008);
    cpu.cpsr.set_c(true);
    assert_eq!(at(&cpu, scaled(ShiftDirection::Rrx, 0)), 0xC000_1008);
}

#[test]
fn addresses_of_halfword_transfers() {
    let mut cpu = machine();
    cpu.registers.write(Register(1), 0x1000);
    cpu.registers.write(Register(2), 0x20);
    let address = |offset, addressing, u| AddressMode3 { rn: Register(1), offset, addressing, u };
    assert_eq!(
        addr_mode_3(&cpu, address(AddressingOffset::Immediate(0xFF), AddressingMode::Offset, true)),
        Access { address: 0x10FF, writeback: None }
    );
    assert_eq!(
        addr_mode_3(
            &cpu,
            address(AddressingOffset::Register(Register(2)), AddressingMode::PreIndexed, false)
        ),
        Access { address: 0x0FE0, writeback: Some(0x0FE0) }
    );
    assert_eq!(
        addr_mode_3(
            &cpu,
            address(AddressingOffset::Register(Register(2)), AddressingMode::PostIndexed, true)
        ),
        Access { address: 0x1000, writeback: Some(0x1020) }
    );
}

#[test]
fn data_processing_writes_registers_and_flags() {
    let mut cpu = machine();
    cpu.registers.write(Register(1), 0xF0);
    cpu.registers.write(Register(2), 0x3C);
    let eor = Instruction::Eor {
        condition: AL,
        s: false,
        rd: Register(0),
        rn: Register(1),
        operand2: register(2),
    };
    assert_eq!(execute(&mut cpu, eor), Ok(()));
    assert_eq!(cpu.registers.read(Register(0)), 0xCC);
    assert_eq!(cpu.cpsr.to_bits(), 0x1F);
    let cmp = Instruction::Cmp { condition: AL, rn: Register(2), operand2: register(1) };
    assert_eq!(execute(&mut cpu, cmp), Ok(()));
    assert_eq!(flags(&cpu.cpsr), Flags { n: true, z: false, c: false, v: false });
    assert_eq!(cpu.registers.read(Register(0)), 0xCC);
    let teq = Instruction::Teq { condition: AL, rn: Register(1), operand2: register(1) };
    assert_eq!(execute(&mut cpu, teq), Ok(()));
    assert_eq!(flags(&cpu.cpsr), Flags { n: false, z: true, c: false, v: false });
    let mvns = Instruction::Mvn {
        condition: Condition::Eq,
        s: true,
        rd: Register(3),
        operand2: AddressMode1::Immediate { value: 0, rotate: 0 },
    };
    assert_eq!(execute(&mut cpu, mvns), Ok(()));
    assert_eq!(cpu.registers.read(Register(3)), 0xFFFF_FFFF);
    assert_eq!(flags(&cpu.cpsr), Flags { n: true, z: false, c: false, v: false });
    // A write to the program counter without the S bit is a plain branch.
    let jump = Instruction::Add {
        condition: AL,
        s: false,
        rd: Register(PC),
        rn: Register(1),
        operand2: register(2),
    };
    assert_eq!(execute(&mut cpu, jump), Ok(()));
    assert_eq!(cpu.registers.read(Register(PC)), 0x12C);
    assert_eq!(flags(&cpu.cpsr), Flags { n: true, z: false, c: false, v: false });
}

#[test]
fn flag_setting_write_of_pc_restores_the_status_register() {
    let mut cpu = machine_in(Mode::Supervisor);
    cpu.registers.write(Register(LR), 0x0800_0100);
    cpu.spsr.set_bits(0..32, 0x6000_0010);
    cpu.registers.write_in(Mode::User, Register(SP), 0x0300_7F00);
    let inst =
        Instruction::Mov { condition: AL, s: true, rd: Register(PC), operand2: register(14) };
    assert_eq!(execute(&mut cpu, inst), Ok(()));
    assert_eq!(cpu.cpsr.to_bits(), 0x6000_0010);
    assert_eq!(cpu.cpsr.to_bits(), cpu.spsr.to_bits());
    assert_eq!(cpu.registers.mode(), Mode::User);
    assert_eq!(cpu.registers.read(Register(PC)), 0x0800_0100);
    assert_eq!(cpu.registers.read(Register(SP)), 0x0300_7F00);
    assert_eq!(cpu.registers.read_in(Mode::Supervisor, Register(LR)), 0x0800_0100);
}

#[test]
fn a_saved_status_register_without_a_mode_stops_the_restore() {
    let mut cpu = machine_in(Mode::Supervisor);
    cpu.registers.write(Register(LR), 0x100);
    cpu.spsr.set_bits(0..32, 0);
    let inst = Instruction::Sub {
        condition: AL,
        s: true,
        rd: Register(PC),
        rn: Register(LR),
        operand2: AddressMode1::Immediate { value: 4, rotate: 0 },
    };
    assert_eq!(execute(&mut cpu, inst), Err(ExecuteError::Unpredictable));
    assert_eq!(cpu.cpsr.to_bits(), 0x13);
    assert_eq!(cpu.registers.read(Register(PC)), 0);
    assert_eq!(cpu.registers.mode(), Mode::Supervisor);
}

#[test]
fn branches() {
    let mut cpu = machine();
    cpu.registers.write(Register(PC), 0x108);
    let b = Instruction::B { condition: AL, l: false, signed_immed: 2 };
    assert_eq!(execute(&mut cpu, b), Ok(()));
    assert_eq!(cpu.registers.read(Register(PC)), 0x110);
    assert_eq!(cpu.registers.read(Register(LR)), 0);
    let back = Instruction::B { condition: AL, l: true, signed_immed: 0xFF_FFFC };
    assert_eq!(execute(&mut cpu, back), Ok(()));
    assert_eq!(cpu.registers.read(Register(PC)), 0x100);
    assert_eq!(cpu.registers.read(Register(LR)), 0x10C);
    cpu.registers.write(Register(3), 0x0800_0001);
    assert_eq!(execute(&mut cpu, Instruction::Bx { condition: AL, rm: Register(3) }), Ok(()));
    assert_eq!(cpu.registers.read(Register(PC)), 0x0800_0000);
    assert!(cpu.cpsr.t());
    cpu.registers.write(Register(3), 0x0300_0000);
    assert_eq!(execute(&mut cpu, Instruction::Bx { condition: AL, rm: Register(3) }), Ok(()));
    assert_eq!(cpu.registers.read(Register(PC)), 0x0300_0000);
    assert!(!cpu.cpsr.t());
}

#[test]
fn multiplies() {
    let mut cpu = machine();
    cpu.registers.write(Register(1), 0xFFFF_FFFF);
    cpu.registers.write(Register(2), 2);
    cpu.registers.write(Register(3), 5);
    let (rd, rm, rs, rn) = (Register(0), Register(1), Register(2), Register(3));
    cpu.cpsr.set_c(true);
    cpu.cpsr.set_v(true);
    assert_eq!(execute(&mut cpu, Instruction::Mul { condition: AL, s: true, rd, rm, rs }), Ok(()));
    assert_eq!(cpu.registers.read(rd), 0xFFFF_FFFE);
    assert_eq!(flags(&cpu.cpsr), Flags { n: true, z: false, c: true, v: true });
    assert_eq!(
        execute(&mut cpu, Instruction::Mla { condition: AL, s: false, rd, rn, rm, rs }),
        Ok(())
    );
    assert_eq!(cpu.registers.read(rd), 3);
    assert_eq!(flags(&cpu.cpsr), Flags { n: true, z: false, c: true, v: true });
    cpu.registers.write(Register(2), 0);
    assert_eq!(execute(&mut cpu, Instruction::Mul { condition: AL, s: true, rd, rm, rs }), Ok(()));
    assert_eq!(cpu.registers.read(rd), 0);
    assert_eq!(flags(&cpu.cpsr), Flags { n: false, z: true, c: true, v: true });
}

#[test]
fn long_multiplies() {
    let mut cpu = machine();
    let (rd_lo, rd_hi, rm, rs) = (Register(4), Register(5), Register(1), Register(2));
    let condition = AL;
    let mut run = |inst: Instruction, a: u32, b: u32, low: u32, high: u32| {
        cpu.registers.write(rm, a);
        cpu.registers.write(rs, b);
        cpu.registers.write(rd_lo, low);
        cpu.registers.write(rd_hi, high);
        cpu.cpsr.set_bits(28..32, 0b0011);
        assert_eq!(execute(&mut cpu, inst), Ok(()));
        (cpu.registers.read(rd_hi), cpu.registers.read(rd_lo), flags(&cpu.cpsr))
    };
    let kept = Flags { n: false, z: false, c: true, v: true };
    let s = true;
    let umull = Instruction::Umull { condition, s, rd_lo, rd_hi, rm, rs };
    let umlal = Instruction::Umlal { condition, s, rd_lo, rd_hi, rm, rs };
    let smull = Instruction::Smull { condition, s, rd_lo, rd_hi, rm, rs };
    let smlal = Instruction::Smlal { condition, s, rd_lo, rd_hi, rm, rs };
    assert_eq!(
        run(umull, 0xFFFF_FFFF, 0xFFFF_FFFF, 7, 7),
        (0xFFFF_FFFE, 1, Flags { n: true, ..kept })
    );
    assert_eq!(run(umull, 0x1_0000, 0x1_0000, 7, 7), (1, 0, kept));
    assert_eq!(run(umull, 0, 5, 7, 7), (0, 0, Flags { z: true, ..kept }));
    assert_eq!(run(smull, 0xFFFF_FFFF, 0xFFFF_FFFF, 7, 7), (0, 1, kept));
    assert_eq!(
        run(smull, 0xFFFF_FFFF, 2, 7, 7),
        (0xFFFF_FFFF, 0xFFFF_FFFE, Flags { n: true, ..kept })
    );
    assert_eq!(
        run(smull, 0x8000_0000, 0x8000_0000, 7, 7),
        (0x4000_0000, 0, kept)
    );
    assert_eq!(
        run(smull, 0x8000_0000, 0x7FFF_FFFF, 7, 7),
        (0xC000_0000, 0x8000_0000, Flags { n: true, ..kept })
    );
    assert_eq!(run(umlal, 2, 3, 10, 1), (1, 16, kept));
    assert_eq!(
        run(umlal, 1, 1, 0xFFFF_FFFF, 0xFFFF_FFFF),
        (0, 0, Flags { z: true, ..kept })
    );
    assert_eq!(run(umlal, 0xFFFF_FFFF, 1, 1, 0), (1, 0, kept));
    assert_eq!(run(smlal, 0xFFFF_FFFF, 1, 1, 0), (0, 0, Flags { z: true, ..kept }));
    assert_eq!(
        run(smlal, 0xFFFF_FFFF, 3, 1, 0),
        (0xFFFF_FFFF, 0xFFFF_FFFE, Flags { n: true, ..kept })
    );
    let quiet = Instruction::Umull { condition, s: false, rd_lo, rd_hi, rm, rs };
    assert_eq!(run(quiet, 0, 0, 7, 7), (0, 0, kept));
}

#[test]
fn moves_from_and_to_the_status_registers() {
    let mut cpu = machine_in(Mode::Supervisor);
    cpu.spsr.set_bits(0..32, 0x9000_001F);
    let mrs = |r| Instruction::Mrs { condition: AL, r, rd: Register(0) };
    assert_eq!(execute(&mut cpu, mrs(false)), Ok(()));
    assert_eq!(cpu.registers.read(Register(0)), 0x13);
    assert_eq!(execute(&mut cpu, mrs(true)), Ok(()));
    assert_eq!(cpu.registers.read(Register(0)), 0x9000_001F);
    let msr = |c, x, s, f, r| Instruction::Msr {
        condition: AL,
        c,
        x,
        s,
        f,
        r,
        address: register(1),
    };
    cpu.registers.write(Register(1), 0xA1B2_C3D1);
    assert_eq!(execute(&mut cpu, msr(false, true, true, false, true)), Ok(()));
    assert_eq!(cpu.spsr.to_bits(), 0x90B2_C31F);
    assert_eq!(execute(&mut cpu, msr(true, false, false, true, true)), Ok(()));
    assert_eq!(cpu.spsr.to_bits(), 0xA1B2_C3D1);
    assert_eq!(cpu.cpsr.to_bits(), 0x13);
    // The flags byte of the current status register.
    assert_eq!(execute(&mut cpu, msr(false, false, false, true, false)), Ok(()));
    assert_eq!(cpu.cpsr.to_bits(), 0xA100_0013);
    // The control byte: a change of mode.
    cpu.registers.write(Register(SP), 0x0300_7FE0);
    cpu.registers.write(Register(1), 0x0000_0092);
    assert_eq!(execute(&mut cpu, msr(true, false, false, false, false)), Ok(()));
    assert_eq!(cpu.cpsr.to_bits(), 0xA100_0092);
    assert_eq!(cpu.cpsr.mode(), Some(Mode::IRQ));
    assert_eq!(cpu.registers.mode(), Mode::IRQ);
    assert_eq!(cpu.registers.read(Register(SP)), 0);
    assert_eq!(cpu.registers.read_in(Mode::Supervisor, Register(SP)), 0x0300_7FE0);
}

#[test]
fn user_mode_writes_the_flags_byte_only() {
    let mut cpu = machine_in(Mode::User);
    cpu.registers.write(Register(1), 0xF0FF_FF1F);
    let msr = |r| Instruction::Msr {
        condition: AL,
        c: true,
        x: true,
        s: true,
        f: true,
        r,
        address: register(1),
    };
    assert_eq!(execute(&mut cpu, msr(false)), Ok(()));
    assert_eq!(cpu.cpsr.to_bits(), 0xF000_0010);
    assert_eq!(cpu.registers.mode(), Mode::User);
    // There is no saved status register in User mode, nor in System mode.
    assert_eq!(execute(&mut cpu, msr(true)), Ok(()));
    assert_eq!(cpu.spsr.to_bits(), 0x1F);
    let mut cpu = machine();
    cpu.registers.write(Register(1), 0xF0FF_FF1F);
    assert_eq!(execute(&mut cpu, msr(true)), Ok(()));
    assert_eq!(cpu.spsr.to_bits(), 0x1F);
}

#[test]
fn a_move_that_leaves_no_legal_mode_is_unpredictable() {
    let mut cpu = machine();
    cpu.registers.write(Register(1), 0xF000_0000);
    let inst = Instruction::Msr {
        condition: AL,
        c: true,
        x: false,
        s: false,
        f: true,
        r: false,
        address: register(1),
    };
    assert_eq!(execute(&mut cpu, inst), Err(ExecuteError::Unpredictable));
    assert_eq!(cpu.cpsr.to_bits(), 0x1F);
    assert_eq!(cpu.registers.mode(), Mode::System);
}

fn word_transfer(rn: u32, offset: u16, addressing: AddressingMode) -> AddressMode2 {
    AddressMode2 {
        rn: Register(rn),
        offset: AddressingOffset::Immediate(offset),
        addressing,
        u: true,
    }
}

fn halfword_transfer(rn: u32, offset: u16, addressing: AddressingMode) -> AddressMode3 {
    AddressMode3 {
        rn: Register(rn),
        offset: AddressingOffset::Immediate(offset),
        addressing,
        u: true,
    }
}

#[test]
fn word_and_byte_transfers() {
    let mut cpu = machine();
    let rd = Register(0);
    let condition = AL;
    cpu.registers.write(Register(1), RAM);
    cpu.registers.write(rd, 0x1122_3344);
    let address = word_transfer(1, 8, AddressingMode::Offset);
    assert_eq!(execute(&mut cpu, Instruction::Str { condition, rd, address }), Ok(()));
    assert_eq!(cpu.memory.read_word(RAM + 8), Ok(0x1122_3344));
    assert_eq!(cpu.registers.read(Register(1)), RAM);
    let rd = Register(2);
    assert_eq!(execute(&mut cpu, Instruction::Ldr { condition, rd, address }), Ok(()));
    assert_eq!(cpu.registers.read(rd), 0x1122_3344);
    assert_eq!(execute(&mut cpu, Instruction::Ldrb { condition, rd, address }), Ok(()));
    assert_eq!(cpu.registers.read(rd), 0x44);
    // A word at an address that is no multiple of four comes rotated.
    let address = word_transfer(1, 9, AddressingMode::Offset);
    assert_eq!(execute(&mut cpu, Instruction::Ldr { condition, rd, address }), Ok(()));
    assert_eq!(cpu.registers.read(rd), 0x3300_1122);
    let address = word_transfer(1, 10, AddressingMode::Offset);
    assert_eq!(execute(&mut cpu, Instruction::Ldrt { condition, rd, address }), Ok(()));
    assert_eq!(cpu.registers.read(rd), 0x1122_0000);
    // Post-indexed: the old base is the address.
    cpu.registers.write(Register(3), 0xAABB_CCDD);
    let rd = Register(3);
    let address = word_transfer(1, 12, AddressingMode::PostIndexed);
    assert_eq!(execute(&mut cpu, Instruction::Strb { condition, rd, address }), Ok(()));
    assert_eq!(cpu.memory.read_word(RAM), Ok(0xDD));
    assert_eq!(cpu.registers.read(Register(1)), RAM + 12);
    let address = word_transfer(1, 4, AddressingMode::PreIndexed);
    assert_eq!(execute(&mut cpu, Instruction::Strt { condition, rd, address }), Ok(()));
    assert_eq!(cpu.memory.read_word(RAM + 16), Ok(0xAABB_CCDD));
    assert_eq!(cpu.registers.read(Register(1)), RAM + 16);
    let strbt = Instruction::Strbt { condition, rd: Register(0), address };
    assert_eq!(execute(&mut cpu, strbt), Ok(()));
    assert_eq!(cpu.memory.read_byte(RAM + 20), Ok(0x44));
    let rd = Register(4);
    let address = word_transfer(1, 0, AddressingMode::Offset);
    assert_eq!(execute(&mut cpu, Instruction::Ldrbt { condition, rd, address }), Ok(()));
    assert_eq!(cpu.registers.read(rd), 0x44);
}

#[test]
fn a_word_loaded_into_the_program_counter_is_aligned() {
    let mut cpu = machine();
    cpu.registers.write(Register(1), RAM);
    assert_eq!(cpu.memory.write_word(RAM, 0x0800_0123), Ok(()));
    let address = word_transfer(1, 0, AddressingMode::Offset);
    let ldr = Instruction::Ldr { condition: AL, rd: Register(PC), address };
    assert_eq!(execute(&mut cpu, ldr), Ok(()));
    assert_eq!(cpu.registers.read(Register(PC)), 0x0800_0120);
    let ldrb = Instruction::Ldrb { condition: AL, rd: Register(PC), address };
    assert_eq!(execute(&mut cpu, ldrb), Ok(()));
    assert_eq!(cpu.registers.read(Register(PC)), 0x23);
}

#[test]
fn halfword_and_signed_transfers() {
    let mut cpu = machine();
    let condition = AL;
    cpu.registers.write(Register(1), RAM);
    cpu.registers.write(Register(0), 0x1234_8001);
    let address = halfword_transfer(1, 2, AddressingMode::PreIndexed);
    let strh = Instruction::Strh { condition, rd: Register(0), address };
    assert_eq!(execute(&mut cpu, strh), Ok(()));
    assert_eq!(cpu.memory.read_word(RAM), Ok(0x8001_0000));
    assert_eq!(cpu.registers.read(Register(1)), RAM + 2);
    let address = halfword_transfer(1, 0, AddressingMode::Offset);
    let rd = Register(2);
    assert_eq!(execute(&mut cpu, Instruction::Ldrh { condition, rd, address }), Ok(()));
    assert_eq!(cpu.registers.read(rd), 0x8001);
    assert_eq!(execute(&mut cpu, Instruction::Ldrsh { condition, rd, address }), Ok(()));
    assert_eq!(cpu.registers.read(rd), 0xFFFF_8001);
    assert_eq!(execute(&mut cpu, Instruction::Ldrsb { condition, rd, address }), Ok(()));
    assert_eq!(cpu.registers.read(rd), 1);
    let address = halfword_transfer(1, 1, AddressingMode::PostIndexed);
    assert_eq!(execute(&mut cpu, Instruction::Ldrsb { condition, rd, address }), Ok(()));
    assert_eq!(cpu.registers.read(rd), 1);
    assert_eq!(cpu.registers.read(Register(1)), RAM + 3);
    let address = halfword_transfer(1, 0, AddressingMode::Offset);
    assert_eq!(execute(&mut cpu, Instruction::Ldrsb { condition, rd, address }), Ok(()));
    assert_eq!(cpu.registers.read(rd), 0xFFFF_FF80);
    assert_eq!(cpu.memory.write_halfword(RAM + 8, 0x7FFF), Ok(()));
    let address = halfword_transfer(1, 5, AddressingMode::Offset);
    assert_eq!(execute(&mut cpu, Instruction::Ldrsh { condition, rd, address }), Ok(()));
    assert_eq!(cpu.registers.read(rd), 0x7FFF);
}

#[test]
fn a_fault_stops_a_transfer_before_it_changes_anything() {
    let mut cpu = machine();
    cpu.registers.write(Register(1), 0x0100_0000);
    cpu.registers.write(Register(0), 7);
    let address = word_transfer(1, 4, AddressingMode::PreIndexed);
    let fault = Fault::Unmapped { address: 0x0100_0004, width: 4 };
    let ldr = Instruction::Ldr { condition: AL, rd: Register(0), address };
    assert_eq!(execute(&mut cpu, ldr), Err(ExecuteError::Fault(fault)));
    let str = Instruction::Str { condition: AL, rd: Register(0), address };
    assert_eq!(execute(&mut cpu, str), Err(ExecuteError::Fault(fault)));
    assert_eq!(cpu.registers.read(Register(0)), 7);
    assert_eq!(cpu.registers.read(Register(1)), 0x0100_0000);
    // The BIOS can be read and not written.
    cpu.registers.write(Register(1), 0);
    let strb = Instruction::Strb { condition: AL, rd: Register(0), address };
    assert_eq!(
        execute(&mut cpu, strb),
        Err(ExecuteError::Fault(Fault::Unmapped { address: 4, width: 1 }))
    );
    assert_eq!(cpu.registers.read(Register(1)), 0);
    let address = halfword_transfer(1, 0, AddressingMode::Offset);
    let ldrh = Instruction::Ldrh { condition: AL, rd: Register(0), address };
    assert_eq!(execute(&mut cpu, ldrh), Ok(()));
    assert_eq!(cpu.registers.read(Register(0)), 0);
}

#[test]
fn swaps() {
    let mut cpu = machine();
    let (rd, rm, rn) = (Register(0), Register(1), Register(2));
    cpu.registers.write(rm, 0xAABB_CCDD);
    cpu.registers.write(rn, RAM + 4);
    assert_eq!(cpu.memory.write_word(RAM + 4, 0x1122_3344), Ok(()));
    assert_eq!(execute(&mut cpu, Instruction::Swp { condition: AL, rd, rm, rn }), Ok(()));
    assert_eq!(cpu.registers.read(rd), 0x1122_3344);
    assert_eq!(cpu.memory.read_word(RAM + 4), Ok(0xAABB_CCDD));
    cpu.registers.write(rm, 0x0000_01EE);
    assert_eq!(execute(&mut cpu, Instruction::Swpb { condition: AL, rd, rm, rn }), Ok(()));
    assert_eq!(cpu.registers.read(rd), 0xDD);
    assert_eq!(cpu.memory.read_word(RAM + 4), Ok(0xAABB_CCEE));
    // The register can be its own source.
    cpu.registers.write(rd, 5);
    let own = Instruction::Swp { condition: AL, rd, rm: rd, rn };
    assert_eq!(execute(&mut cpu, own), Ok(()));
    assert_eq!(cpu.registers.read(rd), 0xAABB_CCEE);
    assert_eq!(cpu.memory.read_word(RAM + 4), Ok(5));
    cpu.registers.write(rn, 0);
    assert_eq!(
        execute(&mut cpu, Instruction::Swp { condition: AL, rd, rm, rn }),
        Err(ExecuteError::Fault(Fault::Unmapped { address: 0, width: 4 }))
    );
    assert_eq!(cpu.registers.read(rd), 0xAABB_CCEE);
}

#[test]
fn counts_the_registers_of_a_list() {
    assert_eq!(listed(0), 0);
    assert_eq!(listed(1), 1);
    assert_eq!(listed(0x8000), 1);
    assert_eq!(listed(0x4011), 3);
    assert_eq!(listed(0xFFFF), 16);
}

fn block(p: bool, u: bool, w: bool, register_list: u16) -> BlockTransfer {
    BlockTransfer { rn: Register(13), p, u, w, register_list }
}

#[test]
fn block_stores_in_the_four_directions() {
    let condition = AL;
    let base = RAM + 0x100;
    let store = |p: bool, u: bool, w: bool| {
        let mut cpu = machine();
        cpu.registers.write(Register(0), 0xA0);
        cpu.registers.write(Register(1), 0xA1);
        cpu.registers.write(Register(14), 0xAE);
        cpu.registers.write(Register(13), base);
        let inst = Instruction::Stm1 { condition, block: block(p, u, w, 0x4003) };
        assert_eq!(execute(&mut cpu, inst), Ok(()));
        cpu
    };
    let words = |cpu: &Cpu, from: u32| {
        [
            cpu.memory.read_word(from).unwrap(),
            cpu.memory.read_word(from + 4).unwrap(),
            cpu.memory.read_word(from + 8).unwrap(),
        ]
    };
    // Increment after.
    let cpu = store(false, true, true);
    assert_eq!(words(&cpu, base), [0xA0, 0xA1, 0xAE]);
    assert_eq!(cpu.registers.read(Register(13)), base + 12);
    // Increment before.
    let cpu = store(true, true, true);
    assert_eq!(words(&cpu, base + 4), [0xA0, 0xA1, 0xAE]);
    assert_eq!(cpu.memory.read_word(base), Ok(0));
    assert_eq!(cpu.registers.read(Register(13)), base + 12);
    // Decrement after.
    let cpu = store(false, false, true);
    assert_eq!(words(&cpu, base - 8), [0xA0, 0xA1, 0xAE]);
    assert_eq!(cpu.registers.read(Register(13)), base - 12);
    // Decrement before.
    let cpu = store(true, false, true);
    assert_eq!(words(&cpu, base - 12), [0xA0, 0xA1, 0xAE]);
    assert_eq!(cpu.memory.read_word(base), Ok(0));
    assert_eq!(cpu.registers.read(Register(13)), base - 12);
    // Without writeback the base stays.
    let cpu = store(true, false, false);
    assert_eq!(words(&cpu, base - 12), [0xA0, 0xA1, 0xAE]);
    assert_eq!(cpu.registers.read(Register(13)), base);
}

#[test]
fn a_block_load_undoes_a_block_store() {
    let mut cpu = machine();
    let condition = AL;
    cpu.registers.write(Register(13), RAM + 0x100);
    cpu.registers.write(Register(0), 10);
    cpu.registers.write(Register(1), 11);
    cpu.registers.write(Register(14), 0x0800_0103);
    let push = Instruction::Stm1 { condition, block: block(true, false, true, 0x4003) };
    assert_eq!(execute(&mut cpu, push), Ok(()));
    assert_eq!(cpu.registers.read(Register(13)), RAM + 0xF4);
    let pop = Instruction::Ldm1 { condition, block: block(false, true, true, 0x800C) };
    assert_eq!(execute(&mut cpu, pop), Ok(()));
    assert_eq!(cpu.registers.read(Register(2)), 10);
    assert_eq!(cpu.registers.read(Register(3)), 11);
    assert_eq!(cpu.registers.read(Register(PC)), 0x0800_0100);
    assert_eq!(cpu.registers.read(Register(13)), RAM + 0x100);
}

#[test]
fn a_loaded_base_wins_over_the_writeback() {
    let mut cpu = machine();
    cpu.registers.write(Register(13), RAM);
    assert_eq!(cpu.memory.write_word(RAM, 0x1234), Ok(()));
    let inst = Instruction::Ldm1 { condition: AL, block: block(false, true, true, 0x2000) };
    assert_eq!(execute(&mut cpu, inst), Ok(()));
    assert_eq!(cpu.registers.read(Register(13)), 0x1234);
}

#[test]
fn a_fault_stops_a_block_transfer() {
    let mut cpu = machine();
    let last = RAM + 0x3_FFFC;
    cpu.registers.write(Register(13), last);
    cpu.registers.write(Register(0), 0xA0);
    cpu.registers.write(Register(1), 0xA1);
    let fault = ExecuteError::Fault(Fault::Unmapped { address: last + 4, width: 4 });
    let store = Instruction::Stm1 { condition: AL, block: block(false, true, true, 3) };
    assert_eq!(execute(&mut cpu, store), Err(fault));
    // The store before the fault was made; the base was not written.
    assert_eq!(cpu.memory.read_word(last), Ok(0xA0));
    assert_eq!(cpu.registers.read(Register(13)), last);
    let load = Instruction::Ldm1 { condition: AL, block: block(false, true, true, 0x30) };
    assert_eq!(execute(&mut cpu, load), Err(fault));
    assert_eq!(cpu.registers.read(Register(4)), 0);
    assert_eq!(cpu.registers.read(Register(13)), last);
}

#[test]
fn block_transfers_of_the_user_bank() {
    let mut cpu = machine_in(Mode::IRQ);
    let condition = AL;
    cpu.registers.write(Register(0), RAM);
    cpu.registers.write(Register(13), 0x111);
    cpu.registers.write(Register(14), 0x222);
    cpu.registers.write_in(Mode::User, Register(13), 0x333);
    cpu.registers.write_in(Mode::User, Register(14), 0x444);
    let transfer =
        BlockTransfer { rn: Register(0), p: false, u: true, w: false, register_list: 0x6000 };
    assert_eq!(execute(&mut cpu, Instruction::Stm2 { condition, block: transfer }), Ok(()));
    assert_eq!(cpu.memory.read_word(RAM), Ok(0x333));
    assert_eq!(cpu.memory.read_word(RAM + 4), Ok(0x444));
    assert_eq!(execute(&mut cpu, Instruction::Stm1 { condition, block: transfer }), Ok(()));
    assert_eq!(cpu.memory.read_word(RAM), Ok(0x111));
    assert_eq!(cpu.memory.read_word(RAM + 4), Ok(0x222));
    assert_eq!(execute(&mut cpu, Instruction::Ldm2 { condition, block: transfer }), Ok(()));
    assert_eq!(cpu.registers.read_in(Mode::User, Register(13)), 0x111);
    assert_eq!(cpu.registers.read_in(Mode::User, Register(14)), 0x222);
    assert_eq!(cpu.registers.read(Register(13)), 0x111);
    cpu.registers.write(Register(13), 0x555);
    assert_eq!(cpu.registers.read_in(Mode::User, Register(13)), 0x111);
    assert_eq!(cpu.registers.mode(), Mode::IRQ);
}

#[test]
fn a_block_load_with_restore_returns_from_an_exception() {
    let mut cpu = machine_in(Mode::IRQ);
    cpu.spsr.set_bits(0..32, 0x2000_0010);
    cpu.registers.write(Register(13), RAM);
    assert_eq!(cpu.memory.write_word(RAM, 0x77), Ok(()));
    assert_eq!(cpu.memory.write_word(RAM + 4, 0x0800_0201), Ok(()));
    let inst = Instruction::Ldm3 { condition: AL, block: block(false, true, true, 0x8001) };
    assert_eq!(execute(&mut cpu, inst), Ok(()));
    assert_eq!(cpu.cpsr.to_bits(), 0x2000_0010);
    assert_eq!(cpu.registers.mode(), Mode::User);
    assert_eq!(cpu.registers.read(Register(0)), 0x77);
    assert_eq!(cpu.registers.read(Register(PC)), 0x0800_0200);
    assert_eq!(cpu.registers.read_in(Mode::IRQ, Register(13)), RAM + 8);
    // Without a legal mode to return to, nothing changes.
    let mut cpu = machine_in(Mode::IRQ);
    cpu.spsr.set_bits(0..32, 0);
    cpu.registers.write(Register(13), RAM);
    assert_eq!(execute(&mut cpu, inst), Err(ExecuteError::Unpredictable));
    assert_eq!(cpu.registers.read(Register(13)), RAM);
    assert_eq!(cpu.cpsr.to_bits(), 0x12);
}

#[test]
fn software_interrupt_enters_supervisor_mode() {
    let mut cpu = machine_in(Mode::User);
    cpu.cpsr.set_t(true);
    cpu.cpsr.set_z(true);
    cpu.registers.write(Register(PC), 0x0800_0108);
    cpu.registers.write(Register(LR), 0x999);
    let inst = Instruction::Swi { condition: AL, immediate: 0x12 };
    assert_eq!(execute(&mut cpu, inst), Ok(()));
    assert_eq!(cpu.spsr.to_bits(), 0x4000_0030);
    assert_eq!(cpu.cpsr.to_bits(), 0x4000_0093);
    assert_eq!(cpu.registers.mode(), Mode::Supervisor);
    assert_eq!(cpu.registers.read(Register(LR)), 0x0800_0104);
    assert_eq!(cpu.registers.read(Register(PC)), 0x08);
    assert_eq!(cpu.registers.read_in(Mode::User, Register(LR)), 0x999);
}

#[test]
fn coprocessor_instructions_are_undefined() {
    let all = [
        Instruction::Cdp { condition: AL },
        Instruction::Ldc { condition: AL },
        Instruction::Stc { condition: AL },
        Instruction::Mcr { condition: AL },
        Instruction::Mrc { condition: AL },
    ];
    for inst in all {
        let mut cpu = machine();
        cpu.registers.write(Register(PC), 0x208);
        assert_eq!(execute(&mut cpu, inst), Ok(()));
        assert_eq!(cpu.spsr.to_bits(), 0x1F);
        assert_eq!(cpu.cpsr.to_bits(), 0x9B);
        assert_eq!(cpu.registers.mode(), Mode::Undefined);
        assert_eq!(cpu.registers.read(Register(LR)), 0x204);
        assert_eq!(cpu.registers.read(Register(PC)), 0x04);
    }
}

#[test]
fn exception_entry() {
    let mut cpu = machine_in(Mode::FIQ);
    cpu.cpsr.set_f(true);
    cpu.cpsr.set_t(true);
    exception(&mut cpu, Mode::Abort, 0x10, 0x1234);
    assert_eq!(cpu.spsr.to_bits(), 0x71);
    assert_eq!(cpu.cpsr.to_bits(), 0xD7);
    assert_eq!(cpu.registers.mode(), Mode::Abort);
    assert_eq!(cpu.registers.read(Register(LR)), 0x1234);
    assert_eq!(cpu.registers.read(Register(PC)), 0x10);
}
