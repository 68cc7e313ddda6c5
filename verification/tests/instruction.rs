use arm7tdmi::cpu::Register;
use arm7tdmi::decode::decode_arm::decode_arm;
use arm7tdmi::instruction::{
    AddressMode1, AddressMode2, AddressMode3, AddressingMode, AddressingOffset, BlockTransfer,
    Condition, Instruction, ShiftDirection,
};

#[test]
fn registers_have_sixteen_names() {
    for index in 0..16 {
        assert!(Register(index).well_formed());
    }
    assert!(!Register(16).well_formed());
    assert!(!Register(0xFFFF_FFFF).well_formed());
}

#[test]
fn offsets_fit_their_fields() {
    let scaled = |shift_imm| AddressingOffset::ScaledRegister {
        rm: Register(1),
        shift: ShiftDirection::Lsl,
        shift_imm,
    };
    assert!(AddressingOffset::Immediate(31).check_shift_amount());
    assert!(!AddressingOffset::Immediate(32).check_shift_amount());
    assert!(AddressingOffset::Register(Register(15)).check_shift_amount());
    assert!(!AddressingOffset::Register(Register(16)).check_shift_amount());
    assert!(!scaled(0).check_shift_amount());
    assert!(AddressingOffset::Immediate(0xFFF).check_word_offset());
    assert!(!AddressingOffset::Immediate(0x1000).check_word_offset());
    assert!(scaled(31).check_word_offset());
    assert!(!scaled(32).check_word_offset());
    assert!(AddressingOffset::Immediate(0xFF).check_halfword_offset());
    assert!(!AddressingOffset::Immediate(0x100).check_halfword_offset());
    assert!(AddressingOffset::Register(Register(0)).check_halfword_offset());
    assert!(!scaled(0).check_halfword_offset());
}

#[test]
fn operands_and_addresses_are_checked() {
    assert!(AddressMode1::Immediate { value: 0xFF, rotate: 15 }.well_formed());
    assert!(!AddressMode1::Immediate { value: 0, rotate: 16 }.well_formed());
    let shift = |rm, shift_imm| AddressMode1::Shift { rm, shift: ShiftDirection::Asr, shift_imm };
    assert!(shift(Register(3), AddressingOffset::Immediate(0)).well_formed());
    assert!(!shift(Register(16), AddressingOffset::Immediate(0)).well_formed());
    assert!(!shift(Register(3), AddressingOffset::Immediate(40)).well_formed());
    let word = |rn, offset| AddressMode2 {
        rn: Register(rn),
        offset: AddressingOffset::Immediate(offset),
        addressing: AddressingMode::Offset,
        u: true,
    };
    assert!(word(0, 0xFFF).well_formed());
    assert!(!word(16, 0).well_formed());
    assert!(!word(0, 0x1000).well_formed());
    let halfword = |rn, offset| AddressMode3 {
        rn: Register(rn),
        offset: AddressingOffset::Immediate(offset),
        addressing: AddressingMode::Offset,
        u: true,
    };
    assert!(halfword(0, 0xFF).well_formed());
    assert!(!halfword(0, 0x100).well_formed());
    assert!(!halfword(20, 0).well_formed());
    let block =
        |rn| BlockTransfer { rn: Register(rn), p: false, u: true, w: false, register_list: 1 };
    assert!(block(13).well_formed());
    assert!(!block(16).well_formed());
}

#[test]
fn instructions_are_checked() {
    let condition = Condition::Al;
    let operand2 = AddressMode1::Immediate { value: 1, rotate: 0 };
    let good = Register(0);
    let bad = Register(16);
    assert!(Instruction::Add { condition, s: false, rd: good, rn: good, operand2 }.well_formed());
    assert!(!Instruction::Add { condition, s: false, rd: bad, rn: good, operand2 }.well_formed());
    assert!(!Instruction::Add { condition, s: false, rd: good, rn: bad, operand2 }.well_formed());
    assert!(!Instruction::Mov {
        condition,
        s: false,
        rd: good,
        operand2: AddressMode1::Immediate { value: 1, rotate: 16 },
    }
    .well_formed());
    assert!(Instruction::B { condition, l: true, signed_immed: 0xFF_FFFF }.well_formed());
    assert!(!Instruction::B { condition, l: true, signed_immed: 0x100_0000 }.well_formed());
    assert!(Instruction::Swi { condition, immediate: 0xFF_FFFF }.well_formed());
    assert!(!Instruction::Swi { condition, immediate: 0x100_0000 }.well_formed());
    assert!(Instruction::Cdp { condition }.well_formed());
    assert!(!Instruction::Umull { condition, s: false, rd_lo: good, rd_hi: bad, rm: good, rs: good }
        .well_formed());
    assert!(!Instruction::Bx { condition, rm: bad }.well_formed());
}

#[test]
fn whatever_decodes_is_well_formed() {
    let mut word: u32 = 0x1234_5678;
    for _ in 0..100_000 {
        // A linear congruential walk over the words.
        word = word.wrapping_mul(1_664_525).wrapping_add(1_013_904_223);
        if let Ok(inst) = decode_arm(word) {
            assert!(inst.well_formed(), "{:#x}", word);
        }
    }
}

#[test]
fn condition_of_an_instruction() {
    let inst = Instruction::Bx { condition: Condition::Gt, rm: Register(1) };
    assert_eq!(inst.condition(), Condition::Gt);
    let inst = Instruction::Stc { condition: Condition::Nv };
    assert_eq!(inst.condition(), Condition::Nv);
}
