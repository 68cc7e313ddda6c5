//! The executor: the condition check, the barrel shifter and the addressing
//! modes, the arithmetic flags, and the state transition of each
//! instruction.

use crate::arith::{
    arithmetic_shift_right, arithmetic_shift_right_spec, carry_value, extend_byte,
    extend_byte_spec, extend_halfword, extend_halfword_spec, high_word, join_words, low_byte,
    low_halfword, low_word, rotate_right, rotate_right_spec, sign_fill, sign_fill_spec,
    signed_product, signed_spec, twos_complement_spec, unsigned_product, wide_sum, widen_byte,
    widen_halfword, wrapping_difference, wrapping_difference_spec, wrapping_product,
    wrapping_sum_long, WORD_RANGE,
};
use crate::bit::{lemma_bit_of_set_bit, Bit, Bits, SetBit, SetBits};
use crate::bus::{Fault, Read, Write};
use crate::cpu::{
    psr_mode, Cpu, CpuView, Mode, ProgramStatusRegister, Register, RegistersView, LR, PC,
};
use crate::memory_map::MemoryMapView;
use vstd::wrapping::u32_specs::{wrapping_add, wrapping_sub};
use crate::instruction::{
    AddressMode1, AddressMode2, AddressMode3, AddressingMode, AddressingOffset, BlockTransfer,
    Condition, Instruction, ShiftDirection,
};
use vstd::prelude::*;

verus! {

/// Why an instruction did not execute.
#[derive(Clone, Copy, PartialEq, Eq, Structural, Debug)]
pub enum ExecuteError {
    /// A status register whose mode field holds no legal encoding was about
    /// to become the current one.
    Unpredictable,
    /// The address space refused an access.
    Fault(Fault),
}

/// The four condition flags.
#[derive(Clone, Copy, PartialEq, Eq, Structural, Debug)]
pub struct Flags {
    /// Negative.
    pub n: bool,
    /// Zero.
    pub z: bool,
    /// Carry.
    pub c: bool,
    /// Overflow.
    pub v: bool,
}

/// The condition flags of a status register value.
pub open spec fn flags_spec(psr: u32) -> Flags {
    Flags { n: psr.bit_spec(31), z: psr.bit_spec(30), c: psr.bit_spec(29), v: psr.bit_spec(28) }
}

/// The status register value `psr` with its condition flags replaced.
pub open spec fn with_flags_spec(psr: u32, flags: Flags) -> u32 {
    psr.set_bit_spec(31, flags.n).set_bit_spec(30, flags.z).set_bit_spec(29, flags.c).set_bit_spec(
        28,
        flags.v,
    )
}

/// Reads the condition flags of a status register.
pub fn flags(psr: &ProgramStatusRegister) -> (flags: Flags)
    ensures
        flags == flags_spec(psr@),
{
    Flags { n: psr.n(), z: psr.z(), c: psr.c(), v: psr.v() }
}

/// Replaces the condition flags of a status register.
pub fn set_flags(psr: &mut ProgramStatusRegister, flags: Flags)
    ensures
        final(psr)@ == with_flags_spec(old(psr)@, flags),
{
    psr.set_n(flags.n);
    psr.set_z(flags.z);
    psr.set_c(flags.c);
    psr.set_v(flags.v);
}

/// Whether `condition` holds under `flags`. Never holds under none.
pub open spec fn condition_holds(flags: Flags, condition: Condition) -> bool {
    match condition {
        Condition::Eq => flags.z,
        Condition::Ne => !flags.z,
        Condition::Cs => flags.c,
        Condition::Cc => !flags.c,
        Condition::Mi => flags.n,
        Condition::Pl => !flags.n,
        Condition::Vs => flags.v,
        Condition::Vc => !flags.v,
        Condition::Hi => flags.c && !flags.z,
        Condition::Ls => !flags.c || flags.z,
        Condition::Ge => flags.n == flags.v,
        Condition::Lt => flags.n != flags.v,
        Condition::Gt => !flags.z && flags.n == flags.v,
        Condition::Le => flags.z || flags.n != flags.v,
        Condition::Al => true,
        Condition::Nv => false,
    }
}

/// Whether an instruction with `condition` executes under the status
/// register value `cpsr`.
pub open spec fn condition_passed_spec(cpsr: u32, condition: Condition) -> bool {
    condition_holds(flags_spec(cpsr), condition)
}

/// Checks `condition` against the flags of the current status register.
pub fn condition_passed(cpu: &Cpu, condition: Condition) -> (passed: bool)
    ensures
        passed == condition_passed_spec(cpu@.cpsr, condition),
{
    let z = cpu.cpsr.z();
    let c = cpu.cpsr.c();
    let n = cpu.cpsr.n();
    let v = cpu.cpsr.v();
    match condition {
        Condition::Eq => z,
        Condition::Ne => !z,
        Condition::Cs => c,
        Condition::Cc => !c,
        Condition::Mi => n,
        Condition::Pl => !n,
        Condition::Vs => v,
        Condition::Vc => !v,
        Condition::Hi => c && !z,
        Condition::Ls => !c || z,
        Condition::Ge => n == v,
        Condition::Lt => n != v,
        Condition::Gt => !z && n == v,
        Condition::Le => z || n != v,
        Condition::Al => true,
        Condition::Nv => false,
    }
}

/// Every condition but Never holds under some flags.
pub proof fn lemma_condition_can_hold(condition: Condition)
    requires
        condition != Condition::Nv,
    ensures
        exists|flags: Flags| condition_holds(flags, condition),
{
    let clear = Flags { n: false, z: false, c: false, v: false };
    let zero = Flags { z: true, ..clear };
    let carry = Flags { c: true, ..clear };
    let negative = Flags { n: true, ..clear };
    let overflow = Flags { v: true, ..clear };
    assert(condition_holds(clear, condition) || condition_holds(zero, condition)
        || condition_holds(carry, condition) || condition_holds(negative, condition)
        || condition_holds(overflow, condition));
}

/// Every condition but Always and Never fails under some flags.
pub proof fn lemma_condition_can_fail(condition: Condition)
    requires
        condition != Condition::Nv,
        condition != Condition::Al,
    ensures
        exists|flags: Flags| !condition_holds(flags, condition),
{
    let clear = Flags { n: false, z: false, c: false, v: false };
    let zero = Flags { z: true, ..clear };
    let carry = Flags { c: true, ..clear };
    let negative = Flags { n: true, ..clear };
    let overflow = Flags { v: true, ..clear };
    assert(!condition_holds(clear, condition) || !condition_holds(zero, condition)
        || !condition_holds(carry, condition) || !condition_holds(negative, condition)
        || !condition_holds(overflow, condition));
}

/// Every choice of the four flags is the flags of some status register
/// value: of any value whose flags were replaced by them.
pub proof fn lemma_flags_of_with_flags(psr: u32, flags: Flags)
    ensures
        flags_spec(with_flags_spec(psr, flags)) == flags,
{
    let n = psr.set_bit_spec(31, flags.n);
    let z = n.set_bit_spec(30, flags.z);
    let c = z.set_bit_spec(29, flags.c);
    lemma_bit_of_set_bit(psr, 31, flags.n, 31);
    lemma_bit_of_set_bit(n, 30, flags.z, 31);
    lemma_bit_of_set_bit(n, 30, flags.z, 30);
    lemma_bit_of_set_bit(z, 29, flags.c, 31);
    lemma_bit_of_set_bit(z, 29, flags.c, 30);
    lemma_bit_of_set_bit(z, 29, flags.c, 29);
    lemma_bit_of_set_bit(c, 28, flags.v, 31);
    lemma_bit_of_set_bit(c, 28, flags.v, 30);
    lemma_bit_of_set_bit(c, 28, flags.v, 29);
    lemma_bit_of_set_bit(c, 28, flags.v, 28);
}

/// For every condition but Never there is a status register value under
/// which an instruction with the condition executes, and for every condition
/// but Never and Always one under which it is skipped.
pub proof fn lemma_condition_is_decided_by_the_flags(condition: Condition)
    requires
        condition != Condition::Nv,
    ensures
        exists|cpsr: u32| condition_passed_spec(cpsr, condition),
        condition != Condition::Al ==> exists|cpsr: u32| !condition_passed_spec(cpsr, condition),
{
    lemma_condition_can_hold(condition);
    let holds = choose|flags: Flags| condition_holds(flags, condition);
    lemma_flags_of_with_flags(0, holds);
    assert(condition_passed_spec(with_flags_spec(0, holds), condition));
    if condition != Condition::Al {
        lemma_condition_can_fail(condition);
        let fails = choose|flags: Flags| !condition_holds(flags, condition);
        lemma_flags_of_with_flags(0, fails);
        assert(!condition_passed_spec(with_flags_spec(0, fails), condition));
    }
}

/// Bit 32 of a sum at full width: the carry out of bit 31.
pub open spec fn carry_from_spec(result_long: u64) -> bool {
    result_long & 0x1_0000_0000 == 0x1_0000_0000
}

/// Whether a sum at full width carried out of bit 31.
pub fn carry_from(result_long: u64) -> (carry: bool)
    ensures
        carry == carry_from_spec(result_long),
{
    result_long & 0x1_0000_0000 == 0x1_0000_0000
}

/// Whether `operand1 - operand2` needs a borrow.
pub fn borrow_from(operand1: u32, operand2: u32) -> (borrow: bool)
    ensures
        borrow == (operand1 - operand2 < 0),
{
    operand1 < operand2
}

/// The overflow flag of an addition with the given result: the operands
/// have the same sign and the result has the other.
pub open spec fn overflow_from_add_spec(operand1: u32, operand2: u32, result: u32) -> bool {
    operand1.bit_spec(31) == operand2.bit_spec(31) && result.bit_spec(31) != operand1.bit_spec(31)
}

/// The overflow flag of an addition with the given result.
pub fn overflow_from_add(operand1: u32, operand2: u32, result: u32) -> (overflow: bool)
    ensures
        overflow == overflow_from_add_spec(operand1, operand2, result),
{
    operand1.bit(31) == operand2.bit(31) && result.bit(31) != operand1.bit(31)
}

/// The overflow flag of a subtraction with the given result: the operands
/// differ in sign and the result has the sign of the second.
pub open spec fn overflow_from_sub_spec(operand1: u32, operand2: u32, result: u32) -> bool {
    operand1.bit_spec(31) != operand2.bit_spec(31) && result.bit_spec(31) != operand1.bit_spec(31)
}

/// The overflow flag of a subtraction with the given result.
pub fn overflow_from_sub(operand1: u32, operand2: u32, result: u32) -> (overflow: bool)
    ensures
        overflow == overflow_from_sub_spec(operand1, operand2, result),
{
    operand1.bit(31) != operand2.bit(31) && result.bit(31) != operand1.bit(31)
}

/// `operand`, a number of `size` bits in two's complement, as a word.
pub open spec fn sign_extend_spec(operand: u32, size: u8) -> u32 {
    if size >= 32 {
        operand
    } else if operand.bit_spec((size - 1) as u8) {
        operand | (0xFFFF_FFFFu32 << size)
    } else {
        operand & !(0xFFFF_FFFFu32 << size)
    }
}

/// Sign-extends a number of `size` bits to a word.
pub fn sign_extend(operand: u32, size: u8) -> (word: u32)
    requires
        1 <= size <= 32,
    ensures
        word == sign_extend_spec(operand, size),
{
    if size >= 32 {
        operand
    } else if operand.bit(size - 1) {
        operand | (0xFFFF_FFFFu32 << size)
    } else {
        operand & !(0xFFFF_FFFFu32 << size)
    }
}

proof fn lemma_extended_bits(x: u32, size: u8, i: u8)
    by (bit_vector)
    requires
        1 <= size < 32,
        i < 32,
    ensures
        ((x | (0xFFFF_FFFFu32 << size)) & (1u32 << i) != 0) == (i >= size || x & (1u32 << i) != 0),
        ((x & !(0xFFFF_FFFFu32 << size)) & (1u32 << i) != 0) == (i < size && x & (1u32 << i) != 0),
{
}

/// Bit `i` of a sign-extended number of `size` bits is its own bit `i`
/// below `size`, and its top bit from there on.
pub proof fn lemma_sign_extend_bits(operand: u32, size: u8, i: u8)
    requires
        1 <= size <= 32,
        i < 32,
    ensures
        sign_extend_spec(operand, size).bit_spec(i) == (if i < size {
            operand.bit_spec(i)
        } else {
            operand.bit_spec((size - 1) as u8)
        }),
{
    if size < 32 {
        lemma_extended_bits(operand, size, i);
    }
}

proof fn lemma_sign_and_carry_bits(x: u32, long: u64)
    by (bit_vector)
    ensures
        (x & (1u32 << 31u8) != 0) == (x >= 0x8000_0000u32),
        long < 0x2_0000_0000u64 ==> ((long & 0x1_0000_0000 == 0x1_0000_0000) == (long
            >= 0x1_0000_0000u64)),
{
}

/// The flags of an addition. The carry flag, bit 32 of the sum at full
/// width, is set exactly where the sum does not fit a word. The overflow
/// flag is set exactly where the sum of the operands as signed numbers does
/// not fit a signed word.
pub proof fn lemma_add_flags(a: u32, b: u32, carry: bool)
    ensures
        carry_from_spec((a + b + carry_value(carry)) as u64) == (a + b + carry_value(carry)
            >= WORD_RANGE),
        overflow_from_add_spec(a, b, ((a + b + carry_value(carry)) % (WORD_RANGE as int)) as u32)
            == !(-0x8000_0000 <= signed_spec(a) + signed_spec(b) + carry_value(carry)
            < 0x8000_0000),
{
    let sum = a + b + carry_value(carry);
    let result = (sum % (WORD_RANGE as int)) as u32;
    lemma_sign_and_carry_bits(a, sum as u64);
    lemma_sign_and_carry_bits(b, 0);
    lemma_sign_and_carry_bits(result, 0);
}

/// The overflow flag of a subtraction is set exactly where the difference
/// of the operands as signed numbers does not fit a signed word.
pub proof fn lemma_sub_flags(a: u32, b: u32, borrow: bool)
    ensures
        overflow_from_sub_spec(a, b, wrapping_difference_spec(a, b, borrow)) == !(
        -0x8000_0000 <= signed_spec(a) - signed_spec(b) - carry_value(borrow) < 0x8000_0000),
{
    let result = wrapping_difference_spec(a, b, borrow);
    lemma_sign_and_carry_bits(a, 0);
    lemma_sign_and_carry_bits(b, 0);
    lemma_sign_and_carry_bits(result, 0);
}

/// What the barrel shifter gives for an immediate operand: `value` rotated
/// right by twice `rotate`, and as carry the carry flag where `rotate` is
/// zero, else bit 31 of the operand.
pub open spec fn rotated_immediate_spec(value: u8, rotate: u8, c: bool) -> (u32, bool) {
    let operand = rotate_right_spec(value as u32, (2 * rotate) as u32);
    (
        operand,
        if rotate == 0 {
            c
        } else {
            operand.bit_spec(31)
        },
    )
}

/// What the barrel shifter gives for `rm` shifted by the immediate `amount`,
/// which is below 32. An amount of zero stands for no shift with a shift
/// left, for a shift by 32 with a shift right, and for the rotation through
/// the carry flag with a rotation.
pub open spec fn shift_by_immediate_spec(shift: ShiftDirection, rm: u32, amount: u32, c: bool) -> (
    u32,
    bool,
) {
    match shift {
        ShiftDirection::Lsl => if amount == 0 {
            (rm, c)
        } else {
            (rm << amount, rm.bit_spec((32 - amount) as u8))
        },
        ShiftDirection::Lsr => if amount == 0 {
            (0, rm.bit_spec(31))
        } else {
            (rm >> amount, rm.bit_spec((amount - 1) as u8))
        },
        ShiftDirection::Asr => if amount == 0 {
            (sign_fill_spec(rm), rm.bit_spec(31))
        } else {
            (arithmetic_shift_right_spec(rm, amount), rm.bit_spec((amount - 1) as u8))
        },
        ShiftDirection::Ror => if amount == 0 {
            rotate_extended_spec(rm, c)
        } else {
            (rotate_right_spec(rm, amount), rm.bit_spec((amount - 1) as u8))
        },
        ShiftDirection::Rrx => rotate_extended_spec(rm, c),
    }
}

/// `rm` rotated right by one bit through the carry flag: the flag comes in
/// at bit 31 and bit 0 goes out as carry.
pub open spec fn rotate_extended_spec(rm: u32, c: bool) -> (u32, bool) {
    (
        if c {
            0x8000_0000u32 | (rm >> 1u32)
        } else {
            rm >> 1u32
        },
        rm.bit_spec(0),
    )
}

/// What the barrel shifter gives for `rm` shifted by `amount`, the low byte
/// of a register. An amount of zero leaves the operand and the carry flag
/// as they are.
pub open spec fn shift_by_register_spec(shift: ShiftDirection, rm: u32, amount: u32, c: bool) -> (
    u32,
    bool,
) {
    if amount == 0 {
        (rm, c)
    } else {
        match shift {
            ShiftDirection::Lsl => if amount < 32 {
                (rm << amount, rm.bit_spec((32 - amount) as u8))
            } else if amount == 32 {
                (0, rm.bit_spec(0))
            } else {
                (0, false)
            },
            ShiftDirection::Lsr => if amount < 32 {
                (rm >> amount, rm.bit_spec((amount - 1) as u8))
            } else if amount == 32 {
                (0, rm.bit_spec(31))
            } else {
                (0, false)
            },
            ShiftDirection::Asr => if amount < 32 {
                (arithmetic_shift_right_spec(rm, amount), rm.bit_spec((amount - 1) as u8))
            } else {
                (sign_fill_spec(rm), rm.bit_spec(31))
            },
            ShiftDirection::Ror => if amount % 32 == 0 {
                (rm, rm.bit_spec(31))
            } else {
                (rotate_right_spec(rm, amount % 32), rm.bit_spec(((amount % 32) - 1) as u8))
            },
            ShiftDirection::Rrx => rotate_extended_spec(rm, c),
        }
    }
}

/// The operand and the carry that the barrel shifter gives for a
/// data-processing operand, from the registers and the carry flag.
pub open spec fn addr_mode_1_spec(registers: RegistersView, c: bool, address: AddressMode1) -> (
    u32,
    bool,
) {
    match address {
        AddressMode1::Immediate { value, rotate } => rotated_immediate_spec(value, rotate, c),
        AddressMode1::Shift { rm, shift, shift_imm } => match shift_imm {
            AddressingOffset::Immediate(amount) => shift_by_immediate_spec(
                shift,
                registers.read(rm),
                amount as u32,
                c,
            ),
            AddressingOffset::Register(rs) => shift_by_register_spec(
                shift,
                registers.read(rm),
                registers.read(rs).bits_spec(0..8),
                c,
            ),
            AddressingOffset::ScaledRegister { .. } => (registers.read(rm), c),
        },
    }
}

fn rotate_extended(rm: u32, c: bool) -> (out: (u32, bool))
    ensures
        out == rotate_extended_spec(rm, c),
{
    (
        if c {
            0x8000_0000u32 | (rm >> 1u32)
        } else {
            rm >> 1u32
        },
        rm.bit(0),
    )
}

fn shift_by_immediate(shift: ShiftDirection, rm: u32, amount: u32, c: bool) -> (out: (u32, bool))
    requires
        amount < 32,
    ensures
        out == shift_by_immediate_spec(shift, rm, amount, c),
{
    match shift {
        ShiftDirection::Lsl => if amount == 0 {
            (rm, c)
        } else {
            (rm << amount, rm.bit((32 - amount) as u8))
        },
        ShiftDirection::Lsr => if amount == 0 {
            (0, rm.bit(31))
        } else {
            (rm >> amount, rm.bit((amount - 1) as u8))
        },
        ShiftDirection::Asr => if amount == 0 {
            (sign_fill(rm), rm.bit(31))
        } else {
            (arithmetic_shift_right(rm, amount), rm.bit((amount - 1) as u8))
        },
        ShiftDirection::Ror => if amount == 0 {
            rotate_extended(rm, c)
        } else {
            (rotate_right(rm, amount), rm.bit((amount - 1) as u8))
        },
        ShiftDirection::Rrx => rotate_extended(rm, c),
    }
}

fn shift_by_register(shift: ShiftDirection, rm: u32, amount: u32, c: bool) -> (out: (u32, bool))
    requires
        amount < 256,
    ensures
        out == shift_by_register_spec(shift, rm, amount, c),
{
    if amount == 0 {
        return (rm, c);
    }
    match shift {
        ShiftDirection::Lsl => if amount < 32 {
            (rm << amount, rm.bit((32 - amount) as u8))
        } else if amount == 32 {
            (0, rm.bit(0))
        } else {
            (0, false)
        },
        ShiftDirection::Lsr => if amount < 32 {
            (rm >> amount, rm.bit((amount - 1) as u8))
        } else if amount == 32 {
            (0, rm.bit(31))
        } else {
            (0, false)
        },
        ShiftDirection::Asr => if amount < 32 {
            (arithmetic_shift_right(rm, amount), rm.bit((amount - 1) as u8))
        } else {
            (sign_fill(rm), rm.bit(31))
        },
        ShiftDirection::Ror => {
            let turn = amount % 32;
            if turn == 0 {
                (rm, rm.bit(31))
            } else {
                (rotate_right(rm, turn), rm.bit((turn - 1) as u8))
            }
        },
        ShiftDirection::Rrx => rotate_extended(rm, c),
    }
}

proof fn lemma_low_byte_bound(x: u32)
    by (bit_vector)
    ensures
        (x >> 0u8) & !(0xFFFF_FFFFu32 << 8u8) < 256,
{
}

/// Evaluates a data-processing operand: the operand and the carry out of
/// the barrel shifter.
pub fn addr_mode_1(cpu: &Cpu, address: AddressMode1) -> (out: (u32, bool))
    requires
        address.wf(),
    ensures
        out == addr_mode_1_spec(cpu@.registers, flags_spec(cpu@.cpsr).c, address),
{
    let c = cpu.cpsr.c();
    match address {
        AddressMode1::Immediate { value, rotate } => {
            let operand = rotate_right(value as u32, 2 * (rotate as u32));
            (
                operand,
                if rotate == 0 {
                    c
                } else {
                    operand.bit(31)
                },
            )
        },
        AddressMode1::Shift { rm, shift, shift_imm } => {
            let rm_val = cpu.registers.read(rm);
            match shift_imm {
                AddressingOffset::Immediate(amount) => shift_by_immediate(
                    shift,
                    rm_val,
                    amount as u32,
                    c,
                ),
                AddressingOffset::Register(rs) => {
                    let rs_val = cpu.registers.read(rs);
                    proof {
                        lemma_low_byte_bound(rs_val);
                    }
                    shift_by_register(shift, rm_val, rs_val.bits(0..8), c)
                },
                AddressingOffset::ScaledRegister { .. } => (rm_val, c),
            }
        },
    }
}

/// The carry out of the barrel shifter. A shift left by zero, by immediate
/// or by register, gives the carry flag. A rotation by an immediate of zero
/// is the rotation through carry and gives bit 0 of the register. A shift
/// right by an immediate of zero is a shift by 32: the operand is zero and
/// the carry is bit 31 of the register.
pub proof fn lemma_shifter_carry(rm: u32, c: bool)
    ensures
        shift_by_immediate_spec(ShiftDirection::Lsl, rm, 0, c) == (rm, c),
        shift_by_register_spec(ShiftDirection::Lsl, rm, 0, c) == (rm, c),
        shift_by_immediate_spec(ShiftDirection::Ror, rm, 0, c).1 == rm.bit_spec(0),
        shift_by_immediate_spec(ShiftDirection::Rrx, rm, 0, c).1 == rm.bit_spec(0),
        shift_by_immediate_spec(ShiftDirection::Lsr, rm, 0, c) == (0u32, rm.bit_spec(31)),
{
}

/// The same of whole operands: what the shifter gives for register `rm`
/// shifted left by an immediate of zero, rotated through carry, and shifted
/// right by an immediate of zero.
pub proof fn lemma_shifter_carry_of_operands(registers: RegistersView, c: bool, rm: Register)
    ensures
        addr_mode_1_spec(
            registers,
            c,
            AddressMode1::Shift {
                rm,
                shift: ShiftDirection::Lsl,
                shift_imm: AddressingOffset::Immediate(0),
            },
        ) == (registers.read(rm), c),
        addr_mode_1_spec(
            registers,
            c,
            AddressMode1::Shift {
                rm,
                shift: ShiftDirection::Rrx,
                shift_imm: AddressingOffset::Immediate(0),
            },
        ).1 == registers.read(rm).bit_spec(0),
        addr_mode_1_spec(
            registers,
            c,
            AddressMode1::Shift {
                rm,
                shift: ShiftDirection::Lsr,
                shift_imm: AddressingOffset::Immediate(0),
            },
        ) == (0u32, registers.read(rm).bit_spec(31)),
{
}

/// Where a transfer reads or writes, and what becomes of its base register.
#[derive(Clone, Copy, PartialEq, Eq, Structural, Debug)]
pub struct Access {
    /// The address of the transfer.
    pub address: u32,
    /// The new value of the base register, where the addressing writes one.
    pub writeback: Option<u32>,
}

/// The access of a transfer with the given base, offset, direction and
/// addressing: the base moved by the offset is the address unless the
/// addressing is post-indexed, and the new base unless it is plain offset
/// addressing.
pub open spec fn access_spec(
    base: u32,
    offset: u32,
    up: bool,
    addressing: AddressingMode,
) -> Access {
    let moved = if up {
        wrapping_add(base, offset)
    } else {
        wrapping_sub(base, offset)
    };
    match addressing {
        AddressingMode::Offset => Access { address: moved, writeback: None },
        AddressingMode::PreIndexed => Access { address: moved, writeback: Some(moved) },
        AddressingMode::PostIndexed => Access { address: base, writeback: Some(moved) },
    }
}

fn access(base: u32, offset: u32, up: bool, addressing: AddressingMode) -> (a: Access)
    ensures
        a == access_spec(base, offset, up, addressing),
{
    let moved = if up {
        base.wrapping_add(offset)
    } else {
        base.wrapping_sub(offset)
    };
    match addressing {
        AddressingMode::Offset => Access { address: moved, writeback: None },
        AddressingMode::PreIndexed => Access { address: moved, writeback: Some(moved) },
        AddressingMode::PostIndexed => Access { address: base, writeback: Some(moved) },
    }
}

/// The value of the offset of a word or byte transfer. A shifted register
/// goes through the barrel shifter as one shifted by an immediate does.
pub open spec fn offset_value_spec(
    registers: RegistersView,
    c: bool,
    offset: AddressingOffset,
) -> u32 {
    match offset {
        AddressingOffset::Immediate(value) => value as u32,
        AddressingOffset::Register(rm) => registers.read(rm),
        AddressingOffset::ScaledRegister { rm, shift, shift_imm } => shift_by_immediate_spec(
            shift,
            registers.read(rm),
            shift_imm as u32,
            c,
        ).0,
    }
}

/// The access of a word or byte transfer.
pub open spec fn addr_mode_2_spec(
    registers: RegistersView,
    c: bool,
    address: AddressMode2,
) -> Access {
    access_spec(
        registers.read(address.rn),
        offset_value_spec(registers, c, address.offset),
        address.u,
        address.addressing,
    )
}

/// The access of a halfword or signed byte transfer.
pub open spec fn addr_mode_3_spec(
    registers: RegistersView,
    c: bool,
    address: AddressMode3,
) -> Access {
    access_spec(
        registers.read(address.rn),
        offset_value_spec(registers, c, address.offset),
        address.u,
        address.addressing,
    )
}

fn offset_value(cpu: &Cpu, offset: AddressingOffset) -> (value: u32)
    requires
        offset.is_word_offset(),
    ensures
        value == offset_value_spec(cpu@.registers, flags_spec(cpu@.cpsr).c, offset),
{
    match offset {
        AddressingOffset::Immediate(value) => value as u32,
        AddressingOffset::Register(rm) => cpu.registers.read(rm),
        AddressingOffset::ScaledRegister { rm, shift, shift_imm } => shift_by_immediate(
            shift,
            cpu.registers.read(rm),
            shift_imm as u32,
            cpu.cpsr.c(),
        ).0,
    }
}

/// Evaluates the address of a word or byte transfer. The base register is
/// left alone: its new value is part of the result.
pub fn addr_mode_2(cpu: &Cpu, address: AddressMode2) -> (a: Access)
    requires
        address.wf(),
    ensures
        a == addr_mode_2_spec(cpu@.registers, flags_spec(cpu@.cpsr).c, address),
{
    let offset = offset_value(cpu, address.offset);
    access(cpu.registers.read(address.rn), offset, address.u, address.addressing)
}

/// Evaluates the address of a halfword or signed byte transfer. The base
/// register is left alone: its new value is part of the result.
pub fn addr_mode_3(cpu: &Cpu, address: AddressMode3) -> (a: Access)
    requires
        address.wf(),
    ensures
        a == addr_mode_3_spec(cpu@.registers, flags_spec(cpu@.cpsr).c, address),
{
    let offset = offset_value(cpu, address.offset);
    access(cpu.registers.read(address.rn), offset, address.u, address.addressing)
}

/// The operation of a data-processing instruction.
#[derive(Clone, Copy, PartialEq, Eq, Structural, Debug)]
pub enum Operation {
    And,
    Eor,
    Sub,
    Rsb,
    Add,
    Adc,
    Sbc,
    Rsc,
    Tst,
    Teq,
    Cmp,
    Cmn,
    Orr,
    Mov,
    Bic,
    Mvn,
}

impl Operation {
    /// Whether the operation writes its result to a register. The four
    /// that only set flags do not.
    pub open spec fn writes_spec(self) -> bool {
        !(self == Operation::Tst || self == Operation::Teq || self == Operation::Cmp || self
            == Operation::Cmn)
    }

    /// Whether the operation writes its result to a register.
    pub fn writes(self) -> (writes: bool)
        ensures
            writes == self.writes_spec(),
    {
        match self {
            Operation::Tst | Operation::Teq | Operation::Cmp | Operation::Cmn => false,
            _ => true,
        }
    }
}

/// The result and the flags of a bitwise operation: N and Z from the
/// result, C from the barrel shifter, V as it was.
pub open spec fn logical_spec(result: u32, shifter_carry: bool, old: Flags) -> (u32, Flags) {
    (result, Flags { n: result.bit_spec(31), z: result == 0, c: shifter_carry, v: old.v })
}

/// The result and the flags of `a + b + carry`: the sum is taken at full
/// width, N and Z come from its low word, C is its bit 32, V says that the
/// operands agree in sign and the result does not.
pub open spec fn sum_spec(a: u32, b: u32, carry: bool) -> (u32, Flags) {
    let long = (a + b + carry_value(carry)) as u64;
    let result = (long % WORD_RANGE) as u32;
    (
        result,
        Flags {
            n: result.bit_spec(31),
            z: result == 0,
            c: carry_from_spec(long),
            v: overflow_from_add_spec(a, b, result),
        },
    )
}

/// The result and the flags of `a - b - borrow`: N and Z come from the
/// result, C says that no borrow was needed, V says that the operands differ
/// in sign and the result has the sign of `b`.
pub open spec fn difference_spec(a: u32, b: u32, borrow: bool) -> (u32, Flags) {
    let result = wrapping_difference_spec(a, b, borrow);
    (
        result,
        Flags {
            n: result.bit_spec(31),
            z: result == 0,
            c: a - b - carry_value(borrow) >= 0,
            v: overflow_from_sub_spec(a, b, result),
        },
    )
}

/// The result and the flags of a data-processing operation on the register
/// value `a` and the operand `b`, under the flags `old` and with the carry
/// `shifter_carry` out of the barrel shifter.
pub open spec fn alu_spec(op: Operation, a: u32, b: u32, shifter_carry: bool, old: Flags) -> (
    u32,
    Flags,
) {
    match op {
        Operation::And | Operation::Tst => logical_spec(a & b, shifter_carry, old),
        Operation::Eor | Operation::Teq => logical_spec(a ^ b, shifter_carry, old),
        Operation::Orr => logical_spec(a | b, shifter_carry, old),
        Operation::Bic => logical_spec(a & !b, shifter_carry, old),
        Operation::Mov => logical_spec(b, shifter_carry, old),
        Operation::Mvn => logical_spec(!b, shifter_carry, old),
        Operation::Add | Operation::Cmn => sum_spec(a, b, false),
        Operation::Adc => sum_spec(a, b, old.c),
        Operation::Sub | Operation::Cmp => difference_spec(a, b, false),
        Operation::Rsb => difference_spec(b, a, false),
        Operation::Sbc => difference_spec(a, b, !old.c),
        Operation::Rsc => difference_spec(b, a, !old.c),
    }
}

fn logical(result: u32, shifter_carry: bool, old: Flags) -> (out: (u32, Flags))
    ensures
        out == logical_spec(result, shifter_carry, old),
{
    (result, Flags { n: result.bit(31), z: result == 0, c: shifter_carry, v: old.v })
}

fn sum(a: u32, b: u32, carry: bool) -> (out: (u32, Flags))
    ensures
        out == sum_spec(a, b, carry),
{
    let result_long = wide_sum(a, b, carry);
    let result = low_word(result_long);
    (
        result,
        Flags {
            n: result.bit(31),
            z: result == 0,
            c: carry_from(result_long),
            v: overflow_from_add(a, b, result),
        },
    )
}

fn difference(a: u32, b: u32, borrow: bool) -> (out: (u32, Flags))
    ensures
        out == difference_spec(a, b, borrow),
{
    let result = wrapping_difference(a, b, borrow);
    (
        result,
        Flags {
            n: result.bit(31),
            z: result == 0,
            c: !(borrow_from(a, b) || (borrow && a == b)),
            v: overflow_from_sub(a, b, result),
        },
    )
}

/// Computes the result and the flags of a data-processing operation.
pub fn alu(op: Operation, a: u32, b: u32, shifter_carry: bool, old: Flags) -> (out: (u32, Flags))
    ensures
        out == alu_spec(op, a, b, shifter_carry, old),
{
    match op {
        Operation::And | Operation::Tst => logical(a & b, shifter_carry, old),
        Operation::Eor | Operation::Teq => logical(a ^ b, shifter_carry, old),
        Operation::Orr => logical(a | b, shifter_carry, old),
        Operation::Bic => logical(a & !b, shifter_carry, old),
        Operation::Mov => logical(b, shifter_carry, old),
        Operation::Mvn => logical(!b, shifter_carry, old),
        Operation::Add | Operation::Cmn => sum(a, b, false),
        Operation::Adc => sum(a, b, old.c),
        Operation::Sub | Operation::Cmp => difference(a, b, false),
        Operation::Rsb => difference(b, a, false),
        Operation::Sbc => difference(a, b, !old.c),
        Operation::Rsc => difference(b, a, !old.c),
    }
}

proof fn lemma_status_bits(x: u32, n: bool, z: bool, c: bool, v: bool, t: bool, field: u32)
    by (bit_vector)
    requires
        field < 32,
    ensures
        ({
            let a = if n {
                x | (1u32 << 31u8)
            } else {
                x & !(1u32 << 31u8)
            };
            let b = if z {
                a | (1u32 << 30u8)
            } else {
                a & !(1u32 << 30u8)
            };
            let d = if c {
                b | (1u32 << 29u8)
            } else {
                b & !(1u32 << 29u8)
            };
            let e = if v {
                d | (1u32 << 28u8)
            } else {
                d & !(1u32 << 28u8)
            };
            (e >> 0u8) & !(0xFFFF_FFFFu32 << 5u8) == (x >> 0u8) & !(0xFFFF_FFFFu32 << 5u8)
        }),
        ((x | (1u32 << 5u8)) >> 0u8) & !(0xFFFF_FFFFu32 << 5u8) == (x >> 0u8) & !(0xFFFF_FFFFu32
            << 5u8),
        ((x & !(1u32 << 5u8)) >> 0u8) & !(0xFFFF_FFFFu32 << 5u8) == (x >> 0u8) & !(0xFFFF_FFFFu32
            << 5u8),
        ({
            let m = !(0xFFFF_FFFFu32 << 5u8);
            let a = (x & !(m << 0u8)) | ((field & m) << 0u8);
            let b = a & !(1u32 << 5u8);
            let d = b | (1u32 << 7u8);
            (d >> 0u8) & m == field
        }),
{
}

/// Replacing the condition flags of a status register value, or its Thumb
/// bit, leaves its mode.
pub proof fn lemma_flags_keep_mode(psr: u32, flags: Flags, t: bool)
    ensures
        psr_mode(with_flags_spec(psr, flags)) == psr_mode(psr),
        psr_mode(psr.set_bit_spec(5, t)) == psr_mode(psr),
{
    lemma_status_bits(psr, flags.n, flags.z, flags.c, flags.v, t, 0);
}

/// Whatever the condition flags of a status register value are replaced
/// by, its mode stays.
pub proof fn lemma_any_flags_keep_mode(psr: u32)
    ensures
        forall|flags: Flags| psr_mode(#[trigger] with_flags_spec(psr, flags)) == psr_mode(psr),
{
    assert forall|flags: Flags| psr_mode(#[trigger] with_flags_spec(psr, flags)) == psr_mode(
        psr,
    ) by {
        lemma_flags_keep_mode(psr, flags, false);
    }
}

impl CpuView {
    /// The condition flags.
    pub open spec fn flags(self) -> Flags {
        flags_spec(self.cpsr)
    }

    /// The operand and the shifter carry of a data-processing operand.
    pub open spec fn operand(self, address: AddressMode1) -> (u32, bool) {
        addr_mode_1_spec(self.registers, self.flags().c, address)
    }

    /// The processor after a branch: the signed offset, in words, is added
    /// to the program counter as it reads. With link, the link register gets
    /// the address of the instruction after the branch, which is the program
    /// counter as it reads less 4.
    pub open spec fn branch(self, l: bool, signed_immed: u32) -> CpuView {
        let pc = self.registers.read(Register(PC));
        let linked = if l {
            self.registers.write(Register(LR), wrapping_sub(pc, 4))
        } else {
            self.registers
        };
        CpuView {
            registers: linked.write(
                Register(PC),
                wrapping_add(pc, sign_extend_spec(signed_immed, 24) << 2u8),
            ),
            ..self
        }
    }

    /// The processor after a branch and exchange: the program counter gets
    /// `rm` without its bit 0, which becomes the Thumb bit.
    pub open spec fn branch_exchange(self, rm: Register) -> CpuView {
        let target = self.registers.read(rm);
        CpuView {
            registers: self.registers.write(Register(PC), target & 0xFFFF_FFFE),
            cpsr: self.cpsr.set_bit_spec(5, target.bit_spec(0)),
            ..self
        }
    }

    /// The processor after a data-processing instruction. An operation that
    /// only sets flags sets them. One that writes `rd` sets them where `set`
    /// is on; but where `rd` is the program counter and `set` is on, the saved
    /// status register becomes the current one, and the register file shows
    /// the bank of its mode. A saved status register without a legal mode
    /// stops the instruction before it changes anything.
    pub open spec fn data_processing(
        self,
        op: Operation,
        set: bool,
        rd: Register,
        rn: Register,
        operand2: AddressMode1,
    ) -> (CpuView, Result<(), ExecuteError>) {
        let (b, carry) = self.operand(operand2);
        let (result, flags) = alu_spec(op, self.registers.read(rn), b, carry, self.flags());
        if !op.writes_spec() {
            (CpuView { cpsr: with_flags_spec(self.cpsr, flags), ..self }, Ok(()))
        } else if set && rd == Register(PC) {
            match psr_mode(self.spsr) {
                None => (self, Err(ExecuteError::Unpredictable)),
                Some(mode) => (
                    CpuView {
                        registers: self.registers.write(rd, result).set_mode(mode),
                        cpsr: self.spsr,
                        ..self
                    },
                    Ok(()),
                ),
            }
        } else if set {
            (
                CpuView {
                    registers: self.registers.write(rd, result),
                    cpsr: with_flags_spec(self.cpsr, flags),
                    ..self
                },
                Ok(()),
            )
        } else {
            (CpuView { registers: self.registers.write(rd, result), ..self }, Ok(()))
        }
    }

    /// The processor after a multiply: `rd` gets the low word of `rm * rs`,
    /// plus the accumulator where there is one. Where `set` is on, N and Z
    /// follow the result.
    pub open spec fn multiply(
        self,
        set: bool,
        rd: Register,
        rm: Register,
        rs: Register,
        accumulator: Option<Register>,
    ) -> CpuView {
        let product = ((self.registers.read(rm) * self.registers.read(rs)) % (
        WORD_RANGE as int)) as u32;
        let result = match accumulator {
            Some(rn) => wrapping_add(product, self.registers.read(rn)),
            None => product,
        };
        CpuView {
            registers: self.registers.write(rd, result),
            cpsr: if set {
                with_flags_spec(
                    self.cpsr,
                    Flags { n: result.bit_spec(31), z: result == 0, ..self.flags() },
                )
            } else {
                self.cpsr
            },
            ..self
        }
    }

    /// The 64 bit result of a long multiply, as a number from zero up: the
    /// product of `rm` and `rs`, signed or unsigned, plus the value of the
    /// register pair where `accumulate` is on, cut to 64 bits.
    pub open spec fn long_product(
        self,
        signed: bool,
        accumulate: bool,
        rd_lo: Register,
        rd_hi: Register,
        rm: Register,
        rs: Register,
    ) -> int {
        let a = self.registers.read(rm);
        let b = self.registers.read(rs);
        let product = if signed {
            twos_complement_spec(signed_spec(a) * signed_spec(b))
        } else {
            a * b
        };
        if accumulate {
            (product + (self.registers.read(rd_hi) * WORD_RANGE + self.registers.read(rd_lo)))
                % 0x1_0000_0000_0000_0000
        } else {
            product
        }
    }

    /// The processor after a long multiply: `rd_lo` gets the low word and
    /// `rd_hi` the high word of the result. Where `set` is on, N is bit 63 of
    /// the result and Z says that it is zero.
    pub open spec fn multiply_long(
        self,
        signed: bool,
        accumulate: bool,
        set: bool,
        rd_lo: Register,
        rd_hi: Register,
        rm: Register,
        rs: Register,
    ) -> CpuView {
        let value = self.long_product(signed, accumulate, rd_lo, rd_hi, rm, rs);
        let low = (value % (WORD_RANGE as int)) as u32;
        let high = (value / (WORD_RANGE as int)) as u32;
        CpuView {
            registers: self.registers.write(rd_lo, low).write(rd_hi, high),
            cpsr: if set {
                with_flags_spec(
                    self.cpsr,
                    Flags { n: high.bit_spec(31), z: high == 0 && low == 0, ..self.flags() },
                )
            } else {
                self.cpsr
            },
            ..self
        }
    }

    /// The processor after a move from a status register.
    pub open spec fn status_read(self, r: bool, rd: Register) -> CpuView {
        CpuView {
            registers: self.registers.write(
                rd,
                if r {
                    self.spsr
                } else {
                    self.cpsr
                },
            ),
            ..self
        }
    }

    /// The processor after a move to a status register. A write to the
    /// saved one does nothing in a mode that has none. Of the current one,
    /// only the flags byte can be written in User mode. A write that would
    /// leave the current status register without a legal mode stops the
    /// instruction before it changes anything.
    pub open spec fn status_write(
        self,
        c: bool,
        x: bool,
        s: bool,
        f: bool,
        r: bool,
        address: AddressMode1,
    ) -> (CpuView, Result<(), ExecuteError>) {
        let operand = self.operand(address).0;
        let privileged = psr_mode(self.cpsr) != Some(Mode::User);
        let has_spsr = privileged && psr_mode(self.cpsr) != Some(Mode::System);
        if r {
            if has_spsr {
                (
                    CpuView { spsr: fields_written_spec(self.spsr, c, x, s, f, operand), ..self },
                    Ok(()),
                )
            } else {
                (self, Ok(()))
            }
        } else {
            let cpsr = fields_written_spec(
                self.cpsr,
                c && privileged,
                x && privileged,
                s && privileged,
                f,
                operand,
            );
            match psr_mode(cpsr) {
                None => (self, Err(ExecuteError::Unpredictable)),
                Some(mode) => (
                    CpuView { registers: self.registers.set_mode(mode), cpsr, ..self },
                    Ok(()),
                ),
            }
        }
    }

    /// The processor after it took an exception: the register file shows
    /// the bank of `mode`, whose link register gets `link`; the current status
    /// register is saved, and gets the mode, a clear Thumb bit and a set I
    /// bit; the program counter gets `vector`.
    pub open spec fn exception(self, mode: Mode, vector: u32, link: u32) -> CpuView {
        CpuView {
            registers: self.registers.set_mode(mode).write(Register(LR), link).write(
                Register(PC),
                vector,
            ),
            cpsr: self.cpsr.set_bits_spec(0..5, mode.encoding_spec()).set_bit_spec(
                5,
                false,
            ).set_bit_spec(7, true),
            spsr: self.cpsr,
            ..self
        }
    }

    /// The address of the instruction after the one that executes: the
    /// program counter as it reads, less 4.
    pub open spec fn next_instruction(self) -> u32 {
        wrapping_sub(self.registers.read(Register(PC)), 4)
    }
}

/// A status register value with the bytes that `c`, `x`, `s` and `f` select,
/// from the lowest up, replaced by those of `operand`.
pub open spec fn fields_written_spec(
    psr: u32,
    c: bool,
    x: bool,
    s: bool,
    f: bool,
    operand: u32,
) -> u32 {
    let with_c = if c {
        psr.set_bits_spec(0..8, operand.bits_spec(0..8))
    } else {
        psr
    };
    let with_x = if x {
        with_c.set_bits_spec(8..16, operand.bits_spec(8..16))
    } else {
        with_c
    };
    let with_s = if s {
        with_x.set_bits_spec(16..24, operand.bits_spec(16..24))
    } else {
        with_x
    };
    if f {
        with_s.set_bits_spec(24..32, operand.bits_spec(24..32))
    } else {
        with_s
    }
}

fn write_fields(psr: &mut ProgramStatusRegister, c: bool, x: bool, s: bool, f: bool, operand: u32)
    ensures
        final(psr)@ == fields_written_spec(old(psr)@, c, x, s, f, operand),
{
    if c {
        psr.set_bits(0..8, operand.bits(0..8));
    }
    if x {
        psr.set_bits(8..16, operand.bits(8..16));
    }
    if s {
        psr.set_bits(16..24, operand.bits(16..24));
    }
    if f {
        psr.set_bits(24..32, operand.bits(24..32));
    }
}

fn branch(cpu: &mut Cpu, l: bool, signed_immed: u32)
    requires
        old(cpu)@.wf(),
    ensures
        final(cpu)@ == old(cpu)@.branch(l, signed_immed),
        final(cpu)@.wf(),
{
    let pc = cpu.registers.read(Register(PC));
    if l {
        cpu.registers.write(Register(LR), pc.wrapping_sub(4));
    }
    cpu.registers.write(Register(PC), pc.wrapping_add(sign_extend(signed_immed, 24) << 2u8));
}

fn branch_exchange(cpu: &mut Cpu, rm: Register)
    requires
        old(cpu)@.wf(),
        rm.wf(),
    ensures
        final(cpu)@ == old(cpu)@.branch_exchange(rm),
        final(cpu)@.wf(),
{
    let target = cpu.registers.read(rm);
    proof {
        lemma_flags_keep_mode(cpu@.cpsr, cpu@.flags(), target.bit_spec(0));
    }
    cpu.cpsr.set_t(target.bit(0));
    cpu.registers.write(Register(PC), target & 0xFFFF_FFFE);
}

fn data_processing(
    cpu: &mut Cpu,
    op: Operation,
    set: bool,
    rd: Register,
    rn: Register,
    operand2: AddressMode1,
) -> (r: Result<(), ExecuteError>)
    requires
        old(cpu)@.wf(),
        rd.wf(),
        rn.wf(),
        operand2.wf(),
    ensures
        (final(cpu)@, r) == old(cpu)@.data_processing(op, set, rd, rn, operand2),
        final(cpu)@.wf(),
{
    let (b, carry) = addr_mode_1(cpu, operand2);
    let (result, new_flags) = alu(op, cpu.registers.read(rn), b, carry, flags(&cpu.cpsr));
    proof {
        lemma_flags_keep_mode(cpu@.cpsr, new_flags, false);
    }
    if !op.writes() {
        set_flags(&mut cpu.cpsr, new_flags);
        Ok(())
    } else if set && rd.0 == PC {
        match cpu.spsr.mode() {
            None => Err(ExecuteError::Unpredictable),
            Some(mode) => {
                cpu.registers.write(rd, result);
                cpu.registers.set_mode(mode);
                cpu.cpsr = cpu.spsr;
                Ok(())
            },
        }
    } else {
        cpu.registers.write(rd, result);
        if set {
            set_flags(&mut cpu.cpsr, new_flags);
        }
        Ok(())
    }
}

fn multiply(
    cpu: &mut Cpu,
    set: bool,
    rd: Register,
    rm: Register,
    rs: Register,
    accumulator: Option<Register>,
)
    requires
        old(cpu)@.wf(),
        rd.wf(),
        rm.wf(),
        rs.wf(),
        accumulator matches Some(rn) ==> rn.wf(),
    ensures
        final(cpu)@ == old(cpu)@.multiply(set, rd, rm, rs, accumulator),
        final(cpu)@.wf(),
{
    let product = wrapping_product(cpu.registers.read(rm), cpu.registers.read(rs));
    let result = match accumulator {
        Some(rn) => product.wrapping_add(cpu.registers.read(rn)),
        None => product,
    };
    let old_flags = flags(&cpu.cpsr);
    let new_flags = Flags { n: result.bit(31), z: result == 0, c: old_flags.c, v: old_flags.v };
    proof {
        lemma_flags_keep_mode(cpu@.cpsr, new_flags, false);
    }
    cpu.registers.write(rd, result);
    if set {
        set_flags(&mut cpu.cpsr, new_flags);
    }
}

fn multiply_long(
    cpu: &mut Cpu,
    signed: bool,
    accumulate: bool,
    set: bool,
    rd_lo: Register,
    rd_hi: Register,
    rm: Register,
    rs: Register,
)
    requires
        old(cpu)@.wf(),
        rd_lo.wf(),
        rd_hi.wf(),
        rm.wf(),
        rs.wf(),
    ensures
        final(cpu)@ == old(cpu)@.multiply_long(signed, accumulate, set, rd_lo, rd_hi, rm, rs),
        final(cpu)@.wf(),
{
    let a = cpu.registers.read(rm);
    let b = cpu.registers.read(rs);
    let product = if signed {
        signed_product(a, b)
    } else {
        unsigned_product(a, b)
    };
    let value = if accumulate {
        wrapping_sum_long(
            product,
            join_words(cpu.registers.read(rd_hi), cpu.registers.read(rd_lo)),
        )
    } else {
        product
    };
    let low = low_word(value);
    let high = high_word(value);
    let old_flags = flags(&cpu.cpsr);
    let new_flags = Flags {
        n: high.bit(31),
        z: high == 0 && low == 0,
        c: old_flags.c,
        v: old_flags.v,
    };
    proof {
        lemma_flags_keep_mode(cpu@.cpsr, new_flags, false);
    }
    cpu.registers.write(rd_lo, low);
    cpu.registers.write(rd_hi, high);
    if set {
        set_flags(&mut cpu.cpsr, new_flags);
    }
}

fn status_read(cpu: &mut Cpu, r: bool, rd: Register)
    requires
        old(cpu)@.wf(),
        rd.wf(),
    ensures
        final(cpu)@ == old(cpu)@.status_read(r, rd),
        final(cpu)@.wf(),
{
    let value = if r {
        cpu.spsr.to_bits()
    } else {
        cpu.cpsr.to_bits()
    };
    cpu.registers.write(rd, value);
}

fn status_write(
    cpu: &mut Cpu,
    c: bool,
    x: bool,
    s: bool,
    f: bool,
    r: bool,
    address: AddressMode1,
) -> (result: Result<(), ExecuteError>)
    requires
        old(cpu)@.wf(),
        address.wf(),
    ensures
        (final(cpu)@, result) == old(cpu)@.status_write(c, x, s, f, r, address),
        final(cpu)@.wf(),
{
    let (operand, _) = addr_mode_1(cpu, address);
    if r {
        if cpu.cpsr.has_spsr() {
            write_fields(&mut cpu.spsr, c, x, s, f, operand);
        }
        Ok(())
    } else {
        let privileged = cpu.cpsr.is_priviledged();
        let mut cpsr = cpu.cpsr;
        write_fields(&mut cpsr, c && privileged, x && privileged, s && privileged, f, operand);
        match cpsr.mode() {
            None => Err(ExecuteError::Unpredictable),
            Some(mode) => {
                cpu.registers.set_mode(mode);
                cpu.cpsr = cpsr;
                Ok(())
            },
        }
    }
}

/// Takes an exception: switches to `mode`, saves the status register and
/// the return address `link`, disables interrupts, leaves Thumb state and
/// jumps to `vector`.
pub fn exception(cpu: &mut Cpu, mode: Mode, vector: u32, link: u32)
    requires
        old(cpu)@.wf(),
    ensures
        final(cpu)@ == old(cpu)@.exception(mode, vector, link),
        final(cpu)@.wf(),
{
    proof {
        lemma_status_bits(cpu@.cpsr, false, false, false, false, false, mode.encoding_spec());
    }
    cpu.spsr = cpu.cpsr;
    cpu.cpsr.set_mode(mode);
    cpu.cpsr.set_t(false);
    cpu.cpsr.set_i(true);
    cpu.registers.set_mode(mode);
    cpu.registers.write(Register(LR), link);
    cpu.registers.write(Register(PC), vector);
}

/// What a load reads and how it becomes a word.
#[derive(Clone, Copy, PartialEq, Eq, Structural, Debug)]
pub enum Load {
    /// A word, rotated right by eight times the low two bits of the address.
    Word,
    /// A byte, zero-extended.
    Byte,
    /// A halfword, zero-extended.
    Halfword,
    /// A byte, sign-extended.
    SignedByte,
    /// A halfword, sign-extended.
    SignedHalfword,
}

/// What a store writes of a register.
#[derive(Clone, Copy, PartialEq, Eq, Structural, Debug)]
pub enum Store {
    /// The whole word.
    Word,
    /// The low byte.
    Byte,
    /// The low halfword.
    Halfword,
}

/// The word that a load of `kind` at `address` gives.
pub open spec fn loaded_spec(memory: MemoryMapView, kind: Load, address: u32) -> Result<
    u32,
    Fault,
> {
    match kind {
        Load::Word => match memory.load_word(address) {
            Ok(word) => Ok(rotate_right_spec(word, (8 * (address % 4)) as u32)),
            Err(fault) => Err(fault),
        },
        Load::Byte => match memory.load_byte(address) {
            Ok(byte) => Ok(byte as u32),
            Err(fault) => Err(fault),
        },
        Load::Halfword => match memory.load_halfword(address) {
            Ok(halfword) => Ok(halfword as u32),
            Err(fault) => Err(fault),
        },
        Load::SignedByte => match memory.load_byte(address) {
            Ok(byte) => Ok(extend_byte_spec(byte)),
            Err(fault) => Err(fault),
        },
        Load::SignedHalfword => match memory.load_halfword(address) {
            Ok(halfword) => Ok(extend_halfword_spec(halfword)),
            Err(fault) => Err(fault),
        },
    }
}

/// The address space after a store of `kind` of `value` at `address`.
pub open spec fn stored_spec(
    memory: MemoryMapView,
    kind: Store,
    address: u32,
    value: u32,
) -> Result<MemoryMapView, Fault> {
    match kind {
        Store::Word => memory.store_word(address, value),
        Store::Byte => memory.store_byte(address, (value % 0x100) as u8),
        Store::Halfword => memory.store_halfword(address, (value % 0x1_0000) as u16),
    }
}

impl CpuView {
    /// The register file after the base register of a transfer got its new
    /// value, where the access has one.
    pub open spec fn written_back(self, base: Register, access: Access) -> RegistersView {
        match access.writeback {
            Some(value) => self.registers.write(base, value),
            None => self.registers,
        }
    }

    /// The processor after a load: the base register gets its new value,
    /// then `rd` gets the word that was read, without its low two bits where a
    /// word goes to the program counter. A fault stops the instruction before
    /// it changes anything.
    pub open spec fn load(self, kind: Load, rd: Register, base: Register, access: Access) -> (
        CpuView,
        Result<(), ExecuteError>,
    ) {
        match loaded_spec(self.memory, kind, access.address) {
            Err(fault) => (self, Err(ExecuteError::Fault(fault))),
            Ok(value) => (
                CpuView {
                    registers: self.written_back(base, access).write(
                        rd,
                        if kind == Load::Word && rd == Register(PC) {
                            value & 0xFFFF_FFFC
                        } else {
                            value
                        },
                    ),
                    ..self
                },
                Ok(()),
            ),
        }
    }

    /// The processor after a store of `rd` as it was before the transfer:
    /// memory takes the value, then the base register gets its new value. A
    /// fault stops the instruction before it changes anything.
    pub open spec fn store(self, kind: Store, rd: Register, base: Register, access: Access) -> (
        CpuView,
        Result<(), ExecuteError>,
    ) {
        match stored_spec(self.memory, kind, access.address, self.registers.read(rd)) {
            Err(fault) => (self, Err(ExecuteError::Fault(fault))),
            Ok(memory) => (
                CpuView { registers: self.written_back(base, access), memory, ..self },
                Ok(()),
            ),
        }
    }

    /// The processor after a swap: memory at the address in `rn` takes `rm`,
    /// and `rd` gets what was there before; a byte where `byte` is on, else a
    /// word. A fault stops the instruction before it changes anything.
    pub open spec fn swap(self, byte: bool, rd: Register, rm: Register, rn: Register) -> (
        CpuView,
        Result<(), ExecuteError>,
    ) {
        let address = self.registers.read(rn);
        let kind = if byte {
            Store::Byte
        } else {
            Store::Word
        };
        let before = if byte {
            match self.memory.load_byte(address) {
                Ok(value) => Ok(value as u32),
                Err(fault) => Err(fault),
            }
        } else {
            self.memory.load_word(address)
        };
        match before {
            Err(fault) => (self, Err(ExecuteError::Fault(fault))),
            Ok(value) => match stored_spec(self.memory, kind, address, self.registers.read(rm)) {
                Err(fault) => (self, Err(ExecuteError::Fault(fault))),
                Ok(memory) => (
                    CpuView { registers: self.registers.write(rd, value), memory, ..self },
                    Ok(()),
                ),
            },
        }
    }
}

fn read_memory(cpu: &Cpu, kind: Load, address: u32) -> (r: Result<u32, Fault>)
    ensures
        r == loaded_spec(cpu@.memory, kind, address),
{
    match kind {
        Load::Word => match cpu.memory.read_word(address) {
            Ok(word) => Ok(rotate_right(word, 8 * (address % 4))),
            Err(fault) => Err(fault),
        },
        Load::Byte => match cpu.memory.read_byte(address) {
            Ok(byte) => Ok(widen_byte(byte)),
            Err(fault) => Err(fault),
        },
        Load::Halfword => match cpu.memory.read_halfword(address) {
            Ok(halfword) => Ok(widen_halfword(halfword)),
            Err(fault) => Err(fault),
        },
        Load::SignedByte => match cpu.memory.read_byte(address) {
            Ok(byte) => Ok(extend_byte(byte)),
            Err(fault) => Err(fault),
        },
        Load::SignedHalfword => match cpu.memory.read_halfword(address) {
            Ok(halfword) => Ok(extend_halfword(halfword)),
            Err(fault) => Err(fault),
        },
    }
}

fn write_memory(cpu: &mut Cpu, kind: Store, address: u32, value: u32) -> (r: Result<(), Fault>)
    ensures
        (match stored_spec(old(cpu)@.memory, kind, address, value) {
            Ok(memory) => r is Ok && final(cpu)@ == (CpuView { memory, ..old(cpu)@ }),
            Err(fault) => r == Err::<(), Fault>(fault) && final(cpu)@ == old(cpu)@,
        }),
{
    match kind {
        Store::Word => cpu.memory.write_word(address, value),
        Store::Byte => cpu.memory.write_byte(address, low_byte(value)),
        Store::Halfword => cpu.memory.write_halfword(address, low_halfword(value)),
    }
}

fn write_back(cpu: &mut Cpu, base: Register, access: Access)
    requires
        base.wf(),
    ensures
        final(cpu)@ == (CpuView { registers: old(cpu)@.written_back(base, access), ..old(cpu)@ }),
{
    match access.writeback {
        Some(value) => cpu.registers.write(base, value),
        None => {},
    }
}

fn load(cpu: &mut Cpu, kind: Load, rd: Register, base: Register, access: Access) -> (r: Result<
    (),
    ExecuteError,
>)
    requires
        old(cpu)@.wf(),
        rd.wf(),
        base.wf(),
    ensures
        (final(cpu)@, r) == old(cpu)@.load(kind, rd, base, access),
        final(cpu)@.wf(),
{
    match read_memory(cpu, kind, access.address) {
        Err(fault) => Err(ExecuteError::Fault(fault)),
        Ok(value) => {
            write_back(cpu, base, access);
            let word_to_pc = match kind {
                Load::Word => rd.0 == PC,
                _ => false,
            };
            cpu.registers.write(
                rd,
                if word_to_pc {
                    value & 0xFFFF_FFFC
                } else {
                    value
                },
            );
            Ok(())
        },
    }
}

fn store(cpu: &mut Cpu, kind: Store, rd: Register, base: Register, access: Access) -> (r: Result<
    (),
    ExecuteError,
>)
    requires
        old(cpu)@.wf(),
        rd.wf(),
        base.wf(),
    ensures
        (final(cpu)@, r) == old(cpu)@.store(kind, rd, base, access),
        final(cpu)@.wf(),
{
    let value = cpu.registers.read(rd);
    match write_memory(cpu, kind, access.address, value) {
        Err(fault) => Err(ExecuteError::Fault(fault)),
        Ok(()) => {
            write_back(cpu, base, access);
            Ok(())
        },
    }
}

fn swap(cpu: &mut Cpu, byte: bool, rd: Register, rm: Register, rn: Register) -> (r: Result<
    (),
    ExecuteError,
>)
    requires
        old(cpu)@.wf(),
        rd.wf(),
        rm.wf(),
        rn.wf(),
    ensures
        (final(cpu)@, r) == old(cpu)@.swap(byte, rd, rm, rn),
        final(cpu)@.wf(),
{
    let address = cpu.registers.read(rn);
    let before = if byte {
        match cpu.memory.read_byte(address) {
            Ok(value) => Ok(widen_byte(value)),
            Err(fault) => Err(fault),
        }
    } else {
        cpu.memory.read_word(address)
    };
    match before {
        Err(fault) => Err(ExecuteError::Fault(fault)),
        Ok(value) => {
            let kind = if byte {
                Store::Byte
            } else {
                Store::Word
            };
            let new = cpu.registers.read(rm);
            match write_memory(cpu, kind, address, new) {
                Err(fault) => Err(ExecuteError::Fault(fault)),
                Ok(()) => {
                    cpu.registers.write(rd, value);
                    Ok(())
                },
            }
        },
    }
}

/// Number of registers of `list` from register `from` up.
pub open spec fn listed_spec(list: u16, from: nat) -> nat
    decreases 16 - from,
{
    if from >= 16 {
        0
    } else if list.bit_spec(from as u8) {
        1 + listed_spec(list, from + 1)
    } else {
        listed_spec(list, from + 1)
    }
}

/// Counts the registers of a list.
pub fn listed(list: u16) -> (count: u32)
    ensures
        count == listed_spec(list, 0),
        count <= 16,
{
    let mut count: u32 = 0;
    let mut i: u8 = 0;
    while i < 16
        invariant
            i <= 16,
            count <= i,
            count + listed_spec(list, i as nat) == listed_spec(list, 0),
        decreases 16 - i,
    {
        if list.bit(i) {
            count = count + 1;
        }
        i = i + 1;
    }
    count
}

/// The lowest address of a block transfer of `count` registers, and the
/// new value of its base register. Upwards, the block starts at the base, or
/// one word above it where the address moves before each transfer, and the
/// base moves up by the size of the block. Downwards, the base moves down by
/// the size of the block, and the block starts there, or one word above
/// where the address moves after each transfer.
pub open spec fn block_bounds_spec(base: u32, count: u32, p: bool, u: bool) -> (u32, u32) {
    let size = (4 * count) as u32;
    if u {
        (
            if p {
                wrapping_add(base, 4)
            } else {
                base
            },
            wrapping_add(base, size),
        )
    } else {
        (
            if p {
                wrapping_sub(base, size)
            } else {
                wrapping_add(wrapping_sub(base, size), 4)
            },
            wrapping_sub(base, size),
        )
    }
}

fn block_bounds(base: u32, count: u32, p: bool, u: bool) -> (bounds: (u32, u32))
    requires
        count <= 16,
    ensures
        bounds == block_bounds_spec(base, count, p, u),
{
    let size = 4 * count;
    if u {
        (
            if p {
                base.wrapping_add(4)
            } else {
                base
            },
            base.wrapping_add(size),
        )
    } else {
        (
            if p {
                base.wrapping_sub(size)
            } else {
                base.wrapping_sub(size).wrapping_add(4)
            },
            base.wrapping_sub(size),
        )
    }
}

/// The register file after the registers of `list` from `from` up were
/// loaded, in ascending order, from ascending words of memory that start at
/// `address`. The registers are those that `mode` sees. A word that goes to
/// the program counter loses its low two bits.
pub open spec fn block_loaded_spec(
    memory: MemoryMapView,
    registers: RegistersView,
    mode: Mode,
    list: u16,
    from: nat,
    address: u32,
) -> Result<RegistersView, Fault>
    decreases 16 - from,
{
    if from >= 16 {
        Ok(registers)
    } else if list.bit_spec(from as u8) {
        match memory.load_word(address) {
            Err(fault) => Err(fault),
            Ok(word) => block_loaded_spec(
                memory,
                registers.write_in(
                    mode,
                    Register(from as u32),
                    if from == 15 {
                        word & 0xFFFF_FFFC
                    } else {
                        word
                    },
                ),
                mode,
                list,
                from + 1,
                wrapping_add(address, 4),
            ),
        }
    } else {
        block_loaded_spec(memory, registers, mode, list, from + 1, address)
    }
}

/// The address space after the registers of `list` from `from` up, as
/// `mode` sees them, were stored in ascending order to ascending words that
/// start at `address`, and the fault that stopped the stores, if one did.
pub open spec fn block_stored_spec(
    memory: MemoryMapView,
    registers: RegistersView,
    mode: Mode,
    list: u16,
    from: nat,
    address: u32,
) -> (MemoryMapView, Option<Fault>)
    decreases 16 - from,
{
    if from >= 16 {
        (memory, None)
    } else if list.bit_spec(from as u8) {
        match memory.store_word(address, registers.read_in(mode, Register(from as u32))) {
            Err(fault) => (memory, Some(fault)),
            Ok(stored) => block_stored_spec(
                stored,
                registers,
                mode,
                list,
                from + 1,
                wrapping_add(address, 4),
            ),
        }
    } else {
        block_stored_spec(memory, registers, mode, list, from + 1, address)
    }
}

impl CpuView {
    /// The mode whose registers a block transfer moves: User for a transfer
    /// of the user bank, else the current one.
    pub open spec fn block_mode(self, user: bool) -> Mode {
        if user {
            Mode::User
        } else {
            self.registers.mode
        }
    }

    /// The processor after a block load. The base register gets its new
    /// value where the transfer writes back, then the listed registers are
    /// loaded. Where `restore` is on, the saved status register then becomes
    /// the current one. A fault, or a saved status register without a legal
    /// mode, stops the instruction before it changes anything.
    pub open spec fn block_load(self, block: BlockTransfer, user: bool, restore: bool) -> (
        CpuView,
        Result<(), ExecuteError>,
    ) {
        let (start, new_base) = block_bounds_spec(
            self.registers.read(block.rn),
            listed_spec(block.register_list, 0) as u32,
            block.p,
            block.u,
        );
        let based = if block.w {
            self.registers.write(block.rn, new_base)
        } else {
            self.registers
        };
        match block_loaded_spec(
            self.memory,
            based,
            self.block_mode(user),
            block.register_list,
            0,
            start,
        ) {
            Err(fault) => (self, Err(ExecuteError::Fault(fault))),
            Ok(registers) => if restore {
                match psr_mode(self.spsr) {
                    None => (self, Err(ExecuteError::Unpredictable)),
                    Some(mode) => (
                        CpuView { registers: registers.set_mode(mode), cpsr: self.spsr, ..self },
                        Ok(()),
                    ),
                }
            } else {
                (CpuView { registers, ..self }, Ok(()))
            },
        }
    }

    /// The processor after a block store. The listed registers are stored
    /// as they were before the transfer; then the base register gets its new
    /// value where the transfer writes back. A fault stops the instruction:
    /// the stores made before it stay, and no register changes.
    pub open spec fn block_store(self, block: BlockTransfer, user: bool) -> (
        CpuView,
        Result<(), ExecuteError>,
    ) {
        let (start, new_base) = block_bounds_spec(
            self.registers.read(block.rn),
            listed_spec(block.register_list, 0) as u32,
            block.p,
            block.u,
        );
        let (memory, fault) = block_stored_spec(
            self.memory,
            self.registers,
            self.block_mode(user),
            block.register_list,
            0,
            start,
        );
        match fault {
            Some(fault) => (CpuView { memory, ..self }, Err(ExecuteError::Fault(fault))),
            None => (
                CpuView {
                    registers: if block.w {
                        self.registers.write(block.rn, new_base)
                    } else {
                        self.registers
                    },
                    memory,
                    ..self
                },
                Ok(()),
            ),
        }
    }
}

#[verifier::loop_isolation(false)]
fn block_load(cpu: &mut Cpu, block: BlockTransfer, user: bool, restore: bool) -> (r: Result<
    (),
    ExecuteError,
>)
    requires
        old(cpu)@.wf(),
        block.wf(),
    ensures
        (final(cpu)@, r) == old(cpu)@.block_load(block, user, restore),
        final(cpu)@.wf(),
{
    let list = block.register_list;
    let mode = if user {
        Mode::User
    } else {
        cpu.registers.mode()
    };
    let base = cpu.registers.read(block.rn);
    let (start, new_base) = block_bounds(base, listed(list), block.p, block.u);
    let mut registers = cpu.registers;
    if block.w {
        registers.write(block.rn, new_base);
    }
    let ghost based = registers@;
    let mut address = start;
    let mut i: u8 = 0;
    while i < 16
        invariant
            i <= 16,
            *cpu == *old(cpu),
            registers@.wf(),
            registers@.mode == based.mode,
            block_loaded_spec(cpu@.memory, registers@, mode, list, i as nat, address)
                == block_loaded_spec(cpu@.memory, based, mode, list, 0, start),
        decreases 16 - i,
    {
        if list.bit(i) {
            match cpu.memory.read_word(address) {
                Err(fault) => {
                    return Err(ExecuteError::Fault(fault));
                },
                Ok(word) => {
                    registers.write_in(
                        mode,
                        Register(i as u32),
                        if i == 15 {
                            word & 0xFFFF_FFFC
                        } else {
                            word
                        },
                    );
                    address = address.wrapping_add(4);
                },
            }
        }
        i = i + 1;
    }
    if restore {
        match cpu.spsr.mode() {
            None => Err(ExecuteError::Unpredictable),
            Some(mode) => {
                registers.set_mode(mode);
                cpu.registers = registers;
                cpu.cpsr = cpu.spsr;
                Ok(())
            },
        }
    } else {
        cpu.registers = registers;
        Ok(())
    }
}

#[verifier::loop_isolation(false)]
fn block_store(cpu: &mut Cpu, block: BlockTransfer, user: bool) -> (r: Result<(), ExecuteError>)
    requires
        old(cpu)@.wf(),
        block.wf(),
    ensures
        (final(cpu)@, r) == old(cpu)@.block_store(block, user),
        final(cpu)@.wf(),
{
    let list = block.register_list;
    let mode = if user {
        Mode::User
    } else {
        cpu.registers.mode()
    };
    let base = cpu.registers.read(block.rn);
    let (start, new_base) = block_bounds(base, listed(list), block.p, block.u);
    let mut address = start;
    let mut i: u8 = 0;
    while i < 16
        invariant
            i <= 16,
            cpu@ == (CpuView { memory: cpu@.memory, ..old(cpu)@ }),
            block_stored_spec(cpu@.memory, cpu@.registers, mode, list, i as nat, address)
                == block_stored_spec(old(cpu)@.memory, old(cpu)@.registers, mode, list, 0, start),
        decreases 16 - i,
    {
        if list.bit(i) {
            let value = cpu.registers.read_in(mode, Register(i as u32));
            match cpu.memory.write_word(address, value) {
                Err(fault) => {
                    return Err(ExecuteError::Fault(fault));
                },
                Ok(()) => {
                    address = address.wrapping_add(4);
                },
            }
        }
        i = i + 1;
    }
    if block.w {
        cpu.registers.write(block.rn, new_base);
    }
    Ok(())
}

/// The parts of a data-processing instruction.
pub struct DataProcessing {
    pub op: Operation,
    /// Whether the instruction sets the flags. One that only sets flags
    /// always does.
    pub set: bool,
    /// The destination. Register 0 stands in where the operation writes
    /// none.
    pub rd: Register,
    /// The first operand. Register 0 stands in where the operation takes
    /// none.
    pub rn: Register,
    pub operand2: AddressMode1,
}

/// The parts of `inst` where it is a data-processing instruction.
pub open spec fn data_processing_parts(inst: Instruction) -> Option<DataProcessing> {
    match inst {
        Instruction::And { s, rd, rn, operand2, .. } => Some(
            DataProcessing { op: Operation::And, set: s, rd, rn, operand2 },
        ),
        Instruction::Eor { s, rd, rn, operand2, .. } => Some(
            DataProcessing { op: Operation::Eor, set: s, rd, rn, operand2 },
        ),
        Instruction::Sub { s, rd, rn, operand2, .. } => Some(
            DataProcessing { op: Operation::Sub, set: s, rd, rn, operand2 },
        ),
        Instruction::Rsb { s, rd, rn, operand2, .. } => Some(
            DataProcessing { op: Operation::Rsb, set: s, rd, rn, operand2 },
        ),
        Instruction::Add { s, rd, rn, operand2, .. } => Some(
            DataProcessing { op: Operation::Add, set: s, rd, rn, operand2 },
        ),
        Instruction::Adc { s, rd, rn, operand2, .. } => Some(
            DataProcessing { op: Operation::Adc, set: s, rd, rn, operand2 },
        ),
        Instruction::Sbc { s, rd, rn, operand2, .. } => Some(
            DataProcessing { op: Operation::Sbc, set: s, rd, rn, operand2 },
        ),
        Instruction::Rsc { s, rd, rn, operand2, .. } => Some(
            DataProcessing { op: Operation::Rsc, set: s, rd, rn, operand2 },
        ),
        Instruction::Tst { rn, operand2, .. } => Some(
            DataProcessing { op: Operation::Tst, set: true, rd: Register(0), rn, operand2 },
        ),
        Instruction::Teq { rn, operand2, .. } => Some(
            DataProcessing { op: Operation::Teq, set: true, rd: Register(0), rn, operand2 },
        ),
        Instruction::Cmp { rn, operand2, .. } => Some(
            DataProcessing { op: Operation::Cmp, set: true, rd: Register(0), rn, operand2 },
        ),
        Instruction::Cmn { rn, operand2, .. } => Some(
            DataProcessing { op: Operation::Cmn, set: true, rd: Register(0), rn, operand2 },
        ),
        Instruction::Orr { s, rd, rn, operand2, .. } => Some(
            DataProcessing { op: Operation::Orr, set: s, rd, rn, operand2 },
        ),
        Instruction::Mov { s, rd, operand2, .. } => Some(
            DataProcessing { op: Operation::Mov, set: s, rd, rn: Register(0), operand2 },
        ),
        Instruction::Bic { s, rd, rn, operand2, .. } => Some(
            DataProcessing { op: Operation::Bic, set: s, rd, rn, operand2 },
        ),
        Instruction::Mvn { s, rd, operand2, .. } => Some(
            DataProcessing { op: Operation::Mvn, set: s, rd, rn: Register(0), operand2 },
        ),
        _ => None,
    }
}

fn find_data_processing_parts(inst: Instruction) -> (parts: Option<DataProcessing>)
    requires
        inst.wf(),
    ensures
        parts == data_processing_parts(inst),
        parts matches Some(p) ==> p.rd.wf() && p.rn.wf() && p.operand2.wf(),
{
    match inst {
        Instruction::And { s, rd, rn, operand2, .. } => Some(
            DataProcessing { op: Operation::And, set: s, rd, rn, operand2 },
        ),
        Instruction::Eor { s, rd, rn, operand2, .. } => Some(
            DataProcessing { op: Operation::Eor, set: s, rd, rn, operand2 },
        ),
        Instruction::Sub { s, rd, rn, operand2, .. } => Some(
            DataProcessing { op: Operation::Sub, set: s, rd, rn, operand2 },
        ),
        Instruction::Rsb { s, rd, rn, operand2, .. } => Some(
            DataProcessing { op: Operation::Rsb, set: s, rd, rn, operand2 },
        ),
        Instruction::Add { s, rd, rn, operand2, .. } => Some(
            DataProcessing { op: Operation::Add, set: s, rd, rn, operand2 },
        ),
        Instruction::Adc { s, rd, rn, operand2, .. } => Some(
            DataProcessing { op: Operation::Adc, set: s, rd, rn, operand2 },
        ),
        Instruction::Sbc { s, rd, rn, operand2, .. } => Some(
            DataProcessing { op: Operation::Sbc, set: s, rd, rn, operand2 },
        ),
        Instruction::Rsc { s, rd, rn, operand2, .. } => Some(
            DataProcessing { op: Operation::Rsc, set: s, rd, rn, operand2 },
        ),
        Instruction::Tst { rn, operand2, .. } => Some(
            DataProcessing { op: Operation::Tst, set: true, rd: Register(0), rn, operand2 },
        ),
        Instruction::Teq { rn, operand2, .. } => Some(
            DataProcessing { op: Operation::Teq, set: true, rd: Register(0), rn, operand2 },
        ),
        Instruction::Cmp { rn, operand2, .. } => Some(
            DataProcessing { op: Operation::Cmp, set: true, rd: Register(0), rn, operand2 },
        ),
        Instruction::Cmn { rn, operand2, .. } => Some(
            DataProcessing { op: Operation::Cmn, set: true, rd: Register(0), rn, operand2 },
        ),
        Instruction::Orr { s, rd, rn, operand2, .. } => Some(
            DataProcessing { op: Operation::Orr, set: s, rd, rn, operand2 },
        ),
        Instruction::Mov { s, rd, operand2, .. } => Some(
            DataProcessing { op: Operation::Mov, set: s, rd, rn: Register(0), operand2 },
        ),
        Instruction::Bic { s, rd, rn, operand2, .. } => Some(
            DataProcessing { op: Operation::Bic, set: s, rd, rn, operand2 },
        ),
        Instruction::Mvn { s, rd, operand2, .. } => Some(
            DataProcessing { op: Operation::Mvn, set: s, rd, rn: Register(0), operand2 },
        ),
        _ => None,
    }
}

/// What a transfer of a single register does.
#[derive(Clone, Copy, PartialEq, Eq, Structural, Debug)]
pub enum TransferKind {
    Load(Load),
    Store(Store),
}

/// The parts of a load or store of a single register.
pub struct Transfer {
    pub kind: TransferKind,
    /// The register that is loaded or stored.
    pub rd: Register,
    /// The base register.
    pub rn: Register,
    pub offset: AddressingOffset,
    pub addressing: AddressingMode,
    /// Whether the offset is added to the base.
    pub u: bool,
}

/// The parts of `inst` where it is a load or store of a single register.
/// A transfer with user access moves what the plain one moves.
pub open spec fn transfer_parts(inst: Instruction) -> Option<Transfer> {
    match inst {
        Instruction::Ldrh { rd, address, .. } => Some(
            Transfer {
                kind: TransferKind::Load(Load::Halfword),
                rd,
                rn: address.rn,
                offset: address.offset,
                addressing: address.addressing,
                u: address.u,
            },
        ),
        Instruction::Ldrsb { rd, address, .. } => Some(
            Transfer {
                kind: TransferKind::Load(Load::SignedByte),
                rd,
                rn: address.rn,
                offset: address.offset,
                addressing: address.addressing,
                u: address.u,
            },
        ),
        Instruction::Ldrsh { rd, address, .. } => Some(
            Transfer {
                kind: TransferKind::Load(Load::SignedHalfword),
                rd,
                rn: address.rn,
                offset: address.offset,
                addressing: address.addressing,
                u: address.u,
            },
        ),
        Instruction::Strh { rd, address, .. } => Some(
            Transfer {
                kind: TransferKind::Store(Store::Halfword),
                rd,
                rn: address.rn,
                offset: address.offset,
                addressing: address.addressing,
                u: address.u,
            },
        ),
        Instruction::Ldrbt { rd, address, .. } => Some(
            Transfer {
                kind: TransferKind::Load(Load::Byte),
                rd,
                rn: address.rn,
                offset: address.offset,
                addressing: address.addressing,
                u: address.u,
            },
        ),
        Instruction::Ldrt { rd, address, .. } => Some(
            Transfer {
                kind: TransferKind::Load(Load::Word),
                rd,
                rn: address.rn,
                offset: address.offset,
                addressing: address.addressing,
                u: address.u,
            },
        ),
        Instruction::Ldrb { rd, address, .. } => Some(
            Transfer {
                kind: TransferKind::Load(Load::Byte),
                rd,
                rn: address.rn,
                offset: address.offset,
                addressing: address.addressing,
                u: address.u,
            },
        ),
        Instruction::Ldr { rd, address, .. } => Some(
            Transfer {
                kind: TransferKind::Load(Load::Word),
                rd,
                rn: address.rn,
                offset: address.offset,
                addressing: address.addressing,
                u: address.u,
            },
        ),
        Instruction::Strbt { rd, address, .. } => Some(
            Transfer {
                kind: TransferKind::Store(Store::Byte),
                rd,
                rn: address.rn,
                offset: address.offset,
                addressing: address.addressing,
                u: address.u,
            },
        ),
        Instruction::Strt { rd, address, .. } => Some(
            Transfer {
                kind: TransferKind::Store(Store::Word),
                rd,
                rn: address.rn,
                offset: address.offset,
                addressing: address.addressing,
                u: address.u,
            },
        ),
        Instruction::Strb { rd, address, .. } => Some(
            Transfer {
                kind: TransferKind::Store(Store::Byte),
                rd,
                rn: address.rn,
                offset: address.offset,
                addressing: address.addressing,
                u: address.u,
            },
        ),
        Instruction::Str { rd, address, .. } => Some(
            Transfer {
                kind: TransferKind::Store(Store::Word),
                rd,
                rn: address.rn,
                offset: address.offset,
                addressing: address.addressing,
                u: address.u,
            },
        ),
        _ => None,
    }
}

fn find_transfer_parts(inst: Instruction) -> (parts: Option<Transfer>)
    requires
        inst.wf(),
    ensures
        parts == transfer_parts(inst),
        parts matches Some(t) ==> t.rd.wf() && t.rn.wf() && t.offset.is_word_offset(),
{
    match inst {
        Instruction::Ldrh { rd, address, .. } => Some(
            Transfer {
                kind: TransferKind::Load(Load::Halfword),
                rd,
                rn: address.rn,
                offset: address.offset,
                addressing: address.addressing,
                u: address.u,
            },
        ),
        Instruction::Ldrsb { rd, address, .. } => Some(
            Transfer {
                kind: TransferKind::Load(Load::SignedByte),
                rd,
                rn: address.rn,
                offset: address.offset,
                addressing: address.addressing,
                u: address.u,
            },
        ),
        Instruction::Ldrsh { rd, address, .. } => Some(
            Transfer {
                kind: TransferKind::Load(Load::SignedHalfword),
                rd,
                rn: address.rn,
                offset: address.offset,
                addressing: address.addressing,
                u: address.u,
            },
        ),
        Instruction::Strh { rd, address, .. } => Some(
            Transfer {
                kind: TransferKind::Store(Store::Halfword),
                rd,
                rn: address.rn,
                offset: address.offset,
                addressing: address.addressing,
                u: address.u,
            },
        ),
        Instruction::Ldrbt { rd, address, .. } => Some(
            Transfer {
                kind: TransferKind::Load(Load::Byte),
                rd,
                rn: address.rn,
                offset: address.offset,
                addressing: address.addressing,
                u: address.u,
            },
        ),
        Instruction::Ldrt { rd, address, .. } => Some(
            Transfer {
                kind: TransferKind::Load(Load::Word),
                rd,
                rn: address.rn,
                offset: address.offset,
                addressing: address.addressing,
                u: address.u,
            },
        ),
        Instruction::Ldrb { rd, address, .. } => Some(
            Transfer {
                kind: TransferKind::Load(Load::Byte),
                rd,
                rn: address.rn,
                offset: address.offset,
                addressing: address.addressing,
                u: address.u,
            },
        ),
        Instruction::Ldr { rd, address, .. } => Some(
            Transfer {
                kind: TransferKind::Load(Load::Word),
                rd,
                rn: address.rn,
                offset: address.offset,
                addressing: address.addressing,
                u: address.u,
            },
        ),
        Instruction::Strbt { rd, address, .. } => Some(
            Transfer {
                kind: TransferKind::Store(Store::Byte),
                rd,
                rn: address.rn,
                offset: address.offset,
                addressing: address.addressing,
                u: address.u,
            },
        ),
        Instruction::Strt { rd, address, .. } => Some(
            Transfer {
                kind: TransferKind::Store(Store::Word),
                rd,
                rn: address.rn,
                offset: address.offset,
                addressing: address.addressing,
                u: address.u,
            },
        ),
        Instruction::Strb { rd, address, .. } => Some(
            Transfer {
                kind: TransferKind::Store(Store::Byte),
                rd,
                rn: address.rn,
                offset: address.offset,
                addressing: address.addressing,
                u: address.u,
            },
        ),
        Instruction::Str { rd, address, .. } => Some(
            Transfer {
                kind: TransferKind::Store(Store::Word),
                rd,
                rn: address.rn,
                offset: address.offset,
                addressing: address.addressing,
                u: address.u,
            },
        ),
        _ => None,
    }
}

/// The vector of the undefined instruction exception.
pub const UNDEFINED_VECTOR: u32 = 0x04;

/// The vector of the software interrupt.
pub const SOFTWARE_INTERRUPT_VECTOR: u32 = 0x08;

/// The vector of the interrupt request.
pub const IRQ_VECTOR: u32 = 0x18;

impl CpuView {
    /// The processor after a load or store of a single register.
    pub open spec fn transfer(self, t: Transfer) -> (CpuView, Result<(), ExecuteError>) {
        let access = access_spec(
            self.registers.read(t.rn),
            offset_value_spec(self.registers, self.flags().c, t.offset),
            t.u,
            t.addressing,
        );
        match t.kind {
            TransferKind::Load(kind) => self.load(kind, t.rd, t.rn, access),
            TransferKind::Store(kind) => self.store(kind, t.rd, t.rn, access),
        }
    }

    /// The processor after a multiply instruction.
    pub open spec fn perform_multiply(self, inst: Instruction) -> CpuView {
        match inst {
            Instruction::Mul { s, rd, rm, rs, .. } => self.multiply(s, rd, rm, rs, None),
            Instruction::Mla { s, rd, rn, rm, rs, .. } => self.multiply(s, rd, rm, rs, Some(rn)),
            Instruction::Umull { s, rd_lo, rd_hi, rm, rs, .. } => self.multiply_long(
                false,
                false,
                s,
                rd_lo,
                rd_hi,
                rm,
                rs,
            ),
            Instruction::Umlal { s, rd_lo, rd_hi, rm, rs, .. } => self.multiply_long(
                false,
                true,
                s,
                rd_lo,
                rd_hi,
                rm,
                rs,
            ),
            Instruction::Smull { s, rd_lo, rd_hi, rm, rs, .. } => self.multiply_long(
                true,
                false,
                s,
                rd_lo,
                rd_hi,
                rm,
                rs,
            ),
            Instruction::Smlal { s, rd_lo, rd_hi, rm, rs, .. } => self.multiply_long(
                true,
                true,
                s,
                rd_lo,
                rd_hi,
                rm,
                rs,
            ),
            _ => self,
        }
    }

    /// The processor after a block transfer or a swap, and whether the
    /// instruction could execute.
    pub open spec fn perform_block(self, inst: Instruction) -> (CpuView, Result<(), ExecuteError>) {
        match inst {
            Instruction::Ldm1 { block, .. } => self.block_load(block, false, false),
            Instruction::Ldm2 { block, .. } => self.block_load(block, true, false),
            Instruction::Ldm3 { block, .. } => self.block_load(block, false, true),
            Instruction::Stm1 { block, .. } => self.block_store(block, false),
            Instruction::Stm2 { block, .. } => self.block_store(block, true),
            Instruction::Swpb { rd, rm, rn, .. } => self.swap(true, rd, rm, rn),
            Instruction::Swp { rd, rm, rn, .. } => self.swap(false, rd, rm, rn),
            _ => (self, Ok(())),
        }
    }

    /// The processor after a branch, a move from or to a status register, a
    /// software interrupt or a coprocessor instruction, and whether the
    /// instruction could execute. A software interrupt is an exception to
    /// Supervisor mode. There is no coprocessor: an instruction for one is an
    /// exception to Undefined mode. Either returns to the next instruction.
    pub open spec fn perform_control(self, inst: Instruction) -> (
        CpuView,
        Result<(), ExecuteError>,
    ) {
        match inst {
            Instruction::B { l, signed_immed, .. } => (self.branch(l, signed_immed), Ok(())),
            Instruction::Bx { rm, .. } => (self.branch_exchange(rm), Ok(())),
            Instruction::Msr { c, x, s, f, r, address, .. } => self.status_write(
                c,
                x,
                s,
                f,
                r,
                address,
            ),
            Instruction::Mrs { r, rd, .. } => (self.status_read(r, rd), Ok(())),
            Instruction::Swi { .. } => (
                self.exception(
                    Mode::Supervisor,
                    SOFTWARE_INTERRUPT_VECTOR,
                    self.next_instruction(),
                ),
                Ok(()),
            ),
            Instruction::Cdp { .. }
            | Instruction::Ldc { .. }
            | Instruction::Mcr { .. }
            | Instruction::Mrc { .. }
            | Instruction::Stc { .. } => (
                self.exception(Mode::Undefined, UNDEFINED_VECTOR, self.next_instruction()),
                Ok(()),
            ),
            _ => (self, Ok(())),
        }
    }

    /// The processor after `inst` did what it does, and whether it could.
    pub open spec fn perform(self, inst: Instruction) -> (CpuView, Result<(), ExecuteError>) {
        match data_processing_parts(inst) {
            Some(parts) => self.data_processing(
                parts.op,
                parts.set,
                parts.rd,
                parts.rn,
                parts.operand2,
            ),
            None => match transfer_parts(inst) {
                Some(t) => self.transfer(t),
                None => match inst {
                    Instruction::Mul { .. }
                    | Instruction::Mla { .. }
                    | Instruction::Umull { .. }
                    | Instruction::Umlal { .. }
                    | Instruction::Smull { .. }
                    | Instruction::Smlal { .. } => (self.perform_multiply(inst), Ok(())),
                    Instruction::Ldm1 { .. }
                    | Instruction::Ldm2 { .. }
                    | Instruction::Ldm3 { .. }
                    | Instruction::Stm1 { .. }
                    | Instruction::Stm2 { .. }
                    | Instruction::Swpb { .. }
                    | Instruction::Swp { .. } => self.perform_block(inst),
                    _ => self.perform_control(inst),
                },
            },
        }
    }
}

/// The processor after a tick of the executor on `inst`, and whether the
/// instruction could execute. An instruction whose condition fails changes
/// nothing.
pub open spec fn execute_spec(cpu: CpuView, inst: Instruction) -> (
    CpuView,
    Result<(), ExecuteError>,
) {
    if condition_passed_spec(cpu.cpsr, inst.condition_spec()) {
        cpu.perform(inst)
    } else {
        (cpu, Ok(()))
    }
}

fn transfer(cpu: &mut Cpu, t: Transfer) -> (r: Result<(), ExecuteError>)
    requires
        old(cpu)@.wf(),
        t.rd.wf(),
        t.rn.wf(),
        t.offset.is_word_offset(),
    ensures
        (final(cpu)@, r) == old(cpu)@.transfer(t),
        final(cpu)@.wf(),
{
    let offset = offset_value(cpu, t.offset);
    let at = access(cpu.registers.read(t.rn), offset, t.u, t.addressing);
    match t.kind {
        TransferKind::Load(kind) => load(cpu, kind, t.rd, t.rn, at),
        TransferKind::Store(kind) => store(cpu, kind, t.rd, t.rn, at),
    }
}

fn perform_multiply(cpu: &mut Cpu, inst: Instruction)
    requires
        old(cpu)@.wf(),
        inst.wf(),
    ensures
        final(cpu)@ == old(cpu)@.perform_multiply(inst),
        final(cpu)@.wf(),
{
    match inst {
        Instruction::Mul { s, rd, rm, rs, .. } => multiply(cpu, s, rd, rm, rs, None),
        Instruction::Mla { s, rd, rn, rm, rs, .. } => multiply(cpu, s, rd, rm, rs, Some(rn)),
        Instruction::Umull { s, rd_lo, rd_hi, rm, rs, .. } => multiply_long(
            cpu,
            false,
            false,
            s,
            rd_lo,
            rd_hi,
            rm,
            rs,
        ),
        Instruction::Umlal { s, rd_lo, rd_hi, rm, rs, .. } => multiply_long(
            cpu,
            false,
            true,
            s,
            rd_lo,
            rd_hi,
            rm,
            rs,
        ),
        Instruction::Smull { s, rd_lo, rd_hi, rm, rs, .. } => multiply_long(
            cpu,
            true,
            false,
            s,
            rd_lo,
            rd_hi,
            rm,
            rs,
        ),
        Instruction::Smlal { s, rd_lo, rd_hi, rm, rs, .. } => multiply_long(
            cpu,
            true,
            true,
            s,
            rd_lo,
            rd_hi,
            rm,
            rs,
        ),
        _ => {},
    }
}

fn perform_block(cpu: &mut Cpu, inst: Instruction) -> (r: Result<(), ExecuteError>)
    requires
        old(cpu)@.wf(),
        inst.wf(),
    ensures
        (final(cpu)@, r) == old(cpu)@.perform_block(inst),
        final(cpu)@.wf(),
{
    match inst {
        Instruction::Ldm1 { block, .. } => block_load(cpu, block, false, false),
        Instruction::Ldm2 { block, .. } => block_load(cpu, block, true, false),
        Instruction::Ldm3 { block, .. } => block_load(cpu, block, false, true),
        Instruction::Stm1 { block, .. } => block_store(cpu, block, false),
        Instruction::Stm2 { block, .. } => block_store(cpu, block, true),
        Instruction::Swpb { rd, rm, rn, .. } => swap(cpu, true, rd, rm, rn),
        Instruction::Swp { rd, rm, rn, .. } => swap(cpu, false, rd, rm, rn),
        _ => Ok(()),
    }
}

fn perform_control(cpu: &mut Cpu, inst: Instruction) -> (r: Result<(), ExecuteError>)
    requires
        old(cpu)@.wf(),
        inst.wf(),
    ensures
        (final(cpu)@, r) == old(cpu)@.perform_control(inst),
        final(cpu)@.wf(),
{
    match inst {
        Instruction::B { l, signed_immed, .. } => {
            branch(cpu, l, signed_immed);
            Ok(())
        },
        Instruction::Bx { rm, .. } => {
            branch_exchange(cpu, rm);
            Ok(())
        },
        Instruction::Msr { c, x, s, f, r, address, .. } => status_write(
            cpu,
            c,
            x,
            s,
            f,
            r,
            address,
        ),
        Instruction::Mrs { r, rd, .. } => {
            status_read(cpu, r, rd);
            Ok(())
        },
        Instruction::Swi { .. } => {
            let link = cpu.registers.read(Register(PC)).wrapping_sub(4);
            exception(cpu, Mode::Supervisor, SOFTWARE_INTERRUPT_VECTOR, link);
            Ok(())
        },
        Instruction::Cdp { .. }
        | Instruction::Ldc { .. }
        | Instruction::Mcr { .. }
        | Instruction::Mrc { .. }
        | Instruction::Stc { .. } => {
            let link = cpu.registers.read(Register(PC)).wrapping_sub(4);
            exception(cpu, Mode::Undefined, UNDEFINED_VECTOR, link);
            Ok(())
        },
        _ => Ok(()),
    }
}

/// Executes one instruction.
///
/// The instruction is skipped where its condition fails. The program
/// counter is not advanced: it changes only where the instruction writes it.
/// An error leaves the registers and the status registers as they were, and
/// memory too, but for the stores that a block store made before a fault.
pub fn execute(cpu: &mut Cpu, inst: Instruction) -> (r: Result<(), ExecuteError>)
    requires
        old(cpu)@.wf(),
        inst.wf(),
    ensures
        (final(cpu)@, r) == execute_spec(old(cpu)@, inst),
        final(cpu)@.wf(),
{
    if !condition_passed(cpu, inst.condition()) {
        return Ok(());
    }
    if let Some(parts) = find_data_processing_parts(inst) {
        return data_processing(cpu, parts.op, parts.set, parts.rd, parts.rn, parts.operand2);
    }
    if let Some(t) = find_transfer_parts(inst) {
        return transfer(cpu, t);
    }
    match inst {
        Instruction::Mul { .. }
        | Instruction::Mla { .. }
        | Instruction::Umull { .. }
        | Instruction::Umlal { .. }
        | Instruction::Smull { .. }
        | Instruction::Smlal { .. } => {
            perform_multiply(cpu, inst);
            Ok(())
        },
        Instruction::Ldm1 { .. }
        | Instruction::Ldm2 { .. }
        | Instruction::Ldm3 { .. }
        | Instruction::Stm1 { .. }
        | Instruction::Stm2 { .. }
        | Instruction::Swpb { .. }
        | Instruction::Swp { .. } => perform_block(cpu, inst),
        _ => perform_control(cpu, inst),
    }
}

/// A data-processing instruction that writes the program counter and sets
/// the flags leaves the current status register equal to the saved one,
/// where the mode of the saved one is legal.
pub proof fn lemma_flag_setting_write_of_pc_restores_status(cpu: CpuView, inst: Instruction)
    requires
        cpu.wf(),
        inst.wf(),
        condition_passed_spec(cpu.cpsr, inst.condition_spec()),
        data_processing_parts(inst) matches Some(parts) && parts.op.writes_spec() && parts.set
            && parts.rd == Register(PC),
        psr_mode(cpu.spsr) is Some,
    ensures
        execute_spec(cpu, inst).1 is Ok,
        execute_spec(cpu, inst).0.cpsr == cpu.spsr,
        execute_spec(cpu, inst).0.wf(),
{
}

/// An instruction whose condition fails, the condition Never among them,
/// leaves the processor as it was.
pub proof fn lemma_failed_condition_changes_nothing(cpu: CpuView, inst: Instruction)
    requires
        !condition_passed_spec(cpu.cpsr, inst.condition_spec()),
    ensures
        execute_spec(cpu, inst) == (cpu, Ok::<(), ExecuteError>(())),
{
}

/// No instruction touches the pipeline.
pub proof fn lemma_execute_keeps_pipeline(cpu: CpuView, inst: Instruction)
    ensures
        execute_spec(cpu, inst).0.pipeline == cpu.pipeline,
{
    if condition_passed_spec(cpu.cpsr, inst.condition_spec()) {
        match data_processing_parts(inst) {
            Some(parts) => {},
            None => match transfer_parts(inst) {
                Some(t) => {},
                None => {
                    assert(cpu.perform_multiply(inst).pipeline == cpu.pipeline);
                    assert(cpu.perform_block(inst).0.pipeline == cpu.pipeline);
                    assert(cpu.perform_control(inst).0.pipeline == cpu.pipeline);
                },
            },
        }
    }
}

/// A block load leaves the register file with its slots and in its mode.
pub proof fn lemma_block_loaded_keeps_shape(
    memory: MemoryMapView,
    registers: RegistersView,
    mode: Mode,
    list: u16,
    from: nat,
    address: u32,
)
    requires
        registers.wf(),
    ensures
        block_loaded_spec(memory, registers, mode, list, from, address) matches Ok(loaded)
            ==> loaded.wf() && loaded.mode == registers.mode,
    decreases 16 - from,
{
    if from < 16 {
        if list.bit_spec(from as u8) {
            if let Ok(word) = memory.load_word(address) {
                let value = if from == 15 {
                    word & 0xFFFF_FFFC
                } else {
                    word
                };
                lemma_block_loaded_keeps_shape(
                    memory,
                    registers.write_in(mode, Register(from as u32), value),
                    mode,
                    list,
                    from + 1,
                    wrapping_add(address, 4),
                );
            }
        } else {
            lemma_block_loaded_keeps_shape(memory, registers, mode, list, from + 1, address);
        }
    }
}

/// An exception leaves the processor well-formed, in the mode of the
/// exception.
pub proof fn lemma_exception_keeps_wf(cpu: CpuView, mode: Mode, vector: u32, link: u32)
    requires
        cpu.wf(),
    ensures
        cpu.exception(mode, vector, link).wf(),
        cpu.exception(mode, vector, link).registers.mode == mode,
        cpu.exception(mode, vector, link).spsr == cpu.cpsr,
        cpu.exception(mode, vector, link).pc() == vector,
{
    lemma_status_bits(cpu.cpsr, false, false, false, false, false, mode.encoding_spec());
}

proof fn lemma_data_processing_keeps_wf(cpu: CpuView, parts: DataProcessing)
    requires
        cpu.wf(),
        parts.rd.wf(),
    ensures
        cpu.data_processing(parts.op, parts.set, parts.rd, parts.rn, parts.operand2).0.wf(),
{
    lemma_any_flags_keep_mode(cpu.cpsr);
}

proof fn lemma_transfer_keeps_wf(cpu: CpuView, t: Transfer)
    requires
        cpu.wf(),
        t.rd.wf(),
        t.rn.wf(),
    ensures
        cpu.transfer(t).0.wf(),
{
}

proof fn lemma_multiply_keeps_wf(cpu: CpuView, inst: Instruction)
    requires
        cpu.wf(),
        inst.wf(),
    ensures
        cpu.perform_multiply(inst).wf(),
{
    lemma_any_flags_keep_mode(cpu.cpsr);
}

proof fn lemma_block_keeps_wf(cpu: CpuView, inst: Instruction)
    requires
        cpu.wf(),
        inst.wf(),
    ensures
        cpu.perform_block(inst).0.wf(),
{
    match inst {
        Instruction::Ldm1 { block, .. } => {
            lemma_block_load_keeps_wf(cpu, block, false, false);
        },
        Instruction::Ldm2 { block, .. } => {
            lemma_block_load_keeps_wf(cpu, block, true, false);
        },
        Instruction::Ldm3 { block, .. } => {
            lemma_block_load_keeps_wf(cpu, block, false, true);
        },
        _ => {},
    }
}

proof fn lemma_status_write_keeps_wf(
    cpu: CpuView,
    c: bool,
    x: bool,
    s: bool,
    f: bool,
    r: bool,
    address: AddressMode1,
)
    requires
        cpu.wf(),
    ensures
        cpu.status_write(c, x, s, f, r, address).0.wf(),
{
}

proof fn lemma_branch_keeps_wf(cpu: CpuView, l: bool, signed_immed: u32, rm: Register)
    requires
        cpu.wf(),
    ensures
        cpu.branch(l, signed_immed).wf(),
        cpu.branch_exchange(rm).wf(),
{
    lemma_flags_keep_mode(cpu.cpsr, cpu.flags(), cpu.registers.read(rm).bit_spec(0));
}

proof fn lemma_control_keeps_wf(cpu: CpuView, inst: Instruction)
    requires
        cpu.wf(),
        inst.wf(),
    ensures
        cpu.perform_control(inst).0.wf(),
{
    match inst {
        Instruction::B { l, signed_immed, .. } => {
            lemma_branch_keeps_wf(cpu, l, signed_immed, Register(0));
        },
        Instruction::Bx { rm, .. } => {
            lemma_branch_keeps_wf(cpu, false, 0, rm);
        },
        Instruction::Msr { c, x, s, f, r, address, .. } => {
            lemma_status_write_keeps_wf(cpu, c, x, s, f, r, address);
        },
        Instruction::Swi { .. } => {
            lemma_exception_keeps_wf(
                cpu,
                Mode::Supervisor,
                SOFTWARE_INTERRUPT_VECTOR,
                cpu.next_instruction(),
            );
        },
        Instruction::Cdp { .. }
        | Instruction::Ldc { .. }
        | Instruction::Mcr { .. }
        | Instruction::Mrc { .. }
        | Instruction::Stc { .. } => {
            lemma_exception_keeps_wf(
                cpu,
                Mode::Undefined,
                UNDEFINED_VECTOR,
                cpu.next_instruction(),
            );
        },
        _ => {},
    }
}

/// Whatever an instruction does, it leaves the processor well-formed.
pub proof fn lemma_execute_keeps_wf(cpu: CpuView, inst: Instruction)
    requires
        cpu.wf(),
        inst.wf(),
    ensures
        execute_spec(cpu, inst).0.wf(),
{
    if condition_passed_spec(cpu.cpsr, inst.condition_spec()) {
        match data_processing_parts(inst) {
            Some(parts) => {
                lemma_data_processing_keeps_wf(cpu, parts);
            },
            None => match transfer_parts(inst) {
                Some(t) => {
                    lemma_transfer_keeps_wf(cpu, t);
                },
                None => {
                    lemma_multiply_keeps_wf(cpu, inst);
                    lemma_block_keeps_wf(cpu, inst);
                    lemma_control_keeps_wf(cpu, inst);
                },
            },
        }
    }
}

proof fn lemma_block_load_keeps_wf(cpu: CpuView, block: BlockTransfer, user: bool, restore: bool)
    requires
        cpu.wf(),
        block.wf(),
    ensures
        cpu.block_load(block, user, restore).0.wf(),
{
    let (start, new_base) = block_bounds_spec(
        cpu.registers.read(block.rn),
        listed_spec(block.register_list, 0) as u32,
        block.p,
        block.u,
    );
    let based = if block.w {
        cpu.registers.write(block.rn, new_base)
    } else {
        cpu.registers
    };
    lemma_block_loaded_keeps_shape(
        cpu.memory,
        based,
        cpu.block_mode(user),
        block.register_list,
        0,
        start,
    );
}

/// Whether two states of the processor agree in everything but memory.
pub open spec fn same_but_memory(a: CpuView, b: CpuView) -> bool {
    a.registers == b.registers && a.cpsr == b.cpsr && a.spsr == b.spsr && a.pipeline == b.pipeline
}

proof fn lemma_block_error_keeps_registers(cpu: CpuView, inst: Instruction)
    ensures
        cpu.perform_block(inst).1 is Err ==> same_but_memory(cpu.perform_block(inst).0, cpu),
{
}

proof fn lemma_control_error_keeps_registers(cpu: CpuView, inst: Instruction)
    ensures
        cpu.perform_control(inst).1 is Err ==> cpu.perform_control(inst).0 == cpu,
{
}

/// An instruction that fails changes no register, no status register and
/// not the pipeline.
pub proof fn lemma_error_keeps_registers(cpu: CpuView, inst: Instruction)
    ensures
        execute_spec(cpu, inst).1 is Err ==> same_but_memory(execute_spec(cpu, inst).0, cpu),
{
    if condition_passed_spec(cpu.cpsr, inst.condition_spec()) {
        match data_processing_parts(inst) {
            Some(parts) => {},
            None => match transfer_parts(inst) {
                Some(t) => {},
                None => {
                    lemma_block_error_keeps_registers(cpu, inst);
                    lemma_control_error_keeps_registers(cpu, inst);
                },
            },
        }
    }
}

} // verus!
