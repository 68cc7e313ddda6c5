//! The decoder for the 32 bit ARM instruction set.

use crate::bit::{Bit, Bits};
use crate::cpu::Register;
use crate::decode::DecodeError;
use crate::instruction::{
    AddressMode1, AddressMode2, AddressMode3, AddressingMode, AddressingOffset, BlockTransfer,
    Condition, Instruction, ShiftDirection,
};
use vstd::prelude::*;

verus! {

proof fn lemma_operand_fields(x: u32)
    by (bit_vector)
    ensures
        (x >> 0u8) & !(0xFFFF_FFFFu32 << 4u8) < 16,
        (x >> 8u8) & !(0xFFFF_FFFFu32 << 4u8) < 16,
        (x >> 12u8) & !(0xFFFF_FFFFu32 << 4u8) < 16,
        (x >> 16u8) & !(0xFFFF_FFFFu32 << 4u8) < 16,
        (x >> 28u8) & !(0xFFFF_FFFFu32 << 4u8) < 16,
        (x >> 7u8) & !(0xFFFF_FFFFu32 << 5u8) < 32,
        (x >> 0u8) & !(0xFFFF_FFFFu32 << 8u8) < 0x100,
        (x >> 0u8) & !(0xFFFF_FFFFu32 << 12u8) < 0x1000,
        (x >> 0u8) & !(0xFFFF_FFFFu32 << 16u8) < 0x1_0000,
        (x >> 0u8) & !(0xFFFF_FFFFu32 << 24u8) < 0x100_0000,
        (x >> 5u8) & !(0xFFFF_FFFFu32 << 2u8) < 4,
        (x >> 21u8) & !(0xFFFF_FFFFu32 << 2u8) < 4,
        (x >> 21u8) & !(0xFFFF_FFFFu32 << 4u8) < 16,
{
}

/// The register that the four bits from `low` on name.
pub open spec fn register_spec(inst: u32, low: u8) -> Register {
    Register(inst.bits_spec(low..((low + 4) as u8)))
}

fn register(inst: u32, low: u8) -> (r: Register)
    requires
        low == 0 || low == 8 || low == 12 || low == 16,
    ensures
        r == register_spec(inst, low),
        r.wf(),
{
    proof {
        lemma_operand_fields(inst);
    }
    Register(inst.bits(low..(low + 4)))
}

/// The condition that the top four bits encode.
pub open spec fn condition_spec(inst: u32) -> Condition {
    let field = inst.bits_spec(28..32);
    if field == 0b0000 {
        Condition::Eq
    } else if field == 0b0001 {
        Condition::Ne
    } else if field == 0b0010 {
        Condition::Cs
    } else if field == 0b0011 {
        Condition::Cc
    } else if field == 0b0100 {
        Condition::Mi
    } else if field == 0b0101 {
        Condition::Pl
    } else if field == 0b0110 {
        Condition::Vs
    } else if field == 0b0111 {
        Condition::Vc
    } else if field == 0b1000 {
        Condition::Hi
    } else if field == 0b1001 {
        Condition::Ls
    } else if field == 0b1010 {
        Condition::Ge
    } else if field == 0b1011 {
        Condition::Lt
    } else if field == 0b1100 {
        Condition::Gt
    } else if field == 0b1101 {
        Condition::Le
    } else if field == 0b1110 {
        Condition::Al
    } else {
        Condition::Nv
    }
}

/// The condition field of an instruction word.
pub fn condition(inst: u32) -> (condition: Condition)
    ensures
        condition == condition_spec(inst),
{
    match inst.bits(28..32) {
        0b0000 => Condition::Eq,
        0b0001 => Condition::Ne,
        0b0010 => Condition::Cs,
        0b0011 => Condition::Cc,
        0b0100 => Condition::Mi,
        0b0101 => Condition::Pl,
        0b0110 => Condition::Vs,
        0b0111 => Condition::Vc,
        0b1000 => Condition::Hi,
        0b1001 => Condition::Ls,
        0b1010 => Condition::Ge,
        0b1011 => Condition::Lt,
        0b1100 => Condition::Gt,
        0b1101 => Condition::Le,
        0b1110 => Condition::Al,
        _ => Condition::Nv,
    }
}

/// The shift that bits 6 and 5 select. Rotate right by an immediate amount
/// of zero stands for the rotate through carry, which `extend` tells.
pub open spec fn shift_spec(inst: u32, extend: bool) -> ShiftDirection {
    let kind = inst.bits_spec(5..7);
    if kind == 0b00 {
        ShiftDirection::Lsl
    } else if kind == 0b01 {
        ShiftDirection::Lsr
    } else if kind == 0b10 {
        ShiftDirection::Asr
    } else if extend {
        ShiftDirection::Rrx
    } else {
        ShiftDirection::Ror
    }
}

fn shift(inst: u32, extend: bool) -> (shift: ShiftDirection)
    ensures
        shift == shift_spec(inst, extend),
{
    match inst.bits(5..7) {
        0b00 => ShiftDirection::Lsl,
        0b01 => ShiftDirection::Lsr,
        0b10 => ShiftDirection::Asr,
        _ => if extend {
            ShiftDirection::Rrx
        } else {
            ShiftDirection::Ror
        },
    }
}

/// The data-processing operand of an instruction word. Bit 25 selects the
/// rotated immediate. Of a register operand, bit 4 selects a shift by
/// register Rs over a shift by the five bit immediate.
pub open spec fn address_mode_1_spec(inst: u32) -> AddressMode1 {
    if inst.bit_spec(25) {
        AddressMode1::Immediate {
            value: inst.bits_spec(0..8) as u8,
            rotate: inst.bits_spec(8..12) as u8,
        }
    } else if inst.bit_spec(4) {
        AddressMode1::Shift {
            rm: register_spec(inst, 0),
            shift: shift_spec(inst, false),
            shift_imm: AddressingOffset::Register(register_spec(inst, 8)),
        }
    } else {
        AddressMode1::Shift {
            rm: register_spec(inst, 0),
            shift: shift_spec(inst, inst.bits_spec(7..12) == 0),
            shift_imm: AddressingOffset::Immediate(inst.bits_spec(7..12) as u16),
        }
    }
}

/// Decodes the data-processing operand of an instruction word.
pub fn decode_address_mode_1(inst: u32) -> (operand: AddressMode1)
    ensures
        operand == address_mode_1_spec(inst),
        operand.wf(),
{
    proof {
        lemma_operand_fields(inst);
    }
    if inst.bit(25) {
        AddressMode1::Immediate {
            value: #[verifier::truncate]
            (inst.bits(0..8) as u8),
            rotate: #[verifier::truncate]
            (inst.bits(8..12) as u8),
        }
    } else if inst.bit(4) {
        AddressMode1::Shift {
            rm: register(inst, 0),
            shift: shift(inst, false),
            shift_imm: AddressingOffset::Register(register(inst, 8)),
        }
    } else {
        let amount = inst.bits(7..12);
        AddressMode1::Shift {
            rm: register(inst, 0),
            shift: shift(inst, amount == 0),
            shift_imm: AddressingOffset::Immediate(
                #[verifier::truncate]
                (amount as u16),
            ),
        }
    }
}

/// The addressing of a transfer. P (bit 24) clear is post-indexed; with P
/// set, W (bit 21) selects pre-indexed over offset addressing.
pub open spec fn addressing_spec(inst: u32) -> AddressingMode {
    if !inst.bit_spec(24) {
        AddressingMode::PostIndexed
    } else if inst.bit_spec(21) {
        AddressingMode::PreIndexed
    } else {
        AddressingMode::Offset
    }
}

fn addressing(inst: u32) -> (addressing: AddressingMode)
    ensures
        addressing == addressing_spec(inst),
{
    if !inst.bit(24) {
        AddressingMode::PostIndexed
    } else if inst.bit(21) {
        AddressingMode::PreIndexed
    } else {
        AddressingMode::Offset
    }
}

/// The address of a word or byte transfer. Bit 25 clear gives the 12 bit
/// immediate offset; set, register Rm, shifted unless bits 11 to 4 are all
/// clear. U is bit 23.
pub open spec fn address_mode_2_spec(inst: u32) -> AddressMode2 {
    AddressMode2 {
        rn: register_spec(inst, 16),
        offset: if !inst.bit_spec(25) {
            AddressingOffset::Immediate(inst.bits_spec(0..12) as u16)
        } else if inst.bits_spec(4..12) == 0 {
            AddressingOffset::Register(register_spec(inst, 0))
        } else {
            AddressingOffset::ScaledRegister {
                rm: register_spec(inst, 0),
                shift: shift_spec(inst, inst.bits_spec(7..12) == 0),
                shift_imm: inst.bits_spec(7..12) as u8,
            }
        },
        addressing: addressing_spec(inst),
        u: inst.bit_spec(23),
    }
}

/// Decodes the address of a word or byte transfer.
pub fn decode_address_mode_2(inst: u32) -> (address: AddressMode2)
    ensures
        address == address_mode_2_spec(inst),
        address.wf(),
{
    proof {
        lemma_operand_fields(inst);
    }
    let offset = if !inst.bit(25) {
        AddressingOffset::Immediate(
            #[verifier::truncate]
            (inst.bits(0..12) as u16),
        )
    } else if inst.bits(4..12) == 0 {
        AddressingOffset::Register(register(inst, 0))
    } else {
        let amount = inst.bits(7..12);
        AddressingOffset::ScaledRegister {
            rm: register(inst, 0),
            shift: shift(inst, amount == 0),
            shift_imm: #[verifier::truncate]
            (amount as u8),
        }
    };
    AddressMode2 { rn: register(inst, 16), offset, addressing: addressing(inst), u: inst.bit(23) }
}

/// The eight bit immediate offset of a halfword transfer: bits 11 to 8 above
/// bits 3 to 0.
pub open spec fn split_immediate_spec(inst: u32) -> u32 {
    (inst.bits_spec(8..12) << 4u8) | inst.bits_spec(0..4)
}

/// The address of a halfword or signed byte transfer. Bit 22 selects the
/// split immediate offset over register Rm. P clear with W set is left open
/// by the architecture.
pub open spec fn address_mode_3_spec(inst: u32) -> Result<AddressMode3, DecodeError> {
    if !inst.bit_spec(24) && inst.bit_spec(21) {
        Err(DecodeError::Unpredictable(inst))
    } else {
        Ok(
            AddressMode3 {
                rn: register_spec(inst, 16),
                offset: if inst.bit_spec(22) {
                    AddressingOffset::Immediate(split_immediate_spec(inst) as u16)
                } else {
                    AddressingOffset::Register(register_spec(inst, 0))
                },
                addressing: addressing_spec(inst),
                u: inst.bit_spec(23),
            },
        )
    }
}

proof fn lemma_split_immediate(high: u32, low: u32)
    by (bit_vector)
    requires
        high < 16,
        low < 16,
    ensures
        (high << 4u8) | low < 0x100,
{
}

/// Decodes the address of a halfword or signed byte transfer.
pub fn decode_address_mode_3(inst: u32) -> (address: Result<AddressMode3, DecodeError>)
    ensures
        address == address_mode_3_spec(inst),
        address matches Ok(a) ==> a.wf(),
{
    proof {
        lemma_operand_fields(inst);
    }
    if !inst.bit(24) && inst.bit(21) {
        return Err(DecodeError::Unpredictable(inst));
    }
    let offset = if inst.bit(22) {
        let high = inst.bits(8..12);
        let low = inst.bits(0..4);
        proof {
            lemma_split_immediate(high, low);
        }
        AddressingOffset::Immediate(
            #[verifier::truncate]
            (((high << 4u8) | low) as u16),
        )
    } else {
        AddressingOffset::Register(register(inst, 0))
    };
    Ok(
        AddressMode3 {
            rn: register(inst, 16),
            offset,
            addressing: addressing(inst),
            u: inst.bit(23),
        },
    )
}

/// The operands of a block transfer: Rn in bits 19 to 16, P, U and W in
/// bits 24, 23 and 21, the register list in bits 15 to 0.
pub open spec fn block_transfer_spec(inst: u32) -> BlockTransfer {
    BlockTransfer {
        rn: register_spec(inst, 16),
        p: inst.bit_spec(24),
        u: inst.bit_spec(23),
        w: inst.bit_spec(21),
        register_list: inst.bits_spec(0..16) as u16,
    }
}

fn decode_block_transfer(inst: u32) -> (block: BlockTransfer)
    ensures
        block == block_transfer_spec(inst),
        block.wf(),
{
    BlockTransfer {
        rn: register(inst, 16),
        p: inst.bit(24),
        u: inst.bit(23),
        w: inst.bit(21),
        register_list: #[verifier::truncate]
        (inst.bits(0..16) as u16),
    }
}

/// Multiply.
pub fn mul(inst: u32) -> (r: Instruction)
    ensures
        r == (Instruction::Mul {
            condition: condition_spec(inst),
            s: inst.bit_spec(20),
            rd: register_spec(inst, 16),
            rm: register_spec(inst, 0),
            rs: register_spec(inst, 8),
        }),
        r.wf(),
{
    Instruction::Mul {
        condition: condition(inst),
        s: inst.bit(20),
        rd: register(inst, 16),
        rm: register(inst, 0),
        rs: register(inst, 8),
    }
}

/// Multiply and accumulate.
pub fn mla(inst: u32) -> (r: Instruction)
    ensures
        r == (Instruction::Mla {
            condition: condition_spec(inst),
            s: inst.bit_spec(20),
            rd: register_spec(inst, 16),
            rn: register_spec(inst, 12),
            rm: register_spec(inst, 0),
            rs: register_spec(inst, 8),
        }),
        r.wf(),
{
    Instruction::Mla {
        condition: condition(inst),
        s: inst.bit(20),
        rd: register(inst, 16),
        rn: register(inst, 12),
        rm: register(inst, 0),
        rs: register(inst, 8),
    }
}

/// Unsigned multiply long.
pub fn umull(inst: u32) -> (r: Instruction)
    ensures
        r == (Instruction::Umull {
            condition: condition_spec(inst),
            s: inst.bit_spec(20),
            rd_lo: register_spec(inst, 12),
            rd_hi: register_spec(inst, 16),
            rm: register_spec(inst, 0),
            rs: register_spec(inst, 8),
        }),
        r.wf(),
{
    Instruction::Umull {
        condition: condition(inst),
        s: inst.bit(20),
        rd_lo: register(inst, 12),
        rd_hi: register(inst, 16),
        rm: register(inst, 0),
        rs: register(inst, 8),
    }
}

/// Unsigned multiply and accumulate long.
pub fn umlal(inst: u32) -> (r: Instruction)
    ensures
        r == (Instruction::Umlal {
            condition: condition_spec(inst),
            s: inst.bit_spec(20),
            rd_lo: register_spec(inst, 12),
            rd_hi: register_spec(inst, 16),
            rm: register_spec(inst, 0),
            rs: register_spec(inst, 8),
        }),
        r.wf(),
{
    Instruction::Umlal {
        condition: condition(inst),
        s: inst.bit(20),
        rd_lo: register(inst, 12),
        rd_hi: register(inst, 16),
        rm: register(inst, 0),
        rs: register(inst, 8),
    }
}

/// Signed multiply long.
pub fn smull(inst: u32) -> (r: Instruction)
    ensures
        r == (Instruction::Smull {
            condition: condition_spec(inst),
            s: inst.bit_spec(20),
            rd_lo: register_spec(inst, 12),
            rd_hi: register_spec(inst, 16),
            rm: register_spec(inst, 0),
            rs: register_spec(inst, 8),
        }),
        r.wf(),
{
    Instruction::Smull {
        condition: condition(inst),
        s: inst.bit(20),
        rd_lo: register(inst, 12),
        rd_hi: register(inst, 16),
        rm: register(inst, 0),
        rs: register(inst, 8),
    }
}

/// Signed multiply and accumulate long.
pub fn smlal(inst: u32) -> (r: Instruction)
    ensures
        r == (Instruction::Smlal {
            condition: condition_spec(inst),
            s: inst.bit_spec(20),
            rd_lo: register_spec(inst, 12),
            rd_hi: register_spec(inst, 16),
            rm: register_spec(inst, 0),
            rs: register_spec(inst, 8),
        }),
        r.wf(),
{
    Instruction::Smlal {
        condition: condition(inst),
        s: inst.bit(20),
        rd_lo: register(inst, 12),
        rd_hi: register(inst, 16),
        rm: register(inst, 0),
        rs: register(inst, 8),
    }
}

/// Move a status register to a register.
pub fn mrs(inst: u32) -> (r: Instruction)
    ensures
        r == (Instruction::Mrs {
            condition: condition_spec(inst),
            r: inst.bit_spec(22),
            rd: register_spec(inst, 12),
        }),
        r.wf(),
{
    Instruction::Mrs { condition: condition(inst), r: inst.bit(22), rd: register(inst, 12) }
}

/// Move to a status register.
pub fn msr(inst: u32) -> (r: Instruction)
    ensures
        r == (Instruction::Msr {
            condition: condition_spec(inst),
            c: inst.bit_spec(16),
            x: inst.bit_spec(17),
            s: inst.bit_spec(18),
            f: inst.bit_spec(19),
            r: inst.bit_spec(22),
            address: address_mode_1_spec(inst),
        }),
        r.wf(),
{
    Instruction::Msr {
        condition: condition(inst),
        c: inst.bit(16),
        x: inst.bit(17),
        s: inst.bit(18),
        f: inst.bit(19),
        r: inst.bit(22),
        address: decode_address_mode_1(inst),
    }
}

/// Branch and exchange.
pub fn bx(inst: u32) -> (r: Instruction)
    ensures
        r == (Instruction::Bx { condition: condition_spec(inst), rm: register_spec(inst, 0) }),
        r.wf(),
{
    Instruction::Bx { condition: condition(inst), rm: register(inst, 0) }
}

/// Swap word.
pub fn swp(inst: u32) -> (r: Instruction)
    ensures
        r == (Instruction::Swp {
            condition: condition_spec(inst),
            rd: register_spec(inst, 12),
            rm: register_spec(inst, 0),
            rn: register_spec(inst, 16),
        }),
        r.wf(),
{
    Instruction::Swp {
        condition: condition(inst),
        rd: register(inst, 12),
        rm: register(inst, 0),
        rn: register(inst, 16),
    }
}

/// Swap byte.
pub fn swpb(inst: u32) -> (r: Instruction)
    ensures
        r == (Instruction::Swpb {
            condition: condition_spec(inst),
            rd: register_spec(inst, 12),
            rm: register_spec(inst, 0),
            rn: register_spec(inst, 16),
        }),
        r.wf(),
{
    Instruction::Swpb {
        condition: condition(inst),
        rd: register(inst, 12),
        rm: register(inst, 0),
        rn: register(inst, 16),
    }
}

/// Load halfword.
pub fn ldrh(inst: u32) -> (r: Result<Instruction, DecodeError>)
    ensures
        r == (match address_mode_3_spec(inst) {
            Ok(address) => Ok(
                Instruction::Ldrh {
                    condition: condition_spec(inst),
                    rd: register_spec(inst, 12),
                    address,
                },
            ),
            Err(e) => Err(e),
        }),
        r matches Ok(i) ==> i.wf(),
{
    match decode_address_mode_3(inst) {
        Ok(address) => Ok(
            Instruction::Ldrh { condition: condition(inst), rd: register(inst, 12), address },
        ),
        Err(e) => Err(e),
    }
}

/// Store halfword.
pub fn strh(inst: u32) -> (r: Result<Instruction, DecodeError>)
    ensures
        r == (match address_mode_3_spec(inst) {
            Ok(address) => Ok(
                Instruction::Strh {
                    condition: condition_spec(inst),
                    rd: register_spec(inst, 12),
                    address,
                },
            ),
            Err(e) => Err(e),
        }),
        r matches Ok(i) ==> i.wf(),
{
    match decode_address_mode_3(inst) {
        Ok(address) => Ok(
            Instruction::Strh { condition: condition(inst), rd: register(inst, 12), address },
        ),
        Err(e) => Err(e),
    }
}

/// Load signed byte.
pub fn ldrsb(inst: u32) -> (r: Result<Instruction, DecodeError>)
    ensures
        r == (match address_mode_3_spec(inst) {
            Ok(address) => Ok(
                Instruction::Ldrsb {
                    condition: condition_spec(inst),
                    rd: register_spec(inst, 12),
                    address,
                },
            ),
            Err(e) => Err(e),
        }),
        r matches Ok(i) ==> i.wf(),
{
    match decode_address_mode_3(inst) {
        Ok(address) => Ok(
            Instruction::Ldrsb { condition: condition(inst), rd: register(inst, 12), address },
        ),
        Err(e) => Err(e),
    }
}

/// Load signed halfword.
pub fn ldrsh(inst: u32) -> (r: Result<Instruction, DecodeError>)
    ensures
        r == (match address_mode_3_spec(inst) {
            Ok(address) => Ok(
                Instruction::Ldrsh {
                    condition: condition_spec(inst),
                    rd: register_spec(inst, 12),
                    address,
                },
            ),
            Err(e) => Err(e),
        }),
        r matches Ok(i) ==> i.wf(),
{
    match decode_address_mode_3(inst) {
        Ok(address) => Ok(
            Instruction::Ldrsh { condition: condition(inst), rd: register(inst, 12), address },
        ),
        Err(e) => Err(e),
    }
}

/// Bitwise and.
pub fn and(inst: u32) -> (r: Instruction)
    ensures
        r == (Instruction::And {
            condition: condition_spec(inst),
            s: inst.bit_spec(20),
            rd: register_spec(inst, 12),
            rn: register_spec(inst, 16),
            operand2: address_mode_1_spec(inst),
        }),
        r.wf(),
{
    Instruction::And {
        condition: condition(inst),
        s: inst.bit(20),
        rd: register(inst, 12),
        rn: register(inst, 16),
        operand2: decode_address_mode_1(inst),
    }
}

/// Bitwise exclusive or.
pub fn eor(inst: u32) -> (r: Instruction)
    ensures
        r == (Instruction::Eor {
            condition: condition_spec(inst),
            s: inst.bit_spec(20),
            rd: register_spec(inst, 12),
            rn: register_spec(inst, 16),
            operand2: address_mode_1_spec(inst),
        }),
        r.wf(),
{
    Instruction::Eor {
        condition: condition(inst),
        s: inst.bit(20),
        rd: register(inst, 12),
        rn: register(inst, 16),
        operand2: decode_address_mode_1(inst),
    }
}

/// Subtract.
pub fn sub(inst: u32) -> (r: Instruction)
    ensures
        r == (Instruction::Sub {
            condition: condition_spec(inst),
            s: inst.bit_spec(20),
            rd: register_spec(inst, 12),
            rn: register_spec(inst, 16),
            operand2: address_mode_1_spec(inst),
        }),
        r.wf(),
{
    Instruction::Sub {
        condition: condition(inst),
        s: inst.bit(20),
        rd: register(inst, 12),
        rn: register(inst, 16),
        operand2: decode_address_mode_1(inst),
    }
}

/// Reverse subtract.
pub fn rsb(inst: u32) -> (r: Instruction)
    ensures
        r == (Instruction::Rsb {
            condition: condition_spec(inst),
            s: inst.bit_spec(20),
            rd: register_spec(inst, 12),
            rn: register_spec(inst, 16),
            operand2: address_mode_1_spec(inst),
        }),
        r.wf(),
{
    Instruction::Rsb {
        condition: condition(inst),
        s: inst.bit(20),
        rd: register(inst, 12),
        rn: register(inst, 16),
        operand2: decode_address_mode_1(inst),
    }
}

/// Add.
pub fn add(inst: u32) -> (r: Instruction)
    ensures
        r == (Instruction::Add {
            condition: condition_spec(inst),
            s: inst.bit_spec(20),
            rd: register_spec(inst, 12),
            rn: register_spec(inst, 16),
            operand2: address_mode_1_spec(inst),
        }),
        r.wf(),
{
    Instruction::Add {
        condition: condition(inst),
        s: inst.bit(20),
        rd: register(inst, 12),
        rn: register(inst, 16),
        operand2: decode_address_mode_1(inst),
    }
}

/// Add with carry.
pub fn adc(inst: u32) -> (r: Instruction)
    ensures
        r == (Instruction::Adc {
            condition: condition_spec(inst),
            s: inst.bit_spec(20),
            rd: register_spec(inst, 12),
            rn: register_spec(inst, 16),
            operand2: address_mode_1_spec(inst),
        }),
        r.wf(),
{
    Instruction::Adc {
        condition: condition(inst),
        s: inst.bit(20),
        rd: register(inst, 12),
        rn: register(inst, 16),
        operand2: decode_address_mode_1(inst),
    }
}

/// Subtract with carry.
pub fn sbc(inst: u32) -> (r: Instruction)
    ensures
        r == (Instruction::Sbc {
            condition: condition_spec(inst),
            s: inst.bit_spec(20),
            rd: register_spec(inst, 12),
            rn: register_spec(inst, 16),
            operand2: address_mode_1_spec(inst),
        }),
        r.wf(),
{
    Instruction::Sbc {
        condition: condition(inst),
        s: inst.bit(20),
        rd: register(inst, 12),
        rn: register(inst, 16),
        operand2: decode_address_mode_1(inst),
    }
}

/// Reverse subtract with carry.
pub fn rsc(inst: u32) -> (r: Instruction)
    ensures
        r == (Instruction::Rsc {
            condition: condition_spec(inst),
            s: inst.bit_spec(20),
            rd: register_spec(inst, 12),
            rn: register_spec(inst, 16),
            operand2: address_mode_1_spec(inst),
        }),
        r.wf(),
{
    Instruction::Rsc {
        condition: condition(inst),
        s: inst.bit(20),
        rd: register(inst, 12),
        rn: register(inst, 16),
        operand2: decode_address_mode_1(inst),
    }
}

/// Bitwise or.
pub fn orr(inst: u32) -> (r: Instruction)
    ensures
        r == (Instruction::Orr {
            condition: condition_spec(inst),
            s: inst.bit_spec(20),
            rd: register_spec(inst, 12),
            rn: register_spec(inst, 16),
            operand2: address_mode_1_spec(inst),
        }),
        r.wf(),
{
    Instruction::Orr {
        condition: condition(inst),
        s: inst.bit(20),
        rd: register(inst, 12),
        rn: register(inst, 16),
        operand2: decode_address_mode_1(inst),
    }
}

/// Move.
pub fn mov(inst: u32) -> (r: Instruction)
    ensures
        r == (Instruction::Mov {
            condition: condition_spec(inst),
            s: inst.bit_spec(20),
            rd: register_spec(inst, 12),
            operand2: address_mode_1_spec(inst),
        }),
        r.wf(),
{
    Instruction::Mov {
        condition: condition(inst),
        s: inst.bit(20),
        rd: register(inst, 12),
        operand2: decode_address_mode_1(inst),
    }
}

/// Bit clear.
pub fn bic(inst: u32) -> (r: Instruction)
    ensures
        r == (Instruction::Bic {
            condition: condition_spec(inst),
            s: inst.bit_spec(20),
            rd: register_spec(inst, 12),
            rn: register_spec(inst, 16),
            operand2: address_mode_1_spec(inst),
        }),
        r.wf(),
{
    Instruction::Bic {
        condition: condition(inst),
        s: inst.bit(20),
        rd: register(inst, 12),
        rn: register(inst, 16),
        operand2: decode_address_mode_1(inst),
    }
}

/// Move negated.
pub fn mvn(inst: u32) -> (r: Instruction)
    ensures
        r == (Instruction::Mvn {
            condition: condition_spec(inst),
            s: inst.bit_spec(20),
            rd: register_spec(inst, 12),
            operand2: address_mode_1_spec(inst),
        }),
        r.wf(),
{
    Instruction::Mvn {
        condition: condition(inst),
        s: inst.bit(20),
        rd: register(inst, 12),
        operand2: decode_address_mode_1(inst),
    }
}

/// Test.
pub fn tst(inst: u32) -> (r: Instruction)
    ensures
        r == (Instruction::Tst {
            condition: condition_spec(inst),
            rn: register_spec(inst, 16),
            operand2: address_mode_1_spec(inst),
        }),
        r.wf(),
{
    Instruction::Tst {
        condition: condition(inst),
        rn: register(inst, 16),
        operand2: decode_address_mode_1(inst),
    }
}

/// Test equivalence.
pub fn teq(inst: u32) -> (r: Instruction)
    ensures
        r == (Instruction::Teq {
            condition: condition_spec(inst),
            rn: register_spec(inst, 16),
            operand2: address_mode_1_spec(inst),
        }),
        r.wf(),
{
    Instruction::Teq {
        condition: condition(inst),
        rn: register(inst, 16),
        operand2: decode_address_mode_1(inst),
    }
}

/// Compare.
pub fn cmp(inst: u32) -> (r: Instruction)
    ensures
        r == (Instruction::Cmp {
            condition: condition_spec(inst),
            rn: register_spec(inst, 16),
            operand2: address_mode_1_spec(inst),
        }),
        r.wf(),
{
    Instruction::Cmp {
        condition: condition(inst),
        rn: register(inst, 16),
        operand2: decode_address_mode_1(inst),
    }
}

/// Compare negated.
pub fn cmn(inst: u32) -> (r: Instruction)
    ensures
        r == (Instruction::Cmn {
            condition: condition_spec(inst),
            rn: register_spec(inst, 16),
            operand2: address_mode_1_spec(inst),
        }),
        r.wf(),
{
    Instruction::Cmn {
        condition: condition(inst),
        rn: register(inst, 16),
        operand2: decode_address_mode_1(inst),
    }
}

/// Load word.
pub fn ldr(inst: u32) -> (r: Instruction)
    ensures
        r == (Instruction::Ldr {
            condition: condition_spec(inst),
            rd: register_spec(inst, 12),
            address: address_mode_2_spec(inst),
        }),
        r.wf(),
{
    Instruction::Ldr {
        condition: condition(inst),
        rd: register(inst, 12),
        address: decode_address_mode_2(inst),
    }
}

/// Load byte.
pub fn ldrb(inst: u32) -> (r: Instruction)
    ensures
        r == (Instruction::Ldrb {
            condition: condition_spec(inst),
            rd: register_spec(inst, 12),
            address: address_mode_2_spec(inst),
        }),
        r.wf(),
{
    Instruction::Ldrb {
        condition: condition(inst),
        rd: register(inst, 12),
        address: decode_address_mode_2(inst),
    }
}

/// Store word.
pub fn str(inst: u32) -> (r: Instruction)
    ensures
        r == (Instruction::Str {
            condition: condition_spec(inst),
            rd: register_spec(inst, 12),
            address: address_mode_2_spec(inst),
        }),
        r.wf(),
{
    Instruction::Str {
        condition: condition(inst),
        rd: register(inst, 12),
        address: decode_address_mode_2(inst),
    }
}

/// Store byte.
pub fn strb(inst: u32) -> (r: Instruction)
    ensures
        r == (Instruction::Strb {
            condition: condition_spec(inst),
            rd: register_spec(inst, 12),
            address: address_mode_2_spec(inst),
        }),
        r.wf(),
{
    Instruction::Strb {
        condition: condition(inst),
        rd: register(inst, 12),
        address: decode_address_mode_2(inst),
    }
}

/// Load byte with user access.
pub fn ldrbt(inst: u32) -> (r: Instruction)
    ensures
        r == (Instruction::Ldrbt {
            condition: condition_spec(inst),
            rd: register_spec(inst, 12),
            address: address_mode_2_spec(inst),
        }),
        r.wf(),
{
    Instruction::Ldrbt {
        condition: condition(inst),
        rd: register(inst, 12),
        address: decode_address_mode_2(inst),
    }
}

/// Load word with user access.
pub fn ldrt(inst: u32) -> (r: Instruction)
    ensures
        r == (Instruction::Ldrt {
            condition: condition_spec(inst),
            rd: register_spec(inst, 12),
            address: address_mode_2_spec(inst),
        }),
        r.wf(),
{
    Instruction::Ldrt {
        condition: condition(inst),
        rd: register(inst, 12),
        address: decode_address_mode_2(inst),
    }
}

/// Store byte with user access.
pub fn strbt(inst: u32) -> (r: Instruction)
    ensures
        r == (Instruction::Strbt {
            condition: condition_spec(inst),
            rd: register_spec(inst, 12),
            address: address_mode_2_spec(inst),
        }),
        r.wf(),
{
    Instruction::Strbt {
        condition: condition(inst),
        rd: register(inst, 12),
        address: decode_address_mode_2(inst),
    }
}

/// Store word with user access.
pub fn strt(inst: u32) -> (r: Instruction)
    ensures
        r == (Instruction::Strt {
            condition: condition_spec(inst),
            rd: register_spec(inst, 12),
            address: address_mode_2_spec(inst),
        }),
        r.wf(),
{
    Instruction::Strt {
        condition: condition(inst),
        rd: register(inst, 12),
        address: decode_address_mode_2(inst),
    }
}

/// Load multiple.
pub fn ldm1(inst: u32) -> (r: Instruction)
    ensures
        r == (Instruction::Ldm1 {
            condition: condition_spec(inst),
            block: block_transfer_spec(inst),
        }),
        r.wf(),
{
    Instruction::Ldm1 { condition: condition(inst), block: decode_block_transfer(inst) }
}

/// Load multiple with restore of the status register.
pub fn ldm3(inst: u32) -> (r: Instruction)
    ensures
        r == (Instruction::Ldm3 {
            condition: condition_spec(inst),
            block: block_transfer_spec(inst),
        }),
        r.wf(),
{
    Instruction::Ldm3 { condition: condition(inst), block: decode_block_transfer(inst) }
}

/// Store multiple.
pub fn stm1(inst: u32) -> (r: Instruction)
    ensures
        r == (Instruction::Stm1 {
            condition: condition_spec(inst),
            block: block_transfer_spec(inst),
        }),
        r.wf(),
{
    Instruction::Stm1 { condition: condition(inst), block: decode_block_transfer(inst) }
}

/// Load multiple of the user bank.
pub fn ldm2(inst: u32) -> (r: Instruction)
    ensures
        r == (Instruction::Ldm2 {
            condition: condition_spec(inst),
            block: block_transfer_spec(inst),
        }),
        r.wf(),
{
    Instruction::Ldm2 { condition: condition(inst), block: decode_block_transfer(inst) }
}

/// Store multiple of the user bank.
pub fn stm2(inst: u32) -> (r: Instruction)
    ensures
        r == (Instruction::Stm2 {
            condition: condition_spec(inst),
            block: block_transfer_spec(inst),
        }),
        r.wf(),
{
    Instruction::Stm2 { condition: condition(inst), block: decode_block_transfer(inst) }
}

/// Branch, and branch with link.
pub fn b(inst: u32) -> (r: Instruction)
    ensures
        r == (Instruction::B {
            condition: condition_spec(inst),
            l: inst.bit_spec(24),
            signed_immed: inst.bits_spec(0..24),
        }),
        r.wf(),
{
    proof {
        lemma_operand_fields(inst);
    }
    Instruction::B {
        condition: condition(inst),
        l: inst.bit(24),
        signed_immed: inst.bits(0..24),
    }
}

/// Coprocessor load.
pub fn ldc(inst: u32) -> (r: Instruction)
    ensures
        r == (Instruction::Ldc { condition: condition_spec(inst) }),
        r.wf(),
{
    Instruction::Ldc { condition: condition(inst) }
}

/// Coprocessor store.
pub fn stc(inst: u32) -> (r: Instruction)
    ensures
        r == (Instruction::Stc { condition: condition_spec(inst) }),
        r.wf(),
{
    Instruction::Stc { condition: condition(inst) }
}

/// Coprocessor data operation.
pub fn cdp(inst: u32) -> (r: Instruction)
    ensures
        r == (Instruction::Cdp { condition: condition_spec(inst) }),
        r.wf(),
{
    Instruction::Cdp { condition: condition(inst) }
}

/// Move to coprocessor.
pub fn mcr(inst: u32) -> (r: Instruction)
    ensures
        r == (Instruction::Mcr { condition: condition_spec(inst) }),
        r.wf(),
{
    Instruction::Mcr { condition: condition(inst) }
}

/// Move from coprocessor.
pub fn mrc(inst: u32) -> (r: Instruction)
    ensures
        r == (Instruction::Mrc { condition: condition_spec(inst) }),
        r.wf(),
{
    Instruction::Mrc { condition: condition(inst) }
}

/// Software interrupt.
pub fn swi(inst: u32) -> (r: Instruction)
    ensures
        r == (Instruction::Swi {
            condition: condition_spec(inst),
            immediate: inst.bits_spec(0..24),
        }),
        r.wf(),
{
    proof {
        lemma_operand_fields(inst);
    }
    Instruction::Swi { condition: condition(inst), immediate: inst.bits(0..24) }
}

/// The instruction classes, in the order in which a word is tried against
/// them: a word belongs to the first class whose selector bits it has.
#[derive(Clone, Copy, PartialEq, Eq, Structural, Debug)]
pub enum Class {
    /// Bits 27 to 22 clear, bits 7 to 4 `1001`.
    Multiply,
    /// Bits 27 to 23 `00001`, bits 7 to 4 `1001`.
    MultiplyLong,
    /// Bits 27 to 23 `00010`, bits 21 and 20 clear, bits 11 to 4 `00001001`.
    Swap,
    /// Bits 27 to 25 clear, bits 7 and 4 set, and bit 24 set or bits 6 and 5
    /// not both clear.
    HalfwordTransfer,
    /// Bits 27 and 26 clear, bits 24 and 23 `10`, bit 20 clear, and an
    /// operand that is not a shift: bit 25 set or bits 7 to 4 clear.
    StatusTransfer,
    /// Bits 27 to 20 `00010010`, bits 7 to 4 `0001`.
    BranchExchange,
    /// Bits 27 and 26 clear.
    DataProcessing,
    /// Bits 27 and 26 `01`.
    WordTransfer,
    /// Bits 27 to 25 `100`.
    BlockTransfer,
    /// Bits 27 to 25 `101`.
    Branch,
    /// Bits 27 to 25 `110`.
    CoprocessorTransfer,
    /// Bits 27 to 24 `1110`.
    CoprocessorOperation,
    /// Bits 27 to 24 `1111`.
    SoftwareInterrupt,
}

/// The class of an instruction word.
pub open spec fn class_spec(inst: u32) -> Class {
    if inst.bits_spec(22..28) == 0 && inst.bits_spec(4..8) == 0b1001 {
        Class::Multiply
    } else if inst.bits_spec(23..28) == 0b00001 && inst.bits_spec(4..8) == 0b1001 {
        Class::MultiplyLong
    } else if inst.bits_spec(23..28) == 0b00010 && inst.bits_spec(20..22) == 0 && inst.bits_spec(
        4..12,
    ) == 0b0000_1001 {
        Class::Swap
    } else if inst.bits_spec(25..28) == 0 && inst.bit_spec(7) && inst.bit_spec(4) && (inst.bit_spec(
        24,
    ) || inst.bits_spec(5..7) != 0) {
        Class::HalfwordTransfer
    } else if inst.bits_spec(26..28) == 0 && inst.bits_spec(23..25) == 0b10 && !inst.bit_spec(20)
        && (inst.bit_spec(25) || inst.bits_spec(4..8) == 0) {
        Class::StatusTransfer
    } else if inst.bits_spec(20..28) == 0b0001_0010 && inst.bits_spec(4..8) == 0b0001 {
        Class::BranchExchange
    } else if inst.bits_spec(26..28) == 0 {
        Class::DataProcessing
    } else if inst.bits_spec(26..28) == 0b01 {
        Class::WordTransfer
    } else if inst.bits_spec(25..28) == 0b100 {
        Class::BlockTransfer
    } else if inst.bits_spec(25..28) == 0b101 {
        Class::Branch
    } else if inst.bits_spec(25..28) == 0b110 {
        Class::CoprocessorTransfer
    } else if inst.bits_spec(24..28) == 0b1110 {
        Class::CoprocessorOperation
    } else {
        Class::SoftwareInterrupt
    }
}

proof fn lemma_class_fields(x: u32)
    by (bit_vector)
    ensures
        (x >> 25u8) & !(0xFFFF_FFFFu32 << 3u8) < 8,
        ((x >> 25u8) & !(0xFFFF_FFFFu32 << 3u8) <= 1) == ((x >> 26u8) & !(0xFFFF_FFFFu32 << 2u8)
            == 0),
        (2 <= (x >> 25u8) & !(0xFFFF_FFFFu32 << 3u8) <= 3) == ((x >> 26u8) & !(0xFFFF_FFFFu32
            << 2u8) == 1),
        ((x >> 24u8) & !(0xFFFF_FFFFu32 << 4u8) == 0b1110) == ((x >> 25u8) & !(0xFFFF_FFFFu32
            << 3u8) == 7 && x & (1u32 << 24u8) == 0),
{
}

/// Finds the class of an instruction word.
pub fn classify(inst: u32) -> (class: Class)
    ensures
        class == class_spec(inst),
{
    proof {
        lemma_class_fields(inst);
    }
    let low = inst.bits(4..8);
    if inst.bits(22..28) == 0 && low == 0b1001 {
        Class::Multiply
    } else if inst.bits(23..28) == 0b00001 && low == 0b1001 {
        Class::MultiplyLong
    } else if inst.bits(23..28) == 0b00010 && inst.bits(20..22) == 0 && inst.bits(4..12)
        == 0b0000_1001 {
        Class::Swap
    } else if inst.bits(25..28) == 0 && inst.bit(7) && inst.bit(4) && (inst.bit(24) || inst.bits(
        5..7,
    ) != 0) {
        Class::HalfwordTransfer
    } else if inst.bits(26..28) == 0 && inst.bits(23..25) == 0b10 && !inst.bit(20) && (inst.bit(25)
        || low == 0) {
        Class::StatusTransfer
    } else if inst.bits(20..28) == 0b0001_0010 && low == 0b0001 {
        Class::BranchExchange
    } else {
        match inst.bits(25..28) {
            0b000 | 0b001 => Class::DataProcessing,
            0b010 | 0b011 => Class::WordTransfer,
            0b100 => Class::BlockTransfer,
            0b101 => Class::Branch,
            0b110 => Class::CoprocessorTransfer,
            _ => if inst.bit(24) {
                Class::SoftwareInterrupt
            } else {
                Class::CoprocessorOperation
            },
        }
    }
}

/// The multiply that bit 21 selects.
pub open spec fn multiply_spec(inst: u32) -> Instruction {
    if inst.bit_spec(21) {
        Instruction::Mla {
            condition: condition_spec(inst),
            s: inst.bit_spec(20),
            rd: register_spec(inst, 16),
            rn: register_spec(inst, 12),
            rm: register_spec(inst, 0),
            rs: register_spec(inst, 8),
        }
    } else {
        Instruction::Mul {
            condition: condition_spec(inst),
            s: inst.bit_spec(20),
            rd: register_spec(inst, 16),
            rm: register_spec(inst, 0),
            rs: register_spec(inst, 8),
        }
    }
}

/// The long multiply that bits 22 and 21 select: bit 22 signed over
/// unsigned, bit 21 accumulating over plain.
pub open spec fn multiply_long_spec(inst: u32) -> Instruction {
    let kind = inst.bits_spec(21..23);
    if kind == 0b00 {
        Instruction::Umull {
            condition: condition_spec(inst),
            s: inst.bit_spec(20),
            rd_lo: register_spec(inst, 12),
            rd_hi: register_spec(inst, 16),
            rm: register_spec(inst, 0),
            rs: register_spec(inst, 8),
        }
    } else if kind == 0b01 {
        Instruction::Umlal {
            condition: condition_spec(inst),
            s: inst.bit_spec(20),
            rd_lo: register_spec(inst, 12),
            rd_hi: register_spec(inst, 16),
            rm: register_spec(inst, 0),
            rs: register_spec(inst, 8),
        }
    } else if kind == 0b10 {
        Instruction::Smull {
            condition: condition_spec(inst),
            s: inst.bit_spec(20),
            rd_lo: register_spec(inst, 12),
            rd_hi: register_spec(inst, 16),
            rm: register_spec(inst, 0),
            rs: register_spec(inst, 8),
        }
    } else {
        Instruction::Smlal {
            condition: condition_spec(inst),
            s: inst.bit_spec(20),
            rd_lo: register_spec(inst, 12),
            rd_hi: register_spec(inst, 16),
            rm: register_spec(inst, 0),
            rs: register_spec(inst, 8),
        }
    }
}

/// The swap that bit 22 selects: byte over word.
pub open spec fn swap_spec(inst: u32) -> Instruction {
    if inst.bit_spec(22) {
        Instruction::Swpb {
            condition: condition_spec(inst),
            rd: register_spec(inst, 12),
            rm: register_spec(inst, 0),
            rn: register_spec(inst, 16),
        }
    } else {
        Instruction::Swp {
            condition: condition_spec(inst),
            rd: register_spec(inst, 12),
            rm: register_spec(inst, 0),
            rn: register_spec(inst, 16),
        }
    }
}

/// The halfword or signed byte transfer that bits 6 and 5 and the load bit
/// (bit 20) select. There is no store of a signed value, and no transfer for
/// bits 6 and 5 both clear.
pub open spec fn halfword_transfer_spec(inst: u32) -> Result<Instruction, DecodeError> {
    let kind = inst.bits_spec(5..7);
    let load = inst.bit_spec(20);
    if kind == 0b00 || (kind != 0b01 && !load) {
        Err(DecodeError::Unrecognised(inst))
    } else {
        match address_mode_3_spec(inst) {
            Err(e) => Err(e),
            Ok(address) => Ok(
                if kind == 0b01 && load {
                    Instruction::Ldrh {
                        condition: condition_spec(inst),
                        rd: register_spec(inst, 12),
                        address,
                    }
                } else if kind == 0b01 {
                    Instruction::Strh {
                        condition: condition_spec(inst),
                        rd: register_spec(inst, 12),
                        address,
                    }
                } else if kind == 0b10 {
                    Instruction::Ldrsb {
                        condition: condition_spec(inst),
                        rd: register_spec(inst, 12),
                        address,
                    }
                } else {
                    Instruction::Ldrsh {
                        condition: condition_spec(inst),
                        rd: register_spec(inst, 12),
                        address,
                    }
                },
            ),
        }
    }
}

/// The status register transfer that bit 21 selects: to the status register
/// over from it. A move from the status register has no immediate form.
pub open spec fn status_transfer_spec(inst: u32) -> Result<Instruction, DecodeError> {
    if inst.bit_spec(21) {
        Ok(
            Instruction::Msr {
                condition: condition_spec(inst),
                c: inst.bit_spec(16),
                x: inst.bit_spec(17),
                s: inst.bit_spec(18),
                f: inst.bit_spec(19),
                r: inst.bit_spec(22),
                address: address_mode_1_spec(inst),
            },
        )
    } else if !inst.bit_spec(25) {
        Ok(
            Instruction::Mrs {
                condition: condition_spec(inst),
                r: inst.bit_spec(22),
                rd: register_spec(inst, 12),
            },
        )
    } else {
        Err(DecodeError::Unrecognised(inst))
    }
}

/// The data-processing instruction that the opcode in bits 24 to 21
/// selects. The four that only set flags exist with bit 20 set alone.
pub open spec fn data_processing_spec(inst: u32) -> Result<Instruction, DecodeError> {
    let opcode = inst.bits_spec(21..25);
    if opcode == 0 {
        Ok(
            Instruction::And {
                condition: condition_spec(inst),
                s: inst.bit_spec(20),
                rd: register_spec(inst, 12),
                rn: register_spec(inst, 16),
                operand2: address_mode_1_spec(inst),
            },
        )
    } else if opcode == 1 {
        Ok(
            Instruction::Eor {
                condition: condition_spec(inst),
                s: inst.bit_spec(20),
                rd: register_spec(inst, 12),
                rn: register_spec(inst, 16),
                operand2: address_mode_1_spec(inst),
            },
        )
    } else if opcode == 2 {
        Ok(
            Instruction::Sub {
                condition: condition_spec(inst),
                s: inst.bit_spec(20),
                rd: register_spec(inst, 12),
                rn: register_spec(inst, 16),
                operand2: address_mode_1_spec(inst),
            },
        )
    } else if opcode == 3 {
        Ok(
            Instruction::Rsb {
                condition: condition_spec(inst),
                s: inst.bit_spec(20),
                rd: register_spec(inst, 12),
                rn: register_spec(inst, 16),
                operand2: address_mode_1_spec(inst),
            },
        )
    } else if opcode == 4 {
        Ok(
            Instruction::Add {
                condition: condition_spec(inst),
                s: inst.bit_spec(20),
                rd: register_spec(inst, 12),
                rn: register_spec(inst, 16),
                operand2: address_mode_1_spec(inst),
            },
        )
    } else if opcode == 5 {
        Ok(
            Instruction::Adc {
                condition: condition_spec(inst),
                s: inst.bit_spec(20),
                rd: register_spec(inst, 12),
                rn: register_spec(inst, 16),
                operand2: address_mode_1_spec(inst),
            },
        )
    } else if opcode == 6 {
        Ok(
            Instruction::Sbc {
                condition: condition_spec(inst),
                s: inst.bit_spec(20),
                rd: register_spec(inst, 12),
                rn: register_spec(inst, 16),
                operand2: address_mode_1_spec(inst),
            },
        )
    } else if opcode == 7 {
        Ok(
            Instruction::Rsc {
                condition: condition_spec(inst),
                s: inst.bit_spec(20),
                rd: register_spec(inst, 12),
                rn: register_spec(inst, 16),
                operand2: address_mode_1_spec(inst),
            },
        )
    } else if opcode == 8 {
        if inst.bit_spec(20) {
            Ok(
                Instruction::Tst {
                    condition: condition_spec(inst),
                    rn: register_spec(inst, 16),
                    operand2: address_mode_1_spec(inst),
                },
            )
        } else {
            Err(DecodeError::Unrecognised(inst))
        }
    } else if opcode == 9 {
        if inst.bit_spec(20) {
            Ok(
                Instruction::Teq {
                    condition: condition_spec(inst),
                    rn: register_spec(inst, 16),
                    operand2: address_mode_1_spec(inst),
                },
            )
        } else {
            Err(DecodeError::Unrecognised(inst))
        }
    } else if opcode == 10 {
        if inst.bit_spec(20) {
            Ok(
                Instruction::Cmp {
                    condition: condition_spec(inst),
                    rn: register_spec(inst, 16),
                    operand2: address_mode_1_spec(inst),
                },
            )
        } else {
            Err(DecodeError::Unrecognised(inst))
        }
    } else if opcode == 11 {
        if inst.bit_spec(20) {
            Ok(
                Instruction::Cmn {
                    condition: condition_spec(inst),
                    rn: register_spec(inst, 16),
                    operand2: address_mode_1_spec(inst),
                },
            )
        } else {
            Err(DecodeError::Unrecognised(inst))
        }
    } else if opcode == 12 {
        Ok(
            Instruction::Orr {
                condition: condition_spec(inst),
                s: inst.bit_spec(20),
                rd: register_spec(inst, 12),
                rn: register_spec(inst, 16),
                operand2: address_mode_1_spec(inst),
            },
        )
    } else if opcode == 13 {
        Ok(
            Instruction::Mov {
                condition: condition_spec(inst),
                s: inst.bit_spec(20),
                rd: register_spec(inst, 12),
                operand2: address_mode_1_spec(inst),
            },
        )
    } else if opcode == 14 {
        Ok(
            Instruction::Bic {
                condition: condition_spec(inst),
                s: inst.bit_spec(20),
                rd: register_spec(inst, 12),
                rn: register_spec(inst, 16),
                operand2: address_mode_1_spec(inst),
            },
        )
    } else {
        Ok(
            Instruction::Mvn {
                condition: condition_spec(inst),
                s: inst.bit_spec(20),
                rd: register_spec(inst, 12),
                operand2: address_mode_1_spec(inst),
            },
        )
    }
}

/// The word or byte transfer that the load bit (bit 20), the byte bit (bit
/// 22) and the addressing select. P (bit 24) clear with W (bit 21) set is
/// the transfer with user access.
pub open spec fn word_transfer_spec(inst: u32) -> Instruction {
    let load = inst.bit_spec(20);
    let byte = inst.bit_spec(22);
    let user = !inst.bit_spec(24) && inst.bit_spec(21);
    if load && byte && user {
        Instruction::Ldrbt {
            condition: condition_spec(inst),
            rd: register_spec(inst, 12),
            address: address_mode_2_spec(inst),
        }
    } else if load && byte {
        Instruction::Ldrb {
            condition: condition_spec(inst),
            rd: register_spec(inst, 12),
            address: address_mode_2_spec(inst),
        }
    } else if load && user {
        Instruction::Ldrt {
            condition: condition_spec(inst),
            rd: register_spec(inst, 12),
            address: address_mode_2_spec(inst),
        }
    } else if load {
        Instruction::Ldr {
            condition: condition_spec(inst),
            rd: register_spec(inst, 12),
            address: address_mode_2_spec(inst),
        }
    } else if byte && user {
        Instruction::Strbt {
            condition: condition_spec(inst),
            rd: register_spec(inst, 12),
            address: address_mode_2_spec(inst),
        }
    } else if byte {
        Instruction::Strb {
            condition: condition_spec(inst),
            rd: register_spec(inst, 12),
            address: address_mode_2_spec(inst),
        }
    } else if user {
        Instruction::Strt {
            condition: condition_spec(inst),
            rd: register_spec(inst, 12),
            address: address_mode_2_spec(inst),
        }
    } else {
        Instruction::Str {
            condition: condition_spec(inst),
            rd: register_spec(inst, 12),
            address: address_mode_2_spec(inst),
        }
    }
}

/// The block transfer that the load bit (bit 20) and the S bit (bit 22)
/// select. With S set, a load whose list holds the program counter restores
/// the status register, and any other transfer is of the user bank; a
/// transfer of the user bank with writeback (bit 21) is left open by the
/// architecture.
pub open spec fn block_transfer_class_spec(inst: u32) -> Result<Instruction, DecodeError> {
    let load = inst.bit_spec(20);
    if !inst.bit_spec(22) {
        if load {
            Ok(
                Instruction::Ldm1 {
                    condition: condition_spec(inst),
                    block: block_transfer_spec(inst),
                },
            )
        } else {
            Ok(
                Instruction::Stm1 {
                    condition: condition_spec(inst),
                    block: block_transfer_spec(inst),
                },
            )
        }
    } else if load && inst.bit_spec(15) {
        Ok(
            Instruction::Ldm3 {
                condition: condition_spec(inst),
                block: block_transfer_spec(inst),
            },
        )
    } else if inst.bit_spec(21) {
        Err(DecodeError::Unpredictable(inst))
    } else if load {
        Ok(
            Instruction::Ldm2 {
                condition: condition_spec(inst),
                block: block_transfer_spec(inst),
            },
        )
    } else {
        Ok(
            Instruction::Stm2 {
                condition: condition_spec(inst),
                block: block_transfer_spec(inst),
            },
        )
    }
}

/// The coprocessor transfer that the load bit (bit 20) selects.
pub open spec fn coprocessor_transfer_spec(inst: u32) -> Instruction {
    if inst.bit_spec(20) {
        Instruction::Ldc {
            condition: condition_spec(inst),
        }
    } else {
        Instruction::Stc {
            condition: condition_spec(inst),
        }
    }
}

/// The coprocessor operation: a data operation where bit 4 is clear, else
/// the register transfer that bit 20 selects.
pub open spec fn coprocessor_operation_spec(inst: u32) -> Instruction {
    if !inst.bit_spec(4) {
        Instruction::Cdp {
            condition: condition_spec(inst),
        }
    } else if inst.bit_spec(20) {
        Instruction::Mrc {
            condition: condition_spec(inst),
        }
    } else {
        Instruction::Mcr {
            condition: condition_spec(inst),
        }
    }
}

/// The instruction that a word encodes: that of its class.
pub open spec fn decode_arm_spec(inst: u32) -> Result<Instruction, DecodeError> {
    match class_spec(inst) {
        Class::Multiply => Ok(multiply_spec(inst)),
        Class::MultiplyLong => Ok(multiply_long_spec(inst)),
        Class::Swap => Ok(swap_spec(inst)),
        Class::HalfwordTransfer => halfword_transfer_spec(inst),
        Class::StatusTransfer => status_transfer_spec(inst),
        Class::BranchExchange => Ok(
            Instruction::Bx {
                condition: condition_spec(inst),
                rm: register_spec(inst, 0),
            },
        ),
        Class::DataProcessing => data_processing_spec(inst),
        Class::WordTransfer => Ok(word_transfer_spec(inst)),
        Class::BlockTransfer => block_transfer_class_spec(inst),
        Class::Branch => Ok(
            Instruction::B {
                condition: condition_spec(inst),
                l: inst.bit_spec(24),
                signed_immed: inst.bits_spec(0..24),
            },
        ),
        Class::CoprocessorTransfer => Ok(coprocessor_transfer_spec(inst)),
        Class::CoprocessorOperation => Ok(coprocessor_operation_spec(inst)),
        Class::SoftwareInterrupt => Ok(
            Instruction::Swi {
                condition: condition_spec(inst),
                immediate: inst.bits_spec(0..24),
            },
        ),
    }
}

fn decode_halfword_transfer(inst: u32) -> (r: Result<Instruction, DecodeError>)
    ensures
        r == halfword_transfer_spec(inst),
        r matches Ok(i) ==> i.wf(),
{
    proof {
        lemma_operand_fields(inst);
    }
    let load = inst.bit(20);
    match inst.bits(5..7) {
        0b01 => if load {
            ldrh(inst)
        } else {
            strh(inst)
        },
        0b10 => if load {
            ldrsb(inst)
        } else {
            Err(DecodeError::Unrecognised(inst))
        },
        0b11 => if load {
            ldrsh(inst)
        } else {
            Err(DecodeError::Unrecognised(inst))
        },
        _ => Err(DecodeError::Unrecognised(inst)),
    }
}

fn decode_data_processing(inst: u32) -> (r: Result<Instruction, DecodeError>)
    ensures
        r == data_processing_spec(inst),
        r matches Ok(i) ==> i.wf(),
{
    let opcode = inst.bits(21..25);
    if opcode == 0 {
        Ok(and(inst))
    } else if opcode == 1 {
        Ok(eor(inst))
    } else if opcode == 2 {
        Ok(self::sub(inst))
    } else if opcode == 3 {
        Ok(rsb(inst))
    } else if opcode == 4 {
        Ok(self::add(inst))
    } else if opcode == 5 {
        Ok(adc(inst))
    } else if opcode == 6 {
        Ok(sbc(inst))
    } else if opcode == 7 {
        Ok(rsc(inst))
    } else if opcode == 8 {
        if inst.bit(20) {
            Ok(tst(inst))
        } else {
            Err(DecodeError::Unrecognised(inst))
        }
    } else if opcode == 9 {
        if inst.bit(20) {
            Ok(teq(inst))
        } else {
            Err(DecodeError::Unrecognised(inst))
        }
    } else if opcode == 10 {
        if inst.bit(20) {
            Ok(cmp(inst))
        } else {
            Err(DecodeError::Unrecognised(inst))
        }
    } else if opcode == 11 {
        if inst.bit(20) {
            Ok(cmn(inst))
        } else {
            Err(DecodeError::Unrecognised(inst))
        }
    } else if opcode == 12 {
        Ok(orr(inst))
    } else if opcode == 13 {
        Ok(mov(inst))
    } else if opcode == 14 {
        Ok(bic(inst))
    } else {
        Ok(mvn(inst))
    }
}

fn decode_word_transfer(inst: u32) -> (r: Instruction)
    ensures
        r == word_transfer_spec(inst),
        r.wf(),
{
    let load = inst.bit(20);
    let byte = inst.bit(22);
    let user = !inst.bit(24) && inst.bit(21);
    if load && byte && user {
        ldrbt(inst)
    } else if load && byte {
        ldrb(inst)
    } else if load && user {
        ldrt(inst)
    } else if load {
        ldr(inst)
    } else if byte && user {
        strbt(inst)
    } else if byte {
        strb(inst)
    } else if user {
        strt(inst)
    } else {
        str(inst)
    }
}

fn decode_block_transfer_class(inst: u32) -> (r: Result<Instruction, DecodeError>)
    ensures
        r == block_transfer_class_spec(inst),
        r matches Ok(i) ==> i.wf(),
{
    let load = inst.bit(20);
    if !inst.bit(22) {
        if load {
            Ok(ldm1(inst))
        } else {
            Ok(stm1(inst))
        }
    } else if load && inst.bit(15) {
        Ok(ldm3(inst))
    } else if inst.bit(21) {
        Err(DecodeError::Unpredictable(inst))
    } else if load {
        Ok(ldm2(inst))
    } else {
        Ok(stm2(inst))
    }
}

/// Decodes a 32 bit ARM instruction word.
///
/// Every word belongs to one class. The result is `Unrecognised` where the
/// class has no instruction for the word, and `Unpredictable` where the
/// architecture leaves the effect of the encoding open: a halfword transfer
/// with P clear and W set, a block transfer of the user bank with writeback.
pub fn decode_arm(inst: u32) -> (r: Result<Instruction, DecodeError>)
    ensures
        r == decode_arm_spec(inst),
        r matches Ok(i) ==> i.wf() && i.condition_spec() == condition_spec(inst),
        r matches Err(e) ==> e == DecodeError::Unrecognised(inst) || e
            == DecodeError::Unpredictable(inst),
{
    match classify(inst) {
        Class::Multiply => if inst.bit(21) {
            Ok(mla(inst))
        } else {
            Ok(self::mul(inst))
        },
        Class::MultiplyLong => match inst.bits(21..23) {
            0b00 => Ok(umull(inst)),
            0b01 => Ok(umlal(inst)),
            0b10 => Ok(smull(inst)),
            _ => Ok(smlal(inst)),
        },
        Class::Swap => if inst.bit(22) {
            Ok(swpb(inst))
        } else {
            Ok(swp(inst))
        },
        Class::HalfwordTransfer => decode_halfword_transfer(inst),
        Class::StatusTransfer => if inst.bit(21) {
            Ok(msr(inst))
        } else if !inst.bit(25) {
            Ok(mrs(inst))
        } else {
            Err(DecodeError::Unrecognised(inst))
        },
        Class::BranchExchange => Ok(bx(inst)),
        Class::DataProcessing => decode_data_processing(inst),
        Class::WordTransfer => Ok(decode_word_transfer(inst)),
        Class::BlockTransfer => decode_block_transfer_class(inst),
        Class::Branch => Ok(b(inst)),
        Class::CoprocessorTransfer => if inst.bit(20) {
            Ok(ldc(inst))
        } else {
            Ok(stc(inst))
        },
        Class::CoprocessorOperation => if !inst.bit(4) {
            Ok(cdp(inst))
        } else if inst.bit(20) {
            Ok(mrc(inst))
        } else {
            Ok(mcr(inst))
        },
        Class::SoftwareInterrupt => Ok(swi(inst)),
    }
}

proof fn lemma_halfword_transfer_gives_wf(inst: u32)
    ensures
        halfword_transfer_spec(inst) matches Ok(i) ==> i.wf() && i.condition_spec()
            == condition_spec(inst),
{
    lemma_operand_fields(inst);
    lemma_split_immediate(inst.bits_spec(8..12), inst.bits_spec(0..4));
}

proof fn lemma_data_processing_gives_wf(inst: u32)
    ensures
        data_processing_spec(inst) matches Ok(i) ==> i.wf() && i.condition_spec()
            == condition_spec(inst),
{
    lemma_operand_fields(inst);
}

proof fn lemma_word_transfer_gives_wf(inst: u32)
    ensures
        word_transfer_spec(inst).wf(),
        word_transfer_spec(inst).condition_spec() == condition_spec(inst),
{
    lemma_operand_fields(inst);
}

proof fn lemma_multiplies_give_wf(inst: u32)
    ensures
        multiply_spec(inst).wf(),
        multiply_spec(inst).condition_spec() == condition_spec(inst),
        multiply_long_spec(inst).wf(),
        multiply_long_spec(inst).condition_spec() == condition_spec(inst),
        swap_spec(inst).wf(),
        swap_spec(inst).condition_spec() == condition_spec(inst),
{
    lemma_operand_fields(inst);
}

proof fn lemma_status_and_block_give_wf(inst: u32)
    ensures
        status_transfer_spec(inst) matches Ok(i) ==> i.wf() && i.condition_spec()
            == condition_spec(inst),
        block_transfer_class_spec(inst) matches Ok(i) ==> i.wf() && i.condition_spec()
            == condition_spec(inst),
{
    lemma_operand_fields(inst);
}

/// Every instruction that a word decodes to is well-formed and has the
/// condition of the word.
pub proof fn lemma_decode_arm_gives_wf(inst: u32)
    ensures
        decode_arm_spec(inst) matches Ok(i) ==> i.wf() && i.condition_spec() == condition_spec(
            inst,
        ),
{
    match class_spec(inst) {
        Class::Multiply | Class::MultiplyLong | Class::Swap => {
            lemma_multiplies_give_wf(inst);
        },
        Class::HalfwordTransfer => {
            lemma_halfword_transfer_gives_wf(inst);
        },
        Class::StatusTransfer | Class::BlockTransfer => {
            lemma_status_and_block_give_wf(inst);
        },
        Class::DataProcessing => {
            lemma_data_processing_gives_wf(inst);
        },
        Class::WordTransfer => {
            lemma_word_transfer_gives_wf(inst);
        },
        Class::BranchExchange | Class::Branch | Class::SoftwareInterrupt => {
            lemma_operand_fields(inst);
        },
        Class::CoprocessorTransfer | Class::CoprocessorOperation => {},
    }
}

} // verus!
