//! The instruction model: one variant for each ARM operation, with its
//! condition and the operands that it needs when it executes.

use crate::cpu::Register;
use vstd::prelude::*;

verus! {

/// The condition under which an instruction executes.
#[derive(Clone, Copy, PartialEq, Eq, Structural, Debug)]
pub enum Condition {
    /// Equal.
    Eq,
    /// Not equal.
    Ne,
    /// Carry set, unsigned higher or same.
    Cs,
    /// Carry clear, unsigned lower.
    Cc,
    /// Minus, negative.
    Mi,
    /// Plus, positive or zero.
    Pl,
    /// Overflow.
    Vs,
    /// No overflow.
    Vc,
    /// Unsigned higher.
    Hi,
    /// Unsigned lower or same.
    Ls,
    /// Signed greater than or equal.
    Ge,
    /// Signed less than.
    Lt,
    /// Signed greater than.
    Gt,
    /// Signed less than or equal.
    Le,
    /// Always.
    Al,
    /// Never.
    Nv,
}

/// A shift of the barrel shifter.
#[derive(Clone, Copy, PartialEq, Eq, Structural, Debug)]
pub enum ShiftDirection {
    /// Arithmetic shift right.
    Asr,
    /// Logical shift left.
    Lsl,
    /// Logical shift right.
    Lsr,
    /// Rotate right.
    Ror,
    /// Rotate right by one bit through the carry flag.
    Rrx,
}

/// An offset, or the amount of a shift.
#[derive(Clone, Copy, PartialEq, Eq, Structural, Debug)]
pub enum AddressingOffset {
    Immediate(u16),
    Register(Register),
    ScaledRegister { rm: Register, shift: ShiftDirection, shift_imm: u8 },
}

/// The second operand of a data-processing instruction: an 8 bit immediate
/// rotated right by twice `rotate`, or register `rm` shifted by an immediate
/// amount or by the low byte of a register.
#[derive(Clone, Copy, PartialEq, Eq, Structural, Debug)]
pub enum AddressMode1 {
    Immediate { value: u8, rotate: u8 },
    Shift { rm: Register, shift: ShiftDirection, shift_imm: AddressingOffset },
}

/// How the base register and the offset of a load or store give the
/// address.
#[derive(Clone, Copy, PartialEq, Eq, Structural, Debug)]
pub enum AddressingMode {
    /// The address is base plus or minus offset; the base is left alone.
    Offset,
    /// The address is base plus or minus offset, which also becomes the base.
    PreIndexed,
    /// The address is the base; base plus or minus offset becomes the base.
    PostIndexed,
}

/// The address of a word or byte load or store. The offset is added to the
/// base where `u` is set, subtracted where it is clear.
#[derive(Clone, Copy, PartialEq, Eq, Structural, Debug)]
pub struct AddressMode2 {
    pub rn: Register,
    pub offset: AddressingOffset,
    pub addressing: AddressingMode,
    pub u: bool,
}

/// The address of a halfword or signed byte load or store.
#[derive(Clone, Copy, PartialEq, Eq, Structural, Debug)]
pub struct AddressMode3 {
    pub rn: Register,
    pub offset: AddressingOffset,
    pub addressing: AddressingMode,
    pub u: bool,
}

/// The operands of a block transfer: the base register, whether the address
/// moves before each transfer (`p`), upwards (`u`), whether the base is
/// written back (`w`), and the registers to transfer, bit `i` of the list
/// standing for register `i`.
#[derive(Clone, Copy, PartialEq, Eq, Structural, Debug)]
pub struct BlockTransfer {
    pub rn: Register,
    pub p: bool,
    pub u: bool,
    pub w: bool,
    pub register_list: u16,
}

/// An instruction as it is fetched: a halfword in Thumb state, a word in
/// ARM state.
#[derive(Clone, Copy, PartialEq, Eq, Structural, Debug)]
pub enum EncodedInstruction {
    Thumb(u16),
    Arm(u32),
}

/// A decoded instruction.
#[allow(inconsistent_fields)]
#[derive(Clone, Copy, PartialEq, Eq, Structural, Debug)]
pub enum Instruction {
    /// Branch, with link where `l` is set. `signed_immed` is the 24 bit
    /// offset in words as it is encoded.
    B { condition: Condition, l: bool, signed_immed: u32 },
    /// Branch and exchange instruction set.
    Bx { condition: Condition, rm: Register },
    /// Rd := Rn AND operand.
    And { condition: Condition, s: bool, rd: Register, rn: Register, operand2: AddressMode1 },
    /// Rd := Rn XOR operand.
    Eor { condition: Condition, s: bool, rd: Register, rn: Register, operand2: AddressMode1 },
    /// Rd := Rn - operand.
    Sub { condition: Condition, s: bool, rd: Register, rn: Register, operand2: AddressMode1 },
    /// Rd := operand - Rn.
    Rsb { condition: Condition, s: bool, rd: Register, rn: Register, operand2: AddressMode1 },
    /// Rd := Rn + operand.
    Add { condition: Condition, s: bool, rd: Register, rn: Register, operand2: AddressMode1 },
    /// Rd := Rn + operand + C.
    Adc { condition: Condition, s: bool, rd: Register, rn: Register, operand2: AddressMode1 },
    /// Rd := Rn - operand - NOT C.
    Sbc { condition: Condition, s: bool, rd: Register, rn: Register, operand2: AddressMode1 },
    /// Rd := operand - Rn - NOT C.
    Rsc { condition: Condition, s: bool, rd: Register, rn: Register, operand2: AddressMode1 },
    /// Sets the flags of Rn AND operand.
    Tst { condition: Condition, rn: Register, operand2: AddressMode1 },
    /// Sets the flags of Rn XOR operand.
    Teq { condition: Condition, rn: Register, operand2: AddressMode1 },
    /// Sets the flags of Rn - operand.
    Cmp { condition: Condition, rn: Register, operand2: AddressMode1 },
    /// Sets the flags of Rn + operand.
    Cmn { condition: Condition, rn: Register, operand2: AddressMode1 },
    /// Rd := Rn OR operand.
    Orr { condition: Condition, s: bool, rd: Register, rn: Register, operand2: AddressMode1 },
    /// Rd := operand.
    Mov { condition: Condition, s: bool, rd: Register, operand2: AddressMode1 },
    /// Rd := Rn AND NOT operand.
    Bic { condition: Condition, s: bool, rd: Register, rn: Register, operand2: AddressMode1 },
    /// Rd := NOT operand.
    Mvn { condition: Condition, s: bool, rd: Register, operand2: AddressMode1 },
    /// Rd := Rm * Rs.
    Mul { condition: Condition, s: bool, rd: Register, rm: Register, rs: Register },
    /// Rd := Rm * Rs + Rn.
    Mla { condition: Condition, s: bool, rd: Register, rn: Register, rm: Register, rs: Register },
    /// RdHi:RdLo := unsigned Rm * Rs.
    Umull {
        condition: Condition,
        s: bool,
        rd_lo: Register,
        rd_hi: Register,
        rm: Register,
        rs: Register,
    },
    /// RdHi:RdLo := unsigned Rm * Rs + RdHi:RdLo.
    Umlal {
        condition: Condition,
        s: bool,
        rd_lo: Register,
        rd_hi: Register,
        rm: Register,
        rs: Register,
    },
    /// RdHi:RdLo := signed Rm * Rs.
    Smull {
        condition: Condition,
        s: bool,
        rd_lo: Register,
        rd_hi: Register,
        rm: Register,
        rs: Register,
    },
    /// RdHi:RdLo := signed Rm * Rs + RdHi:RdLo.
    Smlal {
        condition: Condition,
        s: bool,
        rd_lo: Register,
        rd_hi: Register,
        rm: Register,
        rs: Register,
    },
    /// Writes the bytes that `c`, `x`, `s` and `f` select of the operand to
    /// the current status register, or to the saved one where `r` is set.
    Msr {
        condition: Condition,
        c: bool,
        x: bool,
        s: bool,
        f: bool,
        r: bool,
        address: AddressMode1,
    },
    /// Rd := the current status register, or the saved one where `r` is set.
    Mrs { condition: Condition, r: bool, rd: Register },
    /// Loads a halfword, zero-extended.
    Ldrh { condition: Condition, rd: Register, address: AddressMode3 },
    /// Loads a byte, sign-extended.
    Ldrsb { condition: Condition, rd: Register, address: AddressMode3 },
    /// Loads a halfword, sign-extended.
    Ldrsh { condition: Condition, rd: Register, address: AddressMode3 },
    /// Stores the low halfword of Rd.
    Strh { condition: Condition, rd: Register, address: AddressMode3 },
    /// Loads a byte as User mode would.
    Ldrbt { condition: Condition, rd: Register, address: AddressMode2 },
    /// Loads a word as User mode would.
    Ldrt { condition: Condition, rd: Register, address: AddressMode2 },
    /// Loads a byte, zero-extended.
    Ldrb { condition: Condition, rd: Register, address: AddressMode2 },
    /// Loads a word.
    Ldr { condition: Condition, rd: Register, address: AddressMode2 },
    /// Stores a byte as User mode would.
    Strbt { condition: Condition, rd: Register, address: AddressMode2 },
    /// Stores a word as User mode would.
    Strt { condition: Condition, rd: Register, address: AddressMode2 },
    /// Stores the low byte of Rd.
    Strb { condition: Condition, rd: Register, address: AddressMode2 },
    /// Stores Rd.
    Str { condition: Condition, rd: Register, address: AddressMode2 },
    /// Loads the listed registers.
    Ldm1 { condition: Condition, block: BlockTransfer },
    /// Loads the listed registers of the user bank.
    Ldm2 { condition: Condition, block: BlockTransfer },
    /// Loads the listed registers, the program counter among them, and
    /// restores the status register.
    Ldm3 { condition: Condition, block: BlockTransfer },
    /// Stores the listed registers.
    Stm1 { condition: Condition, block: BlockTransfer },
    /// Stores the listed registers of the user bank.
    Stm2 { condition: Condition, block: BlockTransfer },
    /// Swaps a byte between memory and registers.
    Swpb { condition: Condition, rd: Register, rm: Register, rn: Register },
    /// Swaps a word between memory and registers.
    Swp { condition: Condition, rd: Register, rm: Register, rn: Register },
    /// Software interrupt.
    Swi { condition: Condition, immediate: u32 },
    /// Coprocessor data operation.
    Cdp { condition: Condition },
    /// Coprocessor load.
    Ldc { condition: Condition },
    /// Move to coprocessor from register.
    Mcr { condition: Condition },
    /// Move to register from coprocessor.
    Mrc { condition: Condition },
    /// Coprocessor store.
    Stc { condition: Condition },
}

impl AddressingOffset {
    /// An amount for the shifter of a data-processing operand: an immediate
    /// below 32 or a register.
    pub open spec fn is_shift_amount(self) -> bool {
        match self {
            AddressingOffset::Immediate(amount) => amount < 32,
            AddressingOffset::Register(rs) => rs.wf(),
            AddressingOffset::ScaledRegister { .. } => false,
        }
    }

    /// An offset for a word or byte transfer: a 12 bit immediate, a register,
    /// or a register shifted by an immediate below 32.
    pub open spec fn is_word_offset(self) -> bool {
        match self {
            AddressingOffset::Immediate(offset) => offset < 0x1000,
            AddressingOffset::Register(rm) => rm.wf(),
            AddressingOffset::ScaledRegister { rm, shift_imm, .. } => rm.wf() && shift_imm < 32,
        }
    }

    /// An offset for a halfword or signed byte transfer: an 8 bit immediate
    /// or a register.
    pub open spec fn is_halfword_offset(self) -> bool {
        match self {
            AddressingOffset::Immediate(offset) => offset < 0x100,
            AddressingOffset::Register(rm) => rm.wf(),
            AddressingOffset::ScaledRegister { .. } => false,
        }
    }
}

impl AddressingOffset {
    /// Checks that the offset is an amount for the shifter of a
    /// data-processing operand.
    pub fn check_shift_amount(self) -> (ok: bool)
        ensures
            ok == self.is_shift_amount(),
    {
        match self {
            AddressingOffset::Immediate(amount) => amount < 32,
            AddressingOffset::Register(rs) => rs.well_formed(),
            AddressingOffset::ScaledRegister { .. } => false,
        }
    }

    /// Checks that the offset is one for a word or byte transfer.
    pub fn check_word_offset(self) -> (ok: bool)
        ensures
            ok == self.is_word_offset(),
    {
        match self {
            AddressingOffset::Immediate(offset) => offset < 0x1000,
            AddressingOffset::Register(rm) => rm.well_formed(),
            AddressingOffset::ScaledRegister { rm, shift_imm, .. } => rm.well_formed() && shift_imm
                < 32,
        }
    }

    /// Checks that the offset is one for a halfword or signed byte transfer.
    pub fn check_halfword_offset(self) -> (ok: bool)
        ensures
            ok == self.is_halfword_offset(),
    {
        match self {
            AddressingOffset::Immediate(offset) => offset < 0x100,
            AddressingOffset::Register(rm) => rm.well_formed(),
            AddressingOffset::ScaledRegister { .. } => false,
        }
    }
}

impl AddressMode1 {
    /// Checks that the operand is one that an encoding can hold.
    pub fn well_formed(self) -> (ok: bool)
        ensures
            ok == self.wf(),
    {
        match self {
            AddressMode1::Immediate { rotate, .. } => rotate < 16,
            AddressMode1::Shift { rm, shift_imm, .. } => rm.well_formed()
                && shift_imm.check_shift_amount(),
        }
    }

    /// Whether the operand is one that an encoding can hold.
    pub open spec fn wf(self) -> bool {
        match self {
            AddressMode1::Immediate { rotate, .. } => rotate < 16,
            AddressMode1::Shift { rm, shift_imm, .. } => rm.wf() && shift_imm.is_shift_amount(),
        }
    }
}

impl AddressMode2 {
    /// Checks that the address is one that an encoding can hold.
    pub fn well_formed(self) -> (ok: bool)
        ensures
            ok == self.wf(),
    {
        self.rn.well_formed() && self.offset.check_word_offset()
    }

    /// Whether the address is one that an encoding can hold.
    pub open spec fn wf(self) -> bool {
        self.rn.wf() && self.offset.is_word_offset()
    }
}

impl AddressMode3 {
    /// Checks that the address is one that an encoding can hold.
    pub fn well_formed(self) -> (ok: bool)
        ensures
            ok == self.wf(),
    {
        self.rn.well_formed() && self.offset.check_halfword_offset()
    }

    /// Whether the address is one that an encoding can hold.
    pub open spec fn wf(self) -> bool {
        self.rn.wf() && self.offset.is_halfword_offset()
    }
}

impl BlockTransfer {
    /// Checks that the base is a register.
    pub fn well_formed(self) -> (ok: bool)
        ensures
            ok == self.wf(),
    {
        self.rn.well_formed()
    }

    /// Whether the base is a register.
    pub open spec fn wf(self) -> bool {
        self.rn.wf()
    }
}

impl Instruction {
    /// Whether every operand is one that an encoding can hold: register
    /// indices below 16, immediates within their fields, offsets of the kind
    /// that the addressing mode takes.
    pub open spec fn wf(self) -> bool {
        match self {
            Instruction::B { signed_immed, .. } => signed_immed < 0x100_0000,
            Instruction::Bx { rm, .. } => rm.wf(),
            Instruction::And { rd, rn, operand2, .. }
            | Instruction::Eor { rd, rn, operand2, .. }
            | Instruction::Sub { rd, rn, operand2, .. }
            | Instruction::Rsb { rd, rn, operand2, .. }
            | Instruction::Add { rd, rn, operand2, .. }
            | Instruction::Adc { rd, rn, operand2, .. }
            | Instruction::Sbc { rd, rn, operand2, .. }
            | Instruction::Rsc { rd, rn, operand2, .. }
            | Instruction::Orr { rd, rn, operand2, .. }
            | Instruction::Bic { rd, rn, operand2, .. } => rd.wf() && rn.wf() && operand2.wf(),
            Instruction::Tst { rn, operand2, .. }
            | Instruction::Teq { rn, operand2, .. }
            | Instruction::Cmp { rn, operand2, .. }
            | Instruction::Cmn { rn, operand2, .. } => rn.wf() && operand2.wf(),
            Instruction::Mov { rd, operand2, .. } | Instruction::Mvn { rd, operand2, .. } => rd.wf()
                && operand2.wf(),
            Instruction::Mul { rd, rm, rs, .. } => rd.wf() && rm.wf() && rs.wf(),
            Instruction::Mla { rd, rn, rm, rs, .. } => rd.wf() && rn.wf() && rm.wf() && rs.wf(),
            Instruction::Umull { rd_lo, rd_hi, rm, rs, .. }
            | Instruction::Umlal { rd_lo, rd_hi, rm, rs, .. }
            | Instruction::Smull { rd_lo, rd_hi, rm, rs, .. }
            | Instruction::Smlal { rd_lo, rd_hi, rm, rs, .. } => rd_lo.wf() && rd_hi.wf()
                && rm.wf() && rs.wf(),
            Instruction::Msr { address, .. } => address.wf(),
            Instruction::Mrs { rd, .. } => rd.wf(),
            Instruction::Ldrh { rd, address, .. }
            | Instruction::Ldrsb { rd, address, .. }
            | Instruction::Ldrsh { rd, address, .. }
            | Instruction::Strh { rd, address, .. } => rd.wf() && address.wf(),
            Instruction::Ldrbt { rd, address, .. }
            | Instruction::Ldrt { rd, address, .. }
            | Instruction::Ldrb { rd, address, .. }
            | Instruction::Ldr { rd, address, .. }
            | Instruction::Strbt { rd, address, .. }
            | Instruction::Strt { rd, address, .. }
            | Instruction::Strb { rd, address, .. }
            | Instruction::Str { rd, address, .. } => rd.wf() && address.wf(),
            Instruction::Ldm1 { block, .. }
            | Instruction::Ldm2 { block, .. }
            | Instruction::Ldm3 { block, .. }
            | Instruction::Stm1 { block, .. }
            | Instruction::Stm2 { block, .. } => block.wf(),
            Instruction::Swpb { rd, rm, rn, .. } | Instruction::Swp { rd, rm, rn, .. } => rd.wf()
                && rm.wf() && rn.wf(),
            Instruction::Swi { immediate, .. } => immediate < 0x100_0000,
            Instruction::Cdp { .. }
            | Instruction::Ldc { .. }
            | Instruction::Mcr { .. }
            | Instruction::Mrc { .. }
            | Instruction::Stc { .. } => true,
        }
    }

    /// Checks that every operand is one that an encoding can hold.
    pub fn well_formed(self) -> (ok: bool)
        ensures
            ok == self.wf(),
    {
        match self {
            Instruction::B { signed_immed, .. } => signed_immed < 0x100_0000,
            Instruction::Bx { rm, .. } => rm.well_formed(),
            Instruction::And { rd, rn, operand2, .. }
            | Instruction::Eor { rd, rn, operand2, .. }
            | Instruction::Sub { rd, rn, operand2, .. }
            | Instruction::Rsb { rd, rn, operand2, .. }
            | Instruction::Add { rd, rn, operand2, .. }
            | Instruction::Adc { rd, rn, operand2, .. }
            | Instruction::Sbc { rd, rn, operand2, .. }
            | Instruction::Rsc { rd, rn, operand2, .. }
            | Instruction::Orr { rd, rn, operand2, .. }
            | Instruction::Bic { rd, rn, operand2, .. } => rd.well_formed() && rn.well_formed()
                && operand2.well_formed(),
            Instruction::Tst { rn, operand2, .. }
            | Instruction::Teq { rn, operand2, .. }
            | Instruction::Cmp { rn, operand2, .. }
            | Instruction::Cmn { rn, operand2, .. } => rn.well_formed() && operand2.well_formed(),
            Instruction::Mov { rd, operand2, .. }
            | Instruction::Mvn { rd, operand2, .. } => rd.well_formed() && operand2.well_formed(),
            Instruction::Mul { rd, rm, rs, .. } => rd.well_formed() && rm.well_formed()
                && rs.well_formed(),
            Instruction::Mla { rd, rn, rm, rs, .. } => rd.well_formed() && rn.well_formed()
                && rm.well_formed() && rs.well_formed(),
            Instruction::Umull { rd_lo, rd_hi, rm, rs, .. }
            | Instruction::Umlal { rd_lo, rd_hi, rm, rs, .. }
            | Instruction::Smull { rd_lo, rd_hi, rm, rs, .. }
            | Instruction::Smlal { rd_lo, rd_hi, rm, rs, .. } => rd_lo.well_formed()
                && rd_hi.well_formed() && rm.well_formed() && rs.well_formed(),
            Instruction::Msr { address, .. } => address.well_formed(),
            Instruction::Mrs { rd, .. } => rd.well_formed(),
            Instruction::Ldrh { rd, address, .. }
            | Instruction::Ldrsb { rd, address, .. }
            | Instruction::Ldrsh { rd, address, .. }
            | Instruction::Strh { rd, address, .. } => rd.well_formed() && address.well_formed(),
            Instruction::Ldrbt { rd, address, .. }
            | Instruction::Ldrt { rd, address, .. }
            | Instruction::Ldrb { rd, address, .. }
            | Instruction::Ldr { rd, address, .. }
            | Instruction::Strbt { rd, address, .. }
            | Instruction::Strt { rd, address, .. }
            | Instruction::Strb { rd, address, .. }
            | Instruction::Str { rd, address, .. } => rd.well_formed() && address.well_formed(),
            Instruction::Ldm1 { block, .. }
            | Instruction::Ldm2 { block, .. }
            | Instruction::Ldm3 { block, .. }
            | Instruction::Stm1 { block, .. }
            | Instruction::Stm2 { block, .. } => block.well_formed(),
            Instruction::Swpb { rd, rm, rn, .. }
            | Instruction::Swp { rd, rm, rn, .. } => rd.well_formed() && rm.well_formed()
                && rn.well_formed(),
            Instruction::Swi { immediate, .. } => immediate < 0x100_0000,
            Instruction::Cdp { .. }
            | Instruction::Ldc { .. }
            | Instruction::Mcr { .. }
            | Instruction::Mrc { .. }
            | Instruction::Stc { .. } => true,
        }
    }

    /// The condition of the instruction.
    pub open spec fn condition_spec(self) -> Condition {
        match self {
            Instruction::B { condition, .. }
            | Instruction::Bx { condition, .. }
            | Instruction::And { condition, .. }
            | Instruction::Eor { condition, .. }
            | Instruction::Sub { condition, .. }
            | Instruction::Rsb { condition, .. }
            | Instruction::Add { condition, .. }
            | Instruction::Adc { condition, .. }
            | Instruction::Sbc { condition, .. }
            | Instruction::Rsc { condition, .. }
            | Instruction::Tst { condition, .. }
            | Instruction::Teq { condition, .. }
            | Instruction::Cmp { condition, .. }
            | Instruction::Cmn { condition, .. }
            | Instruction::Orr { condition, .. }
            | Instruction::Mov { condition, .. }
            | Instruction::Bic { condition, .. }
            | Instruction::Mvn { condition, .. }
            | Instruction::Mul { condition, .. }
            | Instruction::Mla { condition, .. }
            | Instruction::Umull { condition, .. }
            | Instruction::Umlal { condition, .. }
            | Instruction::Smull { condition, .. }
            | Instruction::Smlal { condition, .. }
            | Instruction::Msr { condition, .. }
            | Instruction::Mrs { condition, .. }
            | Instruction::Ldrh { condition, .. }
            | Instruction::Ldrsb { condition, .. }
            | Instruction::Ldrsh { condition, .. }
            | Instruction::Strh { condition, .. }
            | Instruction::Ldrbt { condition, .. }
            | Instruction::Ldrt { condition, .. }
            | Instruction::Ldrb { condition, .. }
            | Instruction::Ldr { condition, .. }
            | Instruction::Strbt { condition, .. }
            | Instruction::Strt { condition, .. }
            | Instruction::Strb { condition, .. }
            | Instruction::Str { condition, .. }
            | Instruction::Ldm1 { condition, .. }
            | Instruction::Ldm2 { condition, .. }
            | Instruction::Ldm3 { condition, .. }
            | Instruction::Stm1 { condition, .. }
            | Instruction::Stm2 { condition, .. }
            | Instruction::Swpb { condition, .. }
            | Instruction::Swp { condition, .. }
            | Instruction::Swi { condition, .. }
            | Instruction::Cdp { condition, .. }
            | Instruction::Ldc { condition, .. }
            | Instruction::Mcr { condition, .. }
            | Instruction::Mrc { condition, .. }
            | Instruction::Stc { condition, .. } => condition,
        }
    }

    /// The condition under which the instruction executes.
    pub fn condition(&self) -> (condition: Condition)
        ensures
            condition == self.condition_spec(),
    {
        match *self {
            Instruction::B { condition, .. }
            | Instruction::Bx { condition, .. }
            | Instruction::And { condition, .. }
            | Instruction::Eor { condition, .. }
            | Instruction::Sub { condition, .. }
            | Instruction::Rsb { condition, .. }
            | Instruction::Add { condition, .. }
            | Instruction::Adc { condition, .. }
            | Instruction::Sbc { condition, .. }
            | Instruction::Rsc { condition, .. }
            | Instruction::Tst { condition, .. }
            | Instruction::Teq { condition, .. }
            | Instruction::Cmp { condition, .. }
            | Instruction::Cmn { condition, .. }
            | Instruction::Orr { condition, .. }
            | Instruction::Mov { condition, .. }
            | Instruction::Bic { condition, .. }
            | Instruction::Mvn { condition, .. }
            | Instruction::Mul { condition, .. }
            | Instruction::Mla { condition, .. }
            | Instruction::Umull { condition, .. }
            | Instruction::Umlal { condition, .. }
            | Instruction::Smull { condition, .. }
            | Instruction::Smlal { condition, .. }
            | Instruction::Msr { condition, .. }
            | Instruction::Mrs { condition, .. }
            | Instruction::Ldrh { condition, .. }
            | Instruction::Ldrsb { condition, .. }
            | Instruction::Ldrsh { condition, .. }
            | Instruction::Strh { condition, .. }
            | Instruction::Ldrbt { condition, .. }
            | Instruction::Ldrt { condition, .. }
            | Instruction::Ldrb { condition, .. }
            | Instruction::Ldr { condition, .. }
            | Instruction::Strbt { condition, .. }
            | Instruction::Strt { condition, .. }
            | Instruction::Strb { condition, .. }
            | Instruction::Str { condition, .. }
            | Instruction::Ldm1 { condition, .. }
            | Instruction::Ldm2 { condition, .. }
            | Instruction::Ldm3 { condition, .. }
            | Instruction::Stm1 { condition, .. }
            | Instruction::Stm2 { condition, .. }
            | Instruction::Swpb { condition, .. }
            | Instruction::Swp { condition, .. }
            | Instruction::Swi { condition, .. }
            | Instruction::Cdp { condition, .. }
            | Instruction::Ldc { condition, .. }
            | Instruction::Mcr { condition, .. }
            | Instruction::Mrc { condition, .. }
            | Instruction::Stc { condition, .. } => condition,
        }
    }
}

} // verus!
