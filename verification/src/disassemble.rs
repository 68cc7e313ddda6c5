//! The disassembler: the text of a decoded instruction in assembler syntax.

use crate::arith::rotate_right;
use crate::arith::rotate_right_spec;
use crate::cpu::Register;
use crate::execute::{sign_extend, sign_extend_spec};
use crate::instruction::{
    AddressMode1, AddressMode2, AddressMode3, AddressingMode, AddressingOffset, Condition,
    Instruction, ShiftDirection,
};
use vstd::prelude::*;
use vstd::string::*;
use vstd::wrapping::u32_specs::wrapping_add;

verus! {

/// The text of a flag: `string` where it is set, nothing where it is not.
pub open spec fn flag_text(value: bool, string: Seq<char>) -> Seq<char> {
    if value {
        string
    } else {
        ""@
    }
}

/// `string` where `value` holds, else the empty string.
pub fn format_bool<'a>(value: bool, string: &'a str) -> (text: &'a str)
    ensures
        text@ == flag_text(value, string@),
{
    if value {
        string
    } else {
        ""
    }
}

/// The hexadecimal digit for a number below 16, in lower case.
pub open spec fn digit_text(digit: u32) -> Seq<char> {
    if digit == 0 {
        "0"@
    } else if digit == 1 {
        "1"@
    } else if digit == 2 {
        "2"@
    } else if digit == 3 {
        "3"@
    } else if digit == 4 {
        "4"@
    } else if digit == 5 {
        "5"@
    } else if digit == 6 {
        "6"@
    } else if digit == 7 {
        "7"@
    } else if digit == 8 {
        "8"@
    } else if digit == 9 {
        "9"@
    } else if digit == 10 {
        "a"@
    } else if digit == 11 {
        "b"@
    } else if digit == 12 {
        "c"@
    } else if digit == 13 {
        "d"@
    } else if digit == 14 {
        "e"@
    } else {
        "f"@
    }
}

fn digit(value: u32) -> (text: &'static str)
    requires
        value < 16,
    ensures
        text@ == digit_text(value),
{
    match value {
        0 => "0",
        1 => "1",
        2 => "2",
        3 => "3",
        4 => "4",
        5 => "5",
        6 => "6",
        7 => "7",
        8 => "8",
        9 => "9",
        10 => "a",
        11 => "b",
        12 => "c",
        13 => "d",
        14 => "e",
        _ => "f",
    }
}

/// The hexadecimal digits of a number, without leading zeros; one digit for
/// zero.
pub open spec fn hex_digits_text(value: u32) -> Seq<char>
    decreases value,
{
    if value < 16 {
        digit_text(value)
    } else {
        hex_digits_text(value / 16) + digit_text(value % 16)
    }
}

fn hex_digits(value: u32) -> (text: String)
    ensures
        text@ == hex_digits_text(value),
    decreases value,
{
    if value < 16 {
        String::from_str(digit(value))
    } else {
        let mut text = hex_digits(value / 16);
        text.append(digit(value % 16));
        text
    }
}

/// A number in hexadecimal: `0x` and its digits.
pub open spec fn hex_text(value: u32) -> Seq<char> {
    "0x"@ + hex_digits_text(value)
}

/// Writes a number in hexadecimal: `0x`, then its digits in lower case
/// without leading zeros.
pub fn hex(value: u32) -> (text: String)
    ensures
        text@ == hex_text(value),
{
    let mut text = String::from_str("0x");
    let digits = hex_digits(value);
    text.append(digits.as_str());
    text
}

impl Condition {
    /// The suffix of the condition. Always has none.
    pub open spec fn text(self) -> Seq<char> {
        match self {
            Condition::Eq => "eq"@,
            Condition::Ne => "ne"@,
            Condition::Cs => "cs"@,
            Condition::Cc => "cc"@,
            Condition::Mi => "mi"@,
            Condition::Pl => "pl"@,
            Condition::Vs => "vs"@,
            Condition::Vc => "vc"@,
            Condition::Hi => "hi"@,
            Condition::Ls => "ls"@,
            Condition::Ge => "ge"@,
            Condition::Lt => "lt"@,
            Condition::Gt => "gt"@,
            Condition::Le => "le"@,
            Condition::Al => ""@,
            Condition::Nv => "nv"@,
        }
    }

    /// The suffix that the condition adds to a mnemonic.
    pub fn as_str(self) -> (text: &'static str)
        ensures
            text@ == self.text(),
    {
        match self {
            Condition::Eq => "eq",
            Condition::Ne => "ne",
            Condition::Cs => "cs",
            Condition::Cc => "cc",
            Condition::Mi => "mi",
            Condition::Pl => "pl",
            Condition::Vs => "vs",
            Condition::Vc => "vc",
            Condition::Hi => "hi",
            Condition::Ls => "ls",
            Condition::Ge => "ge",
            Condition::Lt => "lt",
            Condition::Gt => "gt",
            Condition::Le => "le",
            Condition::Al => "",
            Condition::Nv => "nv",
        }
    }

    /// Writes the suffix of the condition.
    pub fn to_string(self) -> (text: String)
        ensures
            text@ == self.text(),
    {
        String::from_str(self.as_str())
    }
}

impl Register {
    /// The name of the register: `r0` to `r11`, then `ip`, `sp`, `lr`, `pc`.
    pub open spec fn text(self) -> Seq<char> {
        if self.0 == 0 {
            "r0"@
        } else if self.0 == 1 {
            "r1"@
        } else if self.0 == 2 {
            "r2"@
        } else if self.0 == 3 {
            "r3"@
        } else if self.0 == 4 {
            "r4"@
        } else if self.0 == 5 {
            "r5"@
        } else if self.0 == 6 {
            "r6"@
        } else if self.0 == 7 {
            "r7"@
        } else if self.0 == 8 {
            "r8"@
        } else if self.0 == 9 {
            "r9"@
        } else if self.0 == 10 {
            "r10"@
        } else if self.0 == 11 {
            "r11"@
        } else if self.0 == 12 {
            "ip"@
        } else if self.0 == 13 {
            "sp"@
        } else if self.0 == 14 {
            "lr"@
        } else {
            "pc"@
        }
    }

    /// The name of the register.
    pub fn as_str(self) -> (text: &'static str)
        requires
            self.wf(),
        ensures
            text@ == self.text(),
    {
        match self.0 {
            0 => "r0",
            1 => "r1",
            2 => "r2",
            3 => "r3",
            4 => "r4",
            5 => "r5",
            6 => "r6",
            7 => "r7",
            8 => "r8",
            9 => "r9",
            10 => "r10",
            11 => "r11",
            12 => "ip",
            13 => "sp",
            14 => "lr",
            _ => "pc",
        }
    }

    /// Writes the name of the register.
    pub fn to_string(self) -> (text: String)
        requires
            self.wf(),
        ensures
            text@ == self.text(),
    {
        String::from_str(self.as_str())
    }
}

impl ShiftDirection {
    /// The name of the shift.
    pub open spec fn text(self) -> Seq<char> {
        match self {
            ShiftDirection::Asr => "asr"@,
            ShiftDirection::Lsl => "lsl"@,
            ShiftDirection::Lsr => "lsr"@,
            ShiftDirection::Ror => "ror"@,
            ShiftDirection::Rrx => "rrx"@,
        }
    }

    /// The name of the shift.
    pub fn as_str(self) -> (text: &'static str)
        ensures
            text@ == self.text(),
    {
        match self {
            ShiftDirection::Asr => "asr",
            ShiftDirection::Lsl => "lsl",
            ShiftDirection::Lsr => "lsr",
            ShiftDirection::Ror => "ror",
            ShiftDirection::Rrx => "rrx",
        }
    }
}

/// An immediate shift amount as it is written: zero stands for 32.
pub open spec fn amount_text(amount: u32) -> Seq<char> {
    hex_text(
        if amount == 0 {
            32
        } else {
            amount
        },
    )
}

fn amount(value: u32) -> (text: String)
    ensures
        text@ == amount_text(value),
{
    hex(
        if value == 0 {
            32
        } else {
            value
        },
    )
}

/// Register `rm` with its shift: the register, a comma, the name of the
/// shift and the amount. The rotation through carry has no amount.
pub open spec fn shifted_text(rm: Register, shift: ShiftDirection, amount: Seq<char>) -> Seq<char> {
    if shift == ShiftDirection::Rrx {
        rm.text() + ", rrx"@
    } else {
        rm.text() + ", "@ + shift.text() + " "@ + amount
    }
}

fn shifted(rm: Register, shift: ShiftDirection, amount: String) -> (text: String)
    requires
        rm.wf(),
    ensures
        text@ == shifted_text(rm, shift, amount@),
{
    let mut text = rm.to_string();
    match shift {
        ShiftDirection::Rrx => {
            text.append(", rrx");
        },
        _ => {
            text.append(", ");
            text.append(shift.as_str());
            text.append(" ");
            text.append(amount.as_str());
        },
    }
    text
}

impl AddressMode1 {
    /// The operand as it is written: `#` and the rotated immediate in
    /// hexadecimal, or the register with its shift. A shift left by an
    /// immediate of zero is the plain register.
    pub open spec fn text(self) -> Seq<char> {
        match self {
            AddressMode1::Immediate { value, rotate } => "#"@ + hex_text(
                rotate_right_spec(value as u32, (2 * rotate) as u32),
            ),
            AddressMode1::Shift { rm, shift, shift_imm } => if shift == ShiftDirection::Lsl
                && shift_imm == AddressingOffset::Immediate(0) {
                rm.text()
            } else {
                shifted_text(
                    rm,
                    shift,
                    match shift_imm {
                        AddressingOffset::Immediate(value) => amount_text(value as u32),
                        AddressingOffset::Register(rs) => rs.text(),
                        AddressingOffset::ScaledRegister { .. } => ""@,
                    },
                )
            },
        }
    }

    /// Writes the operand in assembler syntax.
    pub fn to_string(self) -> (text: String)
        requires
            self.wf(),
        ensures
            text@ == self.text(),
    {
        match self {
            AddressMode1::Immediate { value, rotate } => {
                let mut text = String::from_str("#");
                let number = hex(rotate_right(value as u32, 2 * (rotate as u32)));
                text.append(number.as_str());
                text
            },
            AddressMode1::Shift { rm, shift, shift_imm } => {
                let plain = match (shift, shift_imm) {
                    (ShiftDirection::Lsl, AddressingOffset::Immediate(0)) => true,
                    _ => false,
                };
                if plain {
                    rm.to_string()
                } else {
                    let by = match shift_imm {
                        AddressingOffset::Immediate(value) => amount(value as u32),
                        AddressingOffset::Register(rs) => rs.to_string(),
                        AddressingOffset::ScaledRegister { .. } => String::from_str(""),
                    };
                    shifted(rm, shift, by)
                }
            },
        }
    }
}

impl AddressingOffset {
    /// The offset of a transfer as it is written: an immediate in
    /// hexadecimal, a register, or a register with its shift.
    pub open spec fn text(self) -> Seq<char> {
        match self {
            AddressingOffset::Immediate(value) => hex_text(value as u32),
            AddressingOffset::Register(rm) => rm.text(),
            AddressingOffset::ScaledRegister { rm, shift, shift_imm } => shifted_text(
                rm,
                shift,
                amount_text(shift_imm as u32),
            ),
        }
    }

    /// Writes the offset in assembler syntax.
    pub fn to_string(self) -> (text: String)
        requires
            self.is_word_offset(),
        ensures
            text@ == self.text(),
    {
        match self {
            AddressingOffset::Immediate(value) => hex(value as u32),
            AddressingOffset::Register(rm) => rm.to_string(),
            AddressingOffset::ScaledRegister { rm, shift, shift_imm } => shifted(
                rm,
                shift,
                amount(shift_imm as u32),
            ),
        }
    }
}

/// The address of a transfer as it is written. The offset follows `#`, with
/// `-` before it where it is subtracted. With offset addressing it stands
/// inside the brackets with the base; pre-indexed, a `!` follows the
/// brackets; post-indexed, it follows the brackets.
pub open spec fn address_text(
    rn: Register,
    offset: AddressingOffset,
    addressing: AddressingMode,
    u: bool,
) -> Seq<char> {
    let signed = "#"@ + flag_text(!u, "-"@) + offset.text();
    match addressing {
        AddressingMode::Offset => "["@ + rn.text() + ", "@ + signed + "]"@,
        AddressingMode::PreIndexed => "["@ + rn.text() + ", "@ + signed + "]!"@,
        AddressingMode::PostIndexed => "["@ + rn.text() + "], "@ + signed,
    }
}

fn address(rn: Register, offset: AddressingOffset, addressing: AddressingMode, u: bool) -> (text:
    String)
    requires
        rn.wf(),
        offset.is_word_offset(),
    ensures
        text@ == address_text(rn, offset, addressing, u),
{
    let mut signed = String::from_str("#");
    signed.append(format_bool(!u, "-"));
    let value = offset.to_string();
    signed.append(value.as_str());
    let mut text = String::from_str("[");
    text.append(rn.as_str());
    match addressing {
        AddressingMode::Offset => {
            text.append(", ");
            text.append(signed.as_str());
            text.append("]");
        },
        AddressingMode::PreIndexed => {
            text.append(", ");
            text.append(signed.as_str());
            text.append("]!");
        },
        AddressingMode::PostIndexed => {
            text.append("], ");
            text.append(signed.as_str());
        },
    }
    text
}

impl AddressMode2 {
    /// The address as it is written.
    pub open spec fn text(self) -> Seq<char> {
        address_text(self.rn, self.offset, self.addressing, self.u)
    }

    /// Writes the address in assembler syntax.
    pub fn to_string(self) -> (text: String)
        requires
            self.wf(),
        ensures
            text@ == self.text(),
    {
        address(self.rn, self.offset, self.addressing, self.u)
    }
}

impl AddressMode3 {
    /// The address as it is written.
    pub open spec fn text(self) -> Seq<char> {
        address_text(self.rn, self.offset, self.addressing, self.u)
    }

    /// Writes the address in assembler syntax.
    pub fn to_string(self) -> (text: String)
        requires
            self.wf(),
        ensures
            text@ == self.text(),
    {
        address(self.rn, self.offset, self.addressing, self.u)
    }
}

/// A mnemonic: the name of the operation, the condition, and a suffix.
pub open spec fn mnemonic_text(name: Seq<char>, condition: Condition, suffix: Seq<char>) -> Seq<
    char,
> {
    name + condition.text() + suffix
}

fn mnemonic(name: &str, condition: Condition, suffix: &str) -> (text: String)
    ensures
        text@ == mnemonic_text(name@, condition, suffix@),
{
    let mut text = String::from_str(name);
    text.append(condition.as_str());
    text.append(suffix);
    text
}

/// The mnemonic of a branch: `b`, an `l` for the link, the condition.
pub open spec fn branch_mnemonic_text(l: bool, condition: Condition) -> Seq<char> {
    "b"@ + flag_text(l, "l"@) + condition.text()
}

fn branch_mnemonic(l: bool, condition: Condition) -> (text: String)
    ensures
        text@ == branch_mnemonic_text(l, condition),
{
    let mut text = String::from_str("b");
    text.append(format_bool(l, "l"));
    text.append(condition.as_str());
    text
}

fn branch_target(signed_immed: u32) -> (target: u32)
    ensures
        target == wrapping_add(sign_extend_spec(signed_immed, 24) << 2u8, 8),
{
    (sign_extend(signed_immed, 24) << 2u8).wrapping_add(8)
}

/// The name of a status register: the saved one where `r` is set.
pub open spec fn status_name_text(r: bool) -> Seq<char> {
    if r {
        "spsr"@
    } else {
        "cpsr"@
    }
}

fn status_name(r: bool) -> (text: &'static str)
    ensures
        text@ == status_name_text(r),
{
    if r {
        "spsr"
    } else {
        "cpsr"
    }
}

/// A status register with the fields that a move writes: the name, `_`,
/// and a letter for each of the fields c, x, s and f.
pub open spec fn status_fields_text(r: bool, c: bool, x: bool, s: bool, f: bool) -> Seq<char> {
    status_name_text(r) + "_"@ + flag_text(c, "c"@) + flag_text(x, "x"@) + flag_text(s, "s"@)
        + flag_text(f, "f"@)
}

fn status_fields(r: bool, c: bool, x: bool, s: bool, f: bool) -> (text: String)
    ensures
        text@ == status_fields_text(r, c, x, s, f),
{
    let mut text = String::from_str(status_name(r));
    text.append("_");
    text.append(format_bool(c, "c"));
    text.append(format_bool(x, "x"));
    text.append(format_bool(s, "s"));
    text.append(format_bool(f, "f"));
    text
}

/// A line with one operand: the mnemonic, a tab, the operand.
pub open spec fn line1_text(head: Seq<char>, a: Seq<char>) -> Seq<char> {
    head + "\t"@ + a
}

/// A line with two operands, a comma and a space between them.
pub open spec fn line2_text(head: Seq<char>, a: Seq<char>, b: Seq<char>) -> Seq<char> {
    head + "\t"@ + a + ", "@ + b
}

/// A line with three operands.
pub open spec fn line3_text(head: Seq<char>, a: Seq<char>, b: Seq<char>, c: Seq<char>) -> Seq<
    char,
> {
    head + "\t"@ + a + ", "@ + b + ", "@ + c
}

/// A line with four operands.
pub open spec fn line4_text(
    head: Seq<char>,
    a: Seq<char>,
    b: Seq<char>,
    c: Seq<char>,
    d: Seq<char>,
) -> Seq<char> {
    head + "\t"@ + a + ", "@ + b + ", "@ + c + ", "@ + d
}

fn line1(head: String, a: String) -> (text: String)
    ensures
        text@ == line1_text(head@, a@),
{
    let mut text = head;
    text.append("\t");
    text.append(a.as_str());
    text
}

fn line2(head: String, a: String, b: String) -> (text: String)
    ensures
        text@ == line2_text(head@, a@, b@),
{
    let mut text = line1(head, a);
    text.append(", ");
    text.append(b.as_str());
    text
}

fn line3(head: String, a: String, b: String, c: String) -> (text: String)
    ensures
        text@ == line3_text(head@, a@, b@, c@),
{
    let mut text = line2(head, a, b);
    text.append(", ");
    text.append(c.as_str());
    text
}

fn line4(head: String, a: String, b: String, c: String, d: String) -> (text: String)
    ensures
        text@ == line4_text(head@, a@, b@, c@, d@),
{
    let mut text = line3(head, a, b, c);
    text.append(", ");
    text.append(d.as_str());
    text
}

impl Instruction {
    /// The instruction in assembler syntax: the mnemonic with the condition
    /// and, after a tab, the operands. A block transfer, a swap, a software
    /// interrupt and a coprocessor instruction are written without operands.
    pub open spec fn text(self) -> Seq<char> {
        match self {
            Instruction::B { condition, l, signed_immed } => line1_text(
                branch_mnemonic_text(l, condition),
                hex_text(wrapping_add(sign_extend_spec(signed_immed, 24) << 2u8, 8)),
            ),
            Instruction::Bx { condition, rm } => line1_text(
                mnemonic_text("bx"@, condition, ""@),
                rm.text(),
            ),
            Instruction::And { condition, s, rd, rn, operand2 } => line3_text(
                mnemonic_text("and"@, condition, flag_text(s, "s"@)),
                rd.text(),
                rn.text(),
                operand2.text(),
            ),
            Instruction::Eor { condition, s, rd, rn, operand2 } => line3_text(
                mnemonic_text("eor"@, condition, flag_text(s, "s"@)),
                rd.text(),
                rn.text(),
                operand2.text(),
            ),
            Instruction::Sub { condition, s, rd, rn, operand2 } => line3_text(
                mnemonic_text("sub"@, condition, flag_text(s, "s"@)),
                rd.text(),
                rn.text(),
                operand2.text(),
            ),
            Instruction::Rsb { condition, s, rd, rn, operand2 } => line3_text(
                mnemonic_text("rsb"@, condition, flag_text(s, "s"@)),
                rd.text(),
                rn.text(),
                operand2.text(),
            ),
            Instruction::Add { condition, s, rd, rn, operand2 } => line3_text(
                mnemonic_text("add"@, condition, flag_text(s, "s"@)),
                rd.text(),
                rn.text(),
                operand2.text(),
            ),
            Instruction::Adc { condition, s, rd, rn, operand2 } => line3_text(
                mnemonic_text("adc"@, condition, flag_text(s, "s"@)),
                rd.text(),
                rn.text(),
                operand2.text(),
            ),
            Instruction::Sbc { condition, s, rd, rn, operand2 } => line3_text(
                mnemonic_text("sbc"@, condition, flag_text(s, "s"@)),
                rd.text(),
                rn.text(),
                operand2.text(),
            ),
            Instruction::Rsc { condition, s, rd, rn, operand2 } => line3_text(
                mnemonic_text("rsc"@, condition, flag_text(s, "s"@)),
                rd.text(),
                rn.text(),
                operand2.text(),
            ),
            Instruction::Tst { condition, rn, operand2 } => line2_text(
                mnemonic_text("tst"@, condition, ""@),
                rn.text(),
                operand2.text(),
            ),
            Instruction::Teq { condition, rn, operand2 } => line2_text(
                mnemonic_text("teq"@, condition, ""@),
                rn.text(),
                operand2.text(),
            ),
            Instruction::Cmp { condition, rn, operand2 } => line2_text(
                mnemonic_text("cmp"@, condition, ""@),
                rn.text(),
                operand2.text(),
            ),
            Instruction::Cmn { condition, rn, operand2 } => line2_text(
                mnemonic_text("cmn"@, condition, ""@),
                rn.text(),
                operand2.text(),
            ),
            Instruction::Orr { condition, s, rd, rn, operand2 } => line3_text(
                mnemonic_text("orr"@, condition, flag_text(s, "s"@)),
                rd.text(),
                rn.text(),
                operand2.text(),
            ),
            Instruction::Mov { condition, s, rd, operand2 } => line2_text(
                mnemonic_text("mov"@, condition, flag_text(s, "s"@)),
                rd.text(),
                operand2.text(),
            ),
            Instruction::Bic { condition, s, rd, rn, operand2 } => line3_text(
                mnemonic_text("bic"@, condition, flag_text(s, "s"@)),
                rd.text(),
                rn.text(),
                operand2.text(),
            ),
            Instruction::Mvn { condition, s, rd, operand2 } => line2_text(
                mnemonic_text("mvn"@, condition, flag_text(s, "s"@)),
                rd.text(),
                operand2.text(),
            ),
            Instruction::Mul { condition, s, rd, rm, rs } => line3_text(
                mnemonic_text("mul"@, condition, flag_text(s, "s"@)),
                rd.text(),
                rm.text(),
                rs.text(),
            ),
            Instruction::Mla { condition, s, rd, rn, rm, rs } => line4_text(
                mnemonic_text("mla"@, condition, flag_text(s, "s"@)),
                rd.text(),
                rm.text(),
                rs.text(),
                rn.text(),
            ),
            Instruction::Umull { condition, s, rd_lo, rd_hi, rm, rs } => line4_text(
                mnemonic_text("umull"@, condition, flag_text(s, "s"@)),
                rd_lo.text(),
                rd_hi.text(),
                rm.text(),
                rs.text(),
            ),
            Instruction::Umlal { condition, s, rd_lo, rd_hi, rm, rs } => line4_text(
                mnemonic_text("umlal"@, condition, flag_text(s, "s"@)),
                rd_lo.text(),
                rd_hi.text(),
                rm.text(),
                rs.text(),
            ),
            Instruction::Smull { condition, s, rd_lo, rd_hi, rm, rs } => line4_text(
                mnemonic_text("smull"@, condition, flag_text(s, "s"@)),
                rd_lo.text(),
                rd_hi.text(),
                rm.text(),
                rs.text(),
            ),
            Instruction::Smlal { condition, s, rd_lo, rd_hi, rm, rs } => line4_text(
                mnemonic_text("smlal"@, condition, flag_text(s, "s"@)),
                rd_lo.text(),
                rd_hi.text(),
                rm.text(),
                rs.text(),
            ),
            Instruction::Msr { condition, c, x, s, f, r, address } => line2_text(
                mnemonic_text("msr"@, condition, ""@),
                status_fields_text(r, c, x, s, f),
                address.text(),
            ),
            Instruction::Mrs { condition, r, rd } => line2_text(
                mnemonic_text("mrs"@, condition, ""@),
                rd.text(),
                status_name_text(r),
            ),
            Instruction::Ldrh { condition, rd, address } => line2_text(
                mnemonic_text("ldr"@, condition, "h"@),
                rd.text(),
                address.text(),
            ),
            Instruction::Ldrsb { condition, rd, address } => line2_text(
                mnemonic_text("ldr"@, condition, "sb"@),
                rd.text(),
                address.text(),
            ),
            Instruction::Ldrsh { condition, rd, address } => line2_text(
                mnemonic_text("ldr"@, condition, "sh"@),
                rd.text(),
                address.text(),
            ),
            Instruction::Strh { condition, rd, address } => line2_text(
                mnemonic_text("str"@, condition, "h"@),
                rd.text(),
                address.text(),
            ),
            Instruction::Ldrbt { condition, rd, address } => line2_text(
                mnemonic_text("ldr"@, condition, "bt"@),
                rd.text(),
                address.text(),
            ),
            Instruction::Ldrt { condition, rd, address } => line2_text(
                mnemonic_text("ldr"@, condition, "t"@),
                rd.text(),
                address.text(),
            ),
            Instruction::Ldrb { condition, rd, address } => line2_text(
                mnemonic_text("ldr"@, condition, "b"@),
                rd.text(),
                address.text(),
            ),
            Instruction::Ldr { condition, rd, address } => line2_text(
                mnemonic_text("ldr"@, condition, ""@),
                rd.text(),
                address.text(),
            ),
            Instruction::Strbt { condition, rd, address } => line2_text(
                mnemonic_text("str"@, condition, "bt"@),
                rd.text(),
                address.text(),
            ),
            Instruction::Strt { condition, rd, address } => line2_text(
                mnemonic_text("str"@, condition, "t"@),
                rd.text(),
                address.text(),
            ),
            Instruction::Strb { condition, rd, address } => line2_text(
                mnemonic_text("str"@, condition, "b"@),
                rd.text(),
                address.text(),
            ),
            Instruction::Str { condition, rd, address } => line2_text(
                mnemonic_text("str"@, condition, ""@),
                rd.text(),
                address.text(),
            ),
            Instruction::Ldm1 { condition, .. } => mnemonic_text("ldm1"@, condition, ""@),
            Instruction::Ldm2 { condition, .. } => mnemonic_text("ldm2"@, condition, ""@),
            Instruction::Ldm3 { condition, .. } => mnemonic_text("ldm3"@, condition, ""@),
            Instruction::Stm1 { condition, .. } => mnemonic_text("stm1"@, condition, ""@),
            Instruction::Stm2 { condition, .. } => mnemonic_text("stm2"@, condition, ""@),
            Instruction::Swpb { condition, .. } => mnemonic_text("swpb"@, condition, ""@),
            Instruction::Swp { condition, .. } => mnemonic_text("swp"@, condition, ""@),
            Instruction::Swi { condition, .. } => mnemonic_text("swi"@, condition, ""@),
            Instruction::Cdp { condition, .. } => mnemonic_text("cdp"@, condition, ""@),
            Instruction::Ldc { condition, .. } => mnemonic_text("ldc"@, condition, ""@),
            Instruction::Mcr { condition, .. } => mnemonic_text("mcr"@, condition, ""@),
            Instruction::Mrc { condition, .. } => mnemonic_text("mrc"@, condition, ""@),
            Instruction::Stc { condition, .. } => mnemonic_text("stc"@, condition, ""@),
        }
    }

    /// Writes the instruction in assembler syntax.
    pub fn to_string(self) -> (text: String)
        requires
            self.wf(),
        ensures
            text@ == self.text(),
    {
        match self {
            Instruction::B { condition, l, signed_immed } => line1(
                branch_mnemonic(l, condition),
                hex(branch_target(signed_immed)),
            ),
            Instruction::Bx { condition, rm } => line1(
                mnemonic("bx", condition, ""),
                rm.to_string(),
            ),
            Instruction::And { condition, s, rd, rn, operand2 } => line3(
                mnemonic("and", condition, format_bool(s, "s")),
                rd.to_string(),
                rn.to_string(),
                operand2.to_string(),
            ),
            Instruction::Eor { condition, s, rd, rn, operand2 } => line3(
                mnemonic("eor", condition, format_bool(s, "s")),
                rd.to_string(),
                rn.to_string(),
                operand2.to_string(),
            ),
            Instruction::Sub { condition, s, rd, rn, operand2 } => line3(
                mnemonic("sub", condition, format_bool(s, "s")),
                rd.to_string(),
                rn.to_string(),
                operand2.to_string(),
            ),
            Instruction::Rsb { condition, s, rd, rn, operand2 } => line3(
                mnemonic("rsb", condition, format_bool(s, "s")),
                rd.to_string(),
                rn.to_string(),
                operand2.to_string(),
            ),
            Instruction::Add { condition, s, rd, rn, operand2 } => line3(
                mnemonic("add", condition, format_bool(s, "s")),
                rd.to_string(),
                rn.to_string(),
                operand2.to_string(),
            ),
            Instruction::Adc { condition, s, rd, rn, operand2 } => line3(
                mnemonic("adc", condition, format_bool(s, "s")),
                rd.to_string(),
                rn.to_string(),
                operand2.to_string(),
            ),
            Instruction::Sbc { condition, s, rd, rn, operand2 } => line3(
                mnemonic("sbc", condition, format_bool(s, "s")),
                rd.to_string(),
                rn.to_string(),
                operand2.to_string(),
            ),
            Instruction::Rsc { condition, s, rd, rn, operand2 } => line3(
                mnemonic("rsc", condition, format_bool(s, "s")),
                rd.to_string(),
                rn.to_string(),
                operand2.to_string(),
            ),
            Instruction::Tst { condition, rn, operand2 } => line2(
                mnemonic("tst", condition, ""),
                rn.to_string(),
                operand2.to_string(),
            ),
            Instruction::Teq { condition, rn, operand2 } => line2(
                mnemonic("teq", condition, ""),
                rn.to_string(),
                operand2.to_string(),
            ),
            Instruction::Cmp { condition, rn, operand2 } => line2(
                mnemonic("cmp", condition, ""),
                rn.to_string(),
                operand2.to_string(),
            ),
            Instruction::Cmn { condition, rn, operand2 } => line2(
                mnemonic("cmn", condition, ""),
                rn.to_string(),
                operand2.to_string(),
            ),
            Instruction::Orr { condition, s, rd, rn, operand2 } => line3(
                mnemonic("orr", condition, format_bool(s, "s")),
                rd.to_string(),
                rn.to_string(),
                operand2.to_string(),
            ),
            Instruction::Mov { condition, s, rd, operand2 } => line2(
                mnemonic("mov", condition, format_bool(s, "s")),
                rd.to_string(),
                operand2.to_string(),
            ),
            Instruction::Bic { condition, s, rd, rn, operand2 } => line3(
                mnemonic("bic", condition, format_bool(s, "s")),
                rd.to_string(),
                rn.to_string(),
                operand2.to_string(),
            ),
            Instruction::Mvn { condition, s, rd, operand2 } => line2(
                mnemonic("mvn", condition, format_bool(s, "s")),
                rd.to_string(),
                operand2.to_string(),
            ),
            Instruction::Mul { condition, s, rd, rm, rs } => line3(
                mnemonic("mul", condition, format_bool(s, "s")),
                rd.to_string(),
                rm.to_string(),
                rs.to_string(),
            ),
            Instruction::Mla { condition, s, rd, rn, rm, rs } => line4(
                mnemonic("mla", condition, format_bool(s, "s")),
                rd.to_string(),
                rm.to_string(),
                rs.to_string(),
                rn.to_string(),
            ),
            Instruction::Umull { condition, s, rd_lo, rd_hi, rm, rs } => line4(
                mnemonic("umull", condition, format_bool(s, "s")),
                rd_lo.to_string(),
                rd_hi.to_string(),
                rm.to_string(),
                rs.to_string(),
            ),
            Instruction::Umlal { condition, s, rd_lo, rd_hi, rm, rs } => line4(
                mnemonic("umlal", condition, format_bool(s, "s")),
                rd_lo.to_string(),
                rd_hi.to_string(),
                rm.to_string(),
                rs.to_string(),
            ),
            Instruction::Smull { condition, s, rd_lo, rd_hi, rm, rs } => line4(
                mnemonic("smull", condition, format_bool(s, "s")),
                rd_lo.to_string(),
                rd_hi.to_string(),
                rm.to_string(),
                rs.to_string(),
            ),
            Instruction::Smlal { condition, s, rd_lo, rd_hi, rm, rs } => line4(
                mnemonic("smlal", condition, format_bool(s, "s")),
                rd_lo.to_string(),
                rd_hi.to_string(),
                rm.to_string(),
                rs.to_string(),
            ),
            Instruction::Msr { condition, c, x, s, f, r, address } => line2(
                mnemonic("msr", condition, ""),
                status_fields(r, c, x, s, f),
                address.to_string(),
            ),
            Instruction::Mrs { condition, r, rd } => line2(
                mnemonic("mrs", condition, ""),
                rd.to_string(),
                String::from_str(status_name(r)),
            ),
            Instruction::Ldrh { condition, rd, address } => line2(
                mnemonic("ldr", condition, "h"),
                rd.to_string(),
                address.to_string(),
            ),
            Instruction::Ldrsb { condition, rd, address } => line2(
                mnemonic("ldr", condition, "sb"),
                rd.to_string(),
                address.to_string(),
            ),
            Instruction::Ldrsh { condition, rd, address } => line2(
                mnemonic("ldr", condition, "sh"),
                rd.to_string(),
                address.to_string(),
            ),
            Instruction::Strh { condition, rd, address } => line2(
                mnemonic("str", condition, "h"),
                rd.to_string(),
                address.to_string(),
            ),
            Instruction::Ldrbt { condition, rd, address } => line2(
                mnemonic("ldr", condition, "bt"),
                rd.to_string(),
                address.to_string(),
            ),
            Instruction::Ldrt { condition, rd, address } => line2(
                mnemonic("ldr", condition, "t"),
                rd.to_string(),
                address.to_string(),
            ),
            Instruction::Ldrb { condition, rd, address } => line2(
                mnemonic("ldr", condition, "b"),
                rd.to_string(),
                address.to_string(),
            ),
            Instruction::Ldr { condition, rd, address } => line2(
                mnemonic("ldr", condition, ""),
                rd.to_string(),
                address.to_string(),
            ),
            Instruction::Strbt { condition, rd, address } => line2(
                mnemonic("str", condition, "bt"),
                rd.to_string(),
                address.to_string(),
            ),
            Instruction::Strt { condition, rd, address } => line2(
                mnemonic("str", condition, "t"),
                rd.to_string(),
                address.to_string(),
            ),
            Instruction::Strb { condition, rd, address } => line2(
                mnemonic("str", condition, "b"),
                rd.to_string(),
                address.to_string(),
            ),
            Instruction::Str { condition, rd, address } => line2(
                mnemonic("str", condition, ""),
                rd.to_string(),
                address.to_string(),
            ),
            Instruction::Ldm1 { condition, .. } => mnemonic("ldm1", condition, ""),
            Instruction::Ldm2 { condition, .. } => mnemonic("ldm2", condition, ""),
            Instruction::Ldm3 { condition, .. } => mnemonic("ldm3", condition, ""),
            Instruction::Stm1 { condition, .. } => mnemonic("stm1", condition, ""),
            Instruction::Stm2 { condition, .. } => mnemonic("stm2", condition, ""),
            Instruction::Swpb { condition, .. } => mnemonic("swpb", condition, ""),
            Instruction::Swp { condition, .. } => mnemonic("swp", condition, ""),
            Instruction::Swi { condition, .. } => mnemonic("swi", condition, ""),
            Instruction::Cdp { condition, .. } => mnemonic("cdp", condition, ""),
            Instruction::Ldc { condition, .. } => mnemonic("ldc", condition, ""),
            Instruction::Mcr { condition, .. } => mnemonic("mcr", condition, ""),
            Instruction::Mrc { condition, .. } => mnemonic("mrc", condition, ""),
            Instruction::Stc { condition, .. } => mnemonic("stc", condition, ""),
        }
    }
}

} // verus!
