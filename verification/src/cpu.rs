//! Architectural state of the processor: the status registers, the banked
//! register file and the pipeline of instruction addresses.

use crate::bit::{Bit, Bits, SetBit, SetBits};
use crate::bus::{Fault, Read};
use crate::decode::{decode, decode_spec, lemma_decode_gives_wf, DecodeError};
use crate::execute::{
    exception, execute, execute_spec, lemma_execute_keeps_pipeline, lemma_execute_keeps_wf,
    ExecuteError, IRQ_VECTOR,
};
use crate::instruction::EncodedInstruction;
use crate::memory_map::{MemoryMap, MemoryMapView};
use vstd::wrapping::u32_specs::wrapping_add;
use core::ops::Range;
use vstd::prelude::*;

verus! {

/// A processor mode. User is the only unprivileged one.
#[derive(Clone, Copy, PartialEq, Eq, Structural, Debug)]
pub enum Mode {
    User,
    FIQ,
    IRQ,
    Supervisor,
    Abort,
    Undefined,
    System,
}

impl Mode {
    /// The five bit encoding of the mode in a status register.
    pub open spec fn encoding_spec(self) -> u32 {
        match self {
            Mode::User => 0b10000,
            Mode::FIQ => 0b10001,
            Mode::IRQ => 0b10010,
            Mode::Supervisor => 0b10011,
            Mode::Abort => 0b10111,
            Mode::Undefined => 0b11011,
            Mode::System => 0b11111,
        }
    }

    /// The mode that a five bit field encodes, if it is one of the seven
    /// legal encodings.
    pub open spec fn decode_spec(field: u32) -> Option<Mode> {
        if field == 0b10000 {
            Some(Mode::User)
        } else if field == 0b10001 {
            Some(Mode::FIQ)
        } else if field == 0b10010 {
            Some(Mode::IRQ)
        } else if field == 0b10011 {
            Some(Mode::Supervisor)
        } else if field == 0b10111 {
            Some(Mode::Abort)
        } else if field == 0b11011 {
            Some(Mode::Undefined)
        } else if field == 0b11111 {
            Some(Mode::System)
        } else {
            None
        }
    }

    /// The five bit encoding of the mode.
    pub fn encoding(self) -> (field: u32)
        ensures
            field == self.encoding_spec(),
    {
        match self {
            Mode::User => 0b10000,
            Mode::FIQ => 0b10001,
            Mode::IRQ => 0b10010,
            Mode::Supervisor => 0b10011,
            Mode::Abort => 0b10111,
            Mode::Undefined => 0b11011,
            Mode::System => 0b11111,
        }
    }

    /// Decodes a five bit mode field.
    pub fn decode(field: u32) -> (mode: Option<Mode>)
        ensures
            mode == Mode::decode_spec(field),
    {
        match field {
            0b10000 => Some(Mode::User),
            0b10001 => Some(Mode::FIQ),
            0b10010 => Some(Mode::IRQ),
            0b10011 => Some(Mode::Supervisor),
            0b10111 => Some(Mode::Abort),
            0b11011 => Some(Mode::Undefined),
            0b11111 => Some(Mode::System),
            _ => None,
        }
    }
}

/// Encoding a mode and decoding the field gives the mode back.
pub proof fn lemma_mode_encoding_round_trip(mode: Mode)
    ensures
        Mode::decode_spec(mode.encoding_spec()) == Some(mode),
{
}

/// A program status register: the condition flags N, Z, C and V in bits 31
/// to 28, the interrupt disable bits I and F in bits 7 and 6, the Thumb
/// state bit T in bit 5 and the mode field in bits 4 to 0.
#[derive(Clone, Copy, Debug)]
pub struct ProgramStatusRegister(u32);

impl View for ProgramStatusRegister {
    type V = u32;

    closed spec fn view(&self) -> u32 {
        self.0
    }
}

/// The mode that the mode field of a status register value encodes, if the
/// encoding is legal.
pub open spec fn psr_mode(bits: u32) -> Option<Mode> {
    Mode::decode_spec(bits.bits_spec(0..5))
}

proof fn lemma_mode_field(x: u32, field: u32)
    by (bit_vector)
    requires
        field < 32,
    ensures
        ((((x & !((!(0xFFFF_FFFFu32 << 5u8)) << 0u8)) | ((field & !(0xFFFF_FFFFu32 << 5u8)) << 0u8))
            >> 0u8) & !(0xFFFF_FFFFu32 << 5u8)) == field,
{
}

/// A status register value whose mode field was set to the encoding of a
/// mode has that mode.
pub proof fn lemma_mode_after_set_mode(psr: u32, mode: Mode)
    ensures
        psr_mode(psr.set_bits_spec(0..5, mode.encoding_spec())) == Some(mode),
{
    lemma_mode_field(psr, mode.encoding_spec());
}

impl ProgramStatusRegister {
    /// The mode that the mode field encodes, if the encoding is legal.
    pub open spec fn mode_spec(&self) -> Option<Mode> {
        psr_mode(self@)
    }

    /// The register at reset: every flag clear, System mode.
    pub fn new() -> (psr: ProgramStatusRegister)
        ensures
            psr@ == 0x1F,
    {
        ProgramStatusRegister(0x1F)
    }

    /// The mode of the mode field; `None` where the field holds none of the
    /// seven legal encodings.
    pub fn mode(&self) -> (mode: Option<Mode>)
        ensures
            mode == self.mode_spec(),
    {
        Mode::decode(self.0.bits(0..5))
    }

    /// The register as a word.
    pub fn to_bits(&self) -> (bits: u32)
        ensures
            bits == self@,
    {
        self.0
    }

    /// Whether the mode is any but User.
    pub fn is_priviledged(&self) -> (privileged: bool)
        ensures
            privileged == (self.mode_spec() != Some(Mode::User)),
    {
        self.0.bits(0..5) != 0b10000
    }

    /// Whether the mode has a saved status register: any but User and System.
    pub fn has_spsr(&self) -> (has: bool)
        ensures
            has == (self.mode_spec() != Some(Mode::User) && self.mode_spec() != Some(Mode::System)),
    {
        let field = self.0.bits(0..5);
        field != 0b10000 && field != 0b11111
    }

    /// The negative flag, bit 31.
    pub fn n(&self) -> (flag: bool)
        ensures
            flag == self@.bit_spec(31),
    {
        self.0.bit(31)
    }

    /// The zero flag, bit 30.
    pub fn z(&self) -> (flag: bool)
        ensures
            flag == self@.bit_spec(30),
    {
        self.0.bit(30)
    }

    /// The carry flag, bit 29.
    pub fn c(&self) -> (flag: bool)
        ensures
            flag == self@.bit_spec(29),
    {
        self.0.bit(29)
    }

    /// The overflow flag, bit 28.
    pub fn v(&self) -> (flag: bool)
        ensures
            flag == self@.bit_spec(28),
    {
        self.0.bit(28)
    }

    /// The IRQ disable bit, bit 7.
    pub fn i(&self) -> (flag: bool)
        ensures
            flag == self@.bit_spec(7),
    {
        self.0.bit(7)
    }

    /// The FIQ disable bit, bit 6.
    pub fn f(&self) -> (flag: bool)
        ensures
            flag == self@.bit_spec(6),
    {
        self.0.bit(6)
    }

    /// The Thumb state bit, bit 5.
    pub fn t(&self) -> (flag: bool)
        ensures
            flag == self@.bit_spec(5),
    {
        self.0.bit(5)
    }

    /// Sets the negative flag.
    pub fn set_n(&mut self, value: bool)
        ensures
            final(self)@ == old(self)@.set_bit_spec(31, value),
    {
        self.0.set_bit(31, value);
    }

    /// Sets the zero flag.
    pub fn set_z(&mut self, value: bool)
        ensures
            final(self)@ == old(self)@.set_bit_spec(30, value),
    {
        self.0.set_bit(30, value);
    }

    /// Sets the carry flag.
    pub fn set_c(&mut self, value: bool)
        ensures
            final(self)@ == old(self)@.set_bit_spec(29, value),
    {
        self.0.set_bit(29, value);
    }

    /// Sets the overflow flag.
    pub fn set_v(&mut self, value: bool)
        ensures
            final(self)@ == old(self)@.set_bit_spec(28, value),
    {
        self.0.set_bit(28, value);
    }

    /// Sets the IRQ disable bit.
    pub fn set_i(&mut self, value: bool)
        ensures
            final(self)@ == old(self)@.set_bit_spec(7, value),
    {
        self.0.set_bit(7, value);
    }

    /// Sets the FIQ disable bit.
    pub fn set_f(&mut self, value: bool)
        ensures
            final(self)@ == old(self)@.set_bit_spec(6, value),
    {
        self.0.set_bit(6, value);
    }

    /// Sets the Thumb state bit.
    pub fn set_t(&mut self, value: bool)
        ensures
            final(self)@ == old(self)@.set_bit_spec(5, value),
    {
        self.0.set_bit(5, value);
    }

    /// Writes the encoding of `mode` into the mode field.
    pub fn set_mode(&mut self, mode: Mode)
        ensures
            final(self)@ == old(self)@.set_bits_spec(0..5, mode.encoding_spec()),
    {
        self.0.set_bits(0..5, mode.encoding());
    }

    /// Replaces the bits of `range` by the low bits of `value`.
    pub fn set_bits(&mut self, range: Range<u8>, value: u32)
        requires
            range.start <= range.end <= 32,
        ensures
            final(self)@ == old(self)@.set_bits_spec(range, value),
    {
        self.0.set_bits(range, value);
    }
}

/// The name of one of the sixteen visible registers: an index from 0 to 15.
#[derive(Clone, Copy, PartialEq, Eq, Structural, Debug)]
pub struct Register(pub u32);

/// Index of the stack pointer.
pub const SP: u32 = 13;

/// Index of the link register.
pub const LR: u32 = 14;

/// Index of the program counter. Read through the register file while an
/// instruction executes, the program counter is the address of that
/// instruction plus 8 in ARM state and plus 4 in Thumb state.
pub const PC: u32 = 15;

impl Register {
    /// Whether the index names one of the sixteen registers.
    pub open spec fn wf(self) -> bool {
        self.0 < 16
    }

    /// Checks that the index names one of the sixteen registers.
    pub fn well_formed(self) -> (ok: bool)
        ensures
            ok == self.wf(),
    {
        self.0 < 16
    }
}

/// Number of physical registers: sixteen of the user bank, seven of FIQ and
/// two each of Supervisor, Abort, Undefined and IRQ.
pub const PHYSICAL_REGISTERS: usize = 31;

/// The physical slot that register `index` names in `mode`.
///
/// FIQ has its own R8 to R14; Supervisor, Abort, Undefined and IRQ have
/// their own R13 and R14; every other pair names the slot of the user bank,
/// which User and System share.
pub open spec fn slot_spec(mode: Mode, index: u32) -> int {
    if mode == Mode::FIQ && 8 <= index <= 14 {
        16 + (index - 8)
    } else if mode == Mode::Supervisor && 13 <= index <= 14 {
        23 + (index - 13)
    } else if mode == Mode::Abort && 13 <= index <= 14 {
        25 + (index - 13)
    } else if mode == Mode::Undefined && 13 <= index <= 14 {
        27 + (index - 13)
    } else if mode == Mode::IRQ && 13 <= index <= 14 {
        29 + (index - 13)
    } else {
        index as int
    }
}

fn slot(mode: Mode, index: u32) -> (slot: usize)
    requires
        index < 16,
    ensures
        slot == slot_spec(mode, index),
        slot < PHYSICAL_REGISTERS,
{
    let own: u32 = match mode {
        Mode::FIQ => if 8 <= index && index <= 14 {
            16 + (index - 8)
        } else {
            index
        },
        Mode::Supervisor => if 13 <= index && index <= 14 {
            23 + (index - 13)
        } else {
            index
        },
        Mode::Abort => if 13 <= index && index <= 14 {
            25 + (index - 13)
        } else {
            index
        },
        Mode::Undefined => if 13 <= index && index <= 14 {
            27 + (index - 13)
        } else {
            index
        },
        Mode::IRQ => if 13 <= index && index <= 14 {
            29 + (index - 13)
        } else {
            index
        },
        Mode::User | Mode::System => index,
    };
    own as usize
}

/// The register file as a value: the mode that selects the visible bank and
/// the contents of the 31 physical slots.
pub struct RegistersView {
    pub mode: Mode,
    pub slots: Seq<u32>,
}

impl RegistersView {
    /// Whether the file has its 31 slots.
    pub open spec fn wf(self) -> bool {
        self.slots.len() == PHYSICAL_REGISTERS
    }

    /// What register `r` holds in the mode `mode`.
    pub open spec fn read_in(self, mode: Mode, r: Register) -> u32 {
        self.slots[slot_spec(mode, r.0)]
    }

    /// What register `r` holds in the current mode.
    pub open spec fn read(self, r: Register) -> u32 {
        self.read_in(self.mode, r)
    }

    /// The file after `value` was written to register `r` of the mode `mode`.
    pub open spec fn write_in(self, mode: Mode, r: Register, value: u32) -> RegistersView {
        RegistersView { mode: self.mode, slots: self.slots.update(slot_spec(mode, r.0), value) }
    }

    /// The file after `value` was written to register `r` of the current mode.
    pub open spec fn write(self, r: Register, value: u32) -> RegistersView {
        self.write_in(self.mode, r, value)
    }

    /// The file seen from `mode`: no slot changes.
    pub open spec fn set_mode(self, mode: Mode) -> RegistersView {
        RegistersView { mode, slots: self.slots }
    }
}

/// The sixteen visible registers and the banked copies behind them.
#[derive(Clone, Copy, Debug)]
pub struct Registers {
    mode: Mode,
    slots: [u32; 31],
}

impl View for Registers {
    type V = RegistersView;

    closed spec fn view(&self) -> RegistersView {
        RegistersView { mode: self.mode, slots: self.slots@ }
    }
}

impl Registers {
    /// A file in User mode with every physical register zero.
    pub fn new() -> (registers: Registers)
        ensures
            registers@.wf(),
            registers@.mode == Mode::User,
            forall|i: int| 0 <= i < PHYSICAL_REGISTERS ==> registers@.slots[i] == 0,
    {
        Registers { mode: Mode::User, slots: [0u32;31] }
    }

    /// Every view of a register file has its 31 slots.
    pub proof fn lemma_wf(&self)
        ensures
            self@.wf(),
    {
    }

    /// The mode whose bank is visible.
    pub fn mode(&self) -> (mode: Mode)
        ensures
            mode == self@.mode,
    {
        self.mode
    }

    /// Switches the visible bank to that of `mode`. No register changes:
    /// those private to the old mode keep their values out of sight.
    pub fn set_mode(&mut self, mode: Mode)
        ensures
            final(self)@ == old(self)@.set_mode(mode),
    {
        self.mode = mode;
    }

    /// Reads register `r` of the current mode.
    pub fn read(&self, r: Register) -> (value: u32)
        requires
            r.wf(),
        ensures
            value == self@.read(r),
    {
        self.slots[slot(self.mode, r.0)]
    }

    /// Writes register `r` of the current mode.
    pub fn write(&mut self, r: Register, value: u32)
        requires
            r.wf(),
        ensures
            final(self)@ == old(self)@.write(r, value),
    {
        let index = slot(self.mode, r.0);
        self.slots[index] = value;
        assert(self@.slots =~= old(self)@.write(r, value).slots);
    }

    /// Reads register `r` as `mode` sees it, whatever the current mode.
    pub fn read_in(&self, mode: Mode, r: Register) -> (value: u32)
        requires
            r.wf(),
        ensures
            value == self@.read_in(mode, r),
    {
        self.slots[slot(mode, r.0)]
    }

    /// Writes register `r` as `mode` sees it, whatever the current mode.
    pub fn write_in(&mut self, mode: Mode, r: Register, value: u32)
        requires
            r.wf(),
        ensures
            final(self)@ == old(self)@.write_in(mode, r, value),
    {
        let index = slot(mode, r.0);
        self.slots[index] = value;
        assert(self@.slots =~= old(self)@.write_in(mode, r, value).slots);
    }
}

/// A value written to a register is read back, in the mode it was written
/// in, after any number of mode switches: here after leaving for `b` and
/// coming back to `a`.
pub proof fn lemma_banked_write_survives(s: RegistersView, a: Mode, b: Mode, r: Register, v: u32)
    requires
        s.wf(),
        r.wf(),
    ensures
        s.set_mode(a).write(r, v).set_mode(b).set_mode(a).read(r) == v,
{
}

/// Where two modes keep register `r` in different slots, a write made in
/// one of them is not seen from the other.
pub proof fn lemma_banked_write_hidden(s: RegistersView, a: Mode, b: Mode, r: Register, w: u32)
    requires
        s.wf(),
        r.wf(),
        slot_spec(a, r.0) != slot_spec(b, r.0),
    ensures
        s.set_mode(b).write(r, w).set_mode(a).read(r) == s.set_mode(a).read(r),
{
}

/// Which modes keep a register apart: R0 to R7 and R15 never are, R8 to R12
/// only between FIQ and the others, R13 and R14 between any two modes but
/// User and System.
pub proof fn lemma_banking(a: Mode, b: Mode, r: Register)
    requires
        r.wf(),
    ensures
        (r.0 < 8 || r.0 == 15) ==> slot_spec(a, r.0) == slot_spec(b, r.0),
        8 <= r.0 <= 12 ==> (slot_spec(a, r.0) == slot_spec(b, r.0) <==> (a == Mode::FIQ <==> b
            == Mode::FIQ)),
        13 <= r.0 <= 14 ==> (slot_spec(a, r.0) == slot_spec(b, r.0) <==> (a == b || ((a
            == Mode::User || a == Mode::System) && (b == Mode::User || b == Mode::System)))),
        0 <= slot_spec(a, r.0) < PHYSICAL_REGISTERS,
{
}

/// A two-slot queue of the addresses of the instructions in flight. The
/// first slot holds the address fetched last, the second the one before it.
#[derive(Clone, Copy, PartialEq, Eq, Structural, Debug)]
pub struct Pipeline(pub Option<u32>, pub Option<u32>);

impl Pipeline {
    /// The queue after `address` entered it.
    pub open spec fn enqueue_spec(self, address: u32) -> Pipeline {
        Pipeline(Some(address), self.0)
    }

    /// An empty pipeline: two bubbles.
    pub fn new() -> (pipeline: Pipeline)
        ensures
            pipeline == Pipeline(None, None),
    {
        Pipeline(None, None)
    }

    /// Adds a new address to the pipeline, shifting the last address off the
    /// end and returning it: `None` is a bubble.
    pub fn enqueue(&mut self, address: u32) -> (leaving: Option<u32>)
        ensures
            leaving == old(self).1,
            *final(self) == old(self).enqueue_spec(address),
    {
        let leaving = self.1;
        self.1 = self.0;
        self.0 = Some(address);
        leaving
    }

    /// Empties the pipeline.
    pub fn flush(&mut self)
        ensures
            *final(self) == Pipeline(None, None),
    {
        self.0 = None;
        self.1 = None;
    }
}

/// After a flush the next two addresses that enter leave nothing behind
/// them, and the third pushes out the first: two bubbles, then the address
/// that entered first.
pub proof fn lemma_flush_gives_two_bubbles(first: u32, second: u32, third: u32)
    ensures
        Pipeline(None, None).1 == None::<u32>,
        Pipeline(None, None).enqueue_spec(first).1 == None::<u32>,
        Pipeline(None, None).enqueue_spec(first).enqueue_spec(second).1 == Some(first),
        Pipeline(None, None).enqueue_spec(first).enqueue_spec(second).enqueue_spec(third).1
            == Some(second),
{
}

/// The processor and its address space as a value.
pub struct CpuView {
    pub registers: RegistersView,
    /// The current program status register.
    pub cpsr: u32,
    /// The saved program status register.
    pub spsr: u32,
    pub memory: MemoryMapView,
    pub pipeline: Pipeline,
}

impl CpuView {
    /// The register file has its slots, and shows the bank of the mode that
    /// the current status register names.
    pub open spec fn wf(self) -> bool {
        self.registers.wf() && psr_mode(self.cpsr) == Some(self.registers.mode)
    }
}

/// The processor: the register file, the current and the saved status
/// register, the address space and the pipeline.
pub struct Cpu {
    pub registers: Registers,
    /// Current program status register.
    pub cpsr: ProgramStatusRegister,
    /// Saved program status register.
    pub spsr: ProgramStatusRegister,
    pub memory: MemoryMap,
    pub pipeline: Pipeline,
}

impl View for Cpu {
    type V = CpuView;

    open spec fn view(&self) -> CpuView {
        CpuView {
            registers: self.registers@,
            cpsr: self.cpsr@,
            spsr: self.spsr@,
            memory: self.memory@,
            pipeline: self.pipeline,
        }
    }
}

/// What stopped a tick.
#[derive(Clone, Copy, PartialEq, Eq, Structural, Debug)]
pub enum Cause {
    /// The instruction could not be fetched.
    Fetch(Fault),
    /// What was fetched is no instruction.
    Decode(DecodeError),
    /// The instruction could not execute.
    Execute(ExecuteError),
}

/// A tick that stopped: the address of the instruction and the cause.
#[derive(Clone, Copy, PartialEq, Eq, Structural, Debug)]
pub struct Halt {
    pub address: u32,
    pub cause: Cause,
}

/// The outcome of the executor as one of a tick at `address`.
pub open spec fn halted(address: u32, outcome: Result<(), ExecuteError>) -> Result<(), Halt> {
    match outcome {
        Ok(()) => Ok(()),
        Err(error) => Err(Halt { address, cause: Cause::Execute(error) }),
    }
}

impl CpuView {
    /// Whether the processor is in Thumb state.
    pub open spec fn thumb(self) -> bool {
        self.cpsr.bit_spec(5)
    }

    /// The size of an instruction: 2 in Thumb state, 4 in ARM state.
    pub open spec fn step(self) -> u32 {
        if self.thumb() {
            2
        } else {
            4
        }
    }

    /// The program counter as it reads.
    pub open spec fn pc(self) -> u32 {
        self.registers.read(Register(PC))
    }

    /// What a fetch at `address` gives: a halfword in Thumb state, a word in
    /// ARM state.
    pub open spec fn fetch(self, address: u32) -> Result<EncodedInstruction, Fault> {
        if self.thumb() {
            match self.memory.load_halfword(address) {
                Ok(bits) => Ok(EncodedInstruction::Thumb(bits)),
                Err(fault) => Err(fault),
            }
        } else {
            match self.memory.load_word(address) {
                Ok(bits) => Ok(EncodedInstruction::Arm(bits)),
                Err(fault) => Err(fault),
            }
        }
    }

    /// The processor after the instruction at `address` was fetched, decoded
    /// and executed, and whether all three could be done.
    pub open spec fn run(self, address: u32) -> (CpuView, Result<(), Halt>) {
        match self.fetch(address) {
            Err(fault) => (self, Err(Halt { address, cause: Cause::Fetch(fault) })),
            Ok(encoded) => match decode_spec(encoded) {
                Err(error) => (self, Err(Halt { address, cause: Cause::Decode(error) })),
                Ok(inst) => (
                    execute_spec(self, inst).0,
                    halted(address, execute_spec(self, inst).1),
                ),
            },
        }
    }

    /// The processor with the program counter moved on by one instruction.
    pub open spec fn advance_pc(self) -> CpuView {
        CpuView {
            registers: self.registers.write(Register(PC), wrapping_add(self.pc(), self.step())),
            ..self
        }
    }

    /// The address of the instruction that executes next: the oldest of the
    /// pipeline, or the program counter where the pipeline is empty.
    pub open spec fn next_to_execute(self) -> u32 {
        match self.pipeline.1 {
            Some(address) => address,
            None => match self.pipeline.0 {
                Some(address) => address,
                None => self.pc(),
            },
        }
    }

    /// Whether an interrupt request is taken: the line is raised and the I
    /// bit is clear.
    pub open spec fn takes_irq(self) -> bool {
        self.memory.interrupts.asserted && !self.cpsr.bit_spec(7)
    }

    /// The processor after it took an interrupt request: an exception to IRQ
    /// mode with the pipeline flushed and the request line lowered. The link
    /// register gets the address of the instruction that was to execute next,
    /// plus 4: a return from the interrupt subtracts 4.
    pub open spec fn interrupt(self) -> CpuView {
        let entered = self.exception(
            Mode::IRQ,
            IRQ_VECTOR,
            wrapping_add(self.next_to_execute(), 4),
        );
        CpuView {
            memory: MemoryMapView { interrupts: self.memory.interrupts.reset(), ..self.memory },
            pipeline: Pipeline(None, None),
            ..entered
        }
    }

    /// The processor after one tick, and whether the tick ran to its end.
    ///
    /// The program counter enters the pipeline. The address that leaves it,
    /// if one does, is that of the instruction to fetch, decode and execute;
    /// a failure of any of the three stops the tick there. Where the program
    /// counter is then what it was, it moves on by one instruction; where it
    /// is not, the pipeline is flushed. Last, an interrupt request is taken
    /// where one is due.
    pub open spec fn tick(self) -> (CpuView, Result<(), Halt>) {
        let queued = CpuView { pipeline: self.pipeline.enqueue_spec(self.pc()), ..self };
        let (executed, outcome) = match self.pipeline.1 {
            Some(address) => queued.run(address),
            None => (queued, Ok(())),
        };
        match outcome {
            Err(halt) => (executed, Err(halt)),
            Ok(()) => {
                let moved = if executed.pc() == self.pc() {
                    executed.advance_pc()
                } else {
                    CpuView { pipeline: Pipeline(None, None), ..executed }
                };
                (
                    if moved.takes_irq() {
                        moved.interrupt()
                    } else {
                        moved
                    },
                    Ok(()),
                )
            },
        }
    }

    /// Whether the pipeline and the program counter are in step: each
    /// address in the pipeline is one instruction below the one that entered
    /// after it, and the program counter is one instruction above the last
    /// that entered.
    pub open spec fn in_step(self) -> bool {
        match (self.pipeline.0, self.pipeline.1) {
            (None, None) => true,
            (Some(last), None) => self.pc() == wrapping_add(last, self.step()),
            (Some(last), Some(first)) => self.pc() == wrapping_add(last, self.step()) && last
                == wrapping_add(first, self.step()),
            (None, Some(_)) => false,
        }
    }
}

proof fn lemma_reset_status()
    by (bit_vector)
    ensures
        (0x1Fu32 >> 0u8) & !(0xFFFF_FFFFu32 << 5u8) == 0b11111,
{
}

impl Cpu {
    /// A processor at reset on the address space `memory`: every register
    /// zero, both status registers in System mode with every flag clear, the
    /// pipeline empty.
    pub fn new(memory: MemoryMap) -> (cpu: Cpu)
        ensures
            cpu@.wf(),
            cpu@.memory == memory@,
            cpu@.cpsr == 0x1F,
            cpu@.spsr == 0x1F,
            cpu@.pipeline == Pipeline(None, None),
            cpu@.registers.mode == Mode::System,
            forall|i: int| 0 <= i < PHYSICAL_REGISTERS ==> cpu@.registers.slots[i] == 0,
            cpu@.in_step(),
    {
        proof {
            lemma_reset_status();
        }
        let mut registers = Registers::new();
        registers.set_mode(Mode::System);
        Cpu {
            registers,
            cpsr: ProgramStatusRegister::new(),
            spsr: ProgramStatusRegister::new(),
            memory,
            pipeline: Pipeline::new(),
        }
    }

    /// Whether the register file shows the bank of the mode that the
    /// current status register names. Every tick relies on it and keeps it.
    pub fn well_formed(&self) -> (ok: bool)
        ensures
            ok == self@.wf(),
    {
        proof {
            self.registers.lemma_wf();
        }
        match self.cpsr.mode() {
            Some(mode) => mode == self.registers.mode(),
            None => false,
        }
    }

    /// Fetches the instruction at `address`: a halfword in Thumb state, a
    /// word in ARM state.
    pub fn fetch(&self, address: u32) -> (r: Result<EncodedInstruction, Fault>)
        ensures
            r == self@.fetch(address),
    {
        if self.cpsr.t() {
            match self.memory.read_halfword(address) {
                Ok(bits) => Ok(EncodedInstruction::Thumb(bits)),
                Err(fault) => Err(fault),
            }
        } else {
            match self.memory.read_word(address) {
                Ok(bits) => Ok(EncodedInstruction::Arm(bits)),
                Err(fault) => Err(fault),
            }
        }
    }

    fn run(&mut self, address: u32) -> (r: Result<(), Halt>)
        requires
            old(self)@.wf(),
        ensures
            (final(self)@, r) == old(self)@.run(address),
            final(self)@.wf(),
    {
        match self.fetch(address) {
            Err(fault) => Err(Halt { address, cause: Cause::Fetch(fault) }),
            Ok(encoded) => match decode(encoded) {
                Err(error) => Err(Halt { address, cause: Cause::Decode(error) }),
                Ok(inst) => match execute(self, inst) {
                    Ok(()) => Ok(()),
                    Err(error) => Err(Halt { address, cause: Cause::Execute(error) }),
                },
            },
        }
    }

    fn advance_pc(&mut self)
        requires
            old(self)@.wf(),
        ensures
            final(self)@ == old(self)@.advance_pc(),
            final(self)@.wf(),
    {
        let incr: u32 = if self.cpsr.t() {
            2
        } else {
            4
        };
        let pc = self.registers.read(Register(PC));
        self.registers.write(Register(PC), pc.wrapping_add(incr));
    }

    fn handle_interrupt(&mut self)
        requires
            old(self)@.wf(),
        ensures
            final(self)@ == old(self)@.interrupt(),
            final(self)@.wf(),
    {
        let next = match self.pipeline.1 {
            Some(address) => address,
            None => match self.pipeline.0 {
                Some(address) => address,
                None => self.registers.read(Register(PC)),
            },
        };
        exception(self, Mode::IRQ, IRQ_VECTOR, next.wrapping_add(4));
        self.pipeline.flush();
        self.memory.interrupts.reset();
    }

    /// Runs the processor for one tick.
    pub fn tick(&mut self) -> (r: Result<(), Halt>)
        requires
            old(self)@.wf(),
        ensures
            (final(self)@, r) == old(self)@.tick(),
            final(self)@.wf(),
    {
        let pc = self.registers.read(Register(PC));
        match self.pipeline.enqueue(pc) {
            Some(address) => {
                match self.run(address) {
                    Err(halt) => {
                        return Err(halt);
                    },
                    Ok(()) => {},
                }
            },
            None => {},
        }
        if self.registers.read(Register(PC)) == pc {
            self.advance_pc();
        } else {
            self.pipeline.flush();
        }
        if self.memory.interrupts.is_asserted() && !self.cpsr.i() {
            self.handle_interrupt();
        }
        Ok(())
    }
}

/// Where the pipeline and the program counter are in step, the instruction
/// that executes in a tick finds in the program counter its own address plus
/// two instructions: plus 8 in ARM state, plus 4 in Thumb state.
pub proof fn lemma_prefetch_offset(cpu: CpuView, address: u32)
    requires
        cpu.in_step(),
        cpu.pipeline.1 == Some(address),
    ensures
        cpu.pc() == wrapping_add(wrapping_add(address, cpu.step()), cpu.step()),
        !cpu.thumb() ==> cpu.pc() == wrapping_add(address, 8),
        cpu.thumb() ==> cpu.pc() == wrapping_add(address, 4),
{
}

/// A tick keeps the pipeline and the program counter in step, unless its
/// instruction changes the Thumb bit and leaves the pipeline unflushed.
pub proof fn lemma_tick_keeps_step(cpu: CpuView)
    requires
        cpu.wf(),
        cpu.in_step(),
        cpu.tick().1 is Ok,
        cpu.tick().0.thumb() == cpu.thumb() || cpu.tick().0.pipeline == Pipeline(None, None),
    ensures
        cpu.tick().0.in_step(),
{
    let queued = CpuView { pipeline: cpu.pipeline.enqueue_spec(cpu.pc()), ..cpu };
    if let Some(address) = cpu.pipeline.1 {
        if let Ok(encoded) = queued.fetch(address) {
            if let Ok(inst) = decode_spec(encoded) {
                lemma_decode_gives_wf(encoded);
                lemma_execute_keeps_pipeline(queued, inst);
                lemma_execute_keeps_wf(queued, inst);
            }
        }
    }
}

/// A tick whose instruction changes the program counter ends with the
/// pipeline flushed.
pub proof fn lemma_branch_flushes(cpu: CpuView, address: u32)
    requires
        cpu.pipeline.1 == Some(address),
        cpu.tick().1 is Ok,
        (CpuView { pipeline: cpu.pipeline.enqueue_spec(cpu.pc()), ..cpu }).run(address).0.pc()
            != cpu.pc(),
    ensures
        cpu.tick().0.pipeline == Pipeline(None, None),
{
}

/// After a flush, with no interrupt request due, the next two ticks execute
/// nothing and the third executes the instruction at the address that the
/// program counter held at the flush.
pub proof fn lemma_two_bubbles_after_flush(cpu: CpuView)
    requires
        cpu.wf(),
        cpu.pipeline == Pipeline(None, None),
        !cpu.takes_irq(),
    ensures
        cpu.pipeline.1 is None,
        cpu.tick().1 is Ok,
        cpu.tick().0.pipeline.1 is None,
        cpu.tick().0.tick().1 is Ok,
        cpu.tick().0.tick().0.pipeline.1 == Some(cpu.pc()),
        cpu.tick().0.tick().0.pc() == wrapping_add(wrapping_add(cpu.pc(), cpu.step()), cpu.step()),
{
}

} // verus!
