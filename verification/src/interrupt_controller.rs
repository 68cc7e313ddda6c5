//! The interrupt controller: the enable mask, the pending flags and the
//! master enable, and the request line that it raises to the processor.

use crate::bit::{Bit, SetBit};
use crate::bus::{Fault, Read, Write};
use vstd::prelude::*;

verus! {

/// A source of interrupts.
#[derive(Clone, Copy, PartialEq, Eq, Structural, Debug)]
pub enum Input {
    VBlank,
    HBlank,
    VCounter,
    Timer0,
    Timer1,
    Timer2,
    Timer3,
    Serial,
    Dma0,
    Dma1,
    Dma2,
    Dma3,
    Key,
    GamePak,
}

impl Input {
    /// The bit that stands for the source in the mask and in the flags.
    pub open spec fn bit_spec(self) -> u8 {
        match self {
            Input::VBlank => 0,
            Input::HBlank => 1,
            Input::VCounter => 2,
            Input::Timer0 => 3,
            Input::Timer1 => 4,
            Input::Timer2 => 5,
            Input::Timer3 => 6,
            Input::Serial => 7,
            Input::Dma0 => 8,
            Input::Dma1 => 9,
            Input::Dma2 => 10,
            Input::Dma3 => 11,
            Input::Key => 12,
            Input::GamePak => 13,
        }
    }

    /// The bit that stands for the source in the mask and in the flags.
    pub fn bit(self) -> (bit: u8)
        ensures
            bit == self.bit_spec(),
            bit < 14,
    {
        match self {
            Input::VBlank => 0,
            Input::HBlank => 1,
            Input::VCounter => 2,
            Input::Timer0 => 3,
            Input::Timer1 => 4,
            Input::Timer2 => 5,
            Input::Timer3 => 6,
            Input::Serial => 7,
            Input::Dma0 => 8,
            Input::Dma1 => 9,
            Input::Dma2 => 10,
            Input::Dma3 => 11,
            Input::Key => 12,
            Input::GamePak => 13,
        }
    }
}

/// Offset of the enable mask.
pub const IE: u32 = 0x200;

/// Offset of the pending flags.
pub const IF: u32 = 0x202;

/// Offset of the master enable.
pub const IME: u32 = 0x208;

/// The bits of the mask and of the flags that stand for a source.
pub const INPUTS: u16 = 0x3FFF;

/// The controller as a value.
pub struct InterruptState {
    /// The master enable.
    pub enabled: bool,
    /// Whether the request line to the processor is raised.
    pub asserted: bool,
    /// The sources that may raise the line.
    pub mask: u16,
    /// The sources that have raised it and were not acknowledged.
    pub flags: u16,
}

impl InterruptState {
    /// The controller after `input` fired: where the mask has the bit of the
    /// source, the line is raised and the flag of the source is set; where it
    /// has not, nothing changes.
    pub open spec fn assert_input(self, input: Input) -> InterruptState {
        if self.mask.bit_spec(input.bit_spec()) {
            InterruptState {
                asserted: true,
                flags: self.flags.set_bit_spec(input.bit_spec(), true),
                ..self
            }
        } else {
            self
        }
    }

    /// The controller after the processor took the request.
    pub open spec fn reset(self) -> InterruptState {
        InterruptState { asserted: false, ..self }
    }

    /// What a halfword read at `address` returns.
    pub open spec fn load_halfword(self, address: u32) -> Result<u16, Fault> {
        if address == IE {
            Ok(self.mask)
        } else if address == IF {
            Ok(self.flags)
        } else if address == IME {
            Ok(
                if self.enabled {
                    1u16
                } else {
                    0u16
                },
            )
        } else {
            Err(Fault::Unmapped { address, width: 2 })
        }
    }

    /// The controller after a halfword write. A write to the mask keeps the
    /// bits that stand for a source; a write to the flags clears the flags
    /// whose bit is set in `value`; a write to the master enable takes 0 or 1.
    pub open spec fn store_halfword(self, address: u32, value: u16) -> Result<
        InterruptState,
        Fault,
    > {
        if address == IE {
            Ok(InterruptState { mask: value & INPUTS, ..self })
        } else if address == IF {
            Ok(InterruptState { flags: self.flags ^ (self.flags & value & INPUTS), ..self })
        } else if address == IME {
            if value == 0 {
                Ok(InterruptState { enabled: false, ..self })
            } else if value == 1 {
                Ok(InterruptState { enabled: true, ..self })
            } else {
                Err(Fault::NonBoolean { address })
            }
        } else {
            Err(Fault::Unmapped { address, width: 2 })
        }
    }
}

/// The interrupt controller. Its registers are halfwords; it answers no
/// byte and no word access.
pub struct InterruptController {
    enabled: bool,
    asserted: bool,
    mask: u16,
    flags: u16,
}

impl View for InterruptController {
    type V = InterruptState;

    closed spec fn view(&self) -> InterruptState {
        InterruptState {
            enabled: self.enabled,
            asserted: self.asserted,
            mask: self.mask,
            flags: self.flags,
        }
    }
}

impl InterruptController {
    /// A controller with everything disabled and nothing pending.
    pub fn new() -> (controller: InterruptController)
        ensures
            controller@ == (InterruptState { enabled: false, asserted: false, mask: 0, flags: 0 }),
    {
        InterruptController { enabled: false, asserted: false, mask: 0, flags: 0 }
    }

    /// Whether the request line is raised.
    pub fn is_asserted(&self) -> (asserted: bool)
        ensures
            asserted == self@.asserted,
    {
        self.asserted
    }

    /// Tells the controller that `input` fired.
    pub fn assert_input(&mut self, input: Input)
        ensures
            final(self)@ == old(self)@.assert_input(input),
    {
        let bit = input.bit();
        if self.mask.bit(bit) {
            self.asserted = true;
            self.flags.set_bit(bit, true);
        }
    }

    /// Lowers the request line.
    pub fn reset(&mut self)
        ensures
            final(self)@ == old(self)@.reset(),
    {
        self.asserted = false;
    }
}

impl Read for InterruptController {
    open spec fn load_byte(state: InterruptState, address: u32) -> Result<u8, Fault> {
        Err(Fault::Unmapped { address, width: 1 })
    }

    open spec fn load_halfword(state: InterruptState, address: u32) -> Result<u16, Fault> {
        state.load_halfword(address)
    }

    open spec fn load_word(state: InterruptState, address: u32) -> Result<u32, Fault> {
        Err(Fault::Unmapped { address, width: 4 })
    }

    fn read_byte(&self, address: u32) -> (r: Result<u8, Fault>) {
        Err(Fault::Unmapped { address, width: 1 })
    }

    fn read_halfword(&self, address: u32) -> (r: Result<u16, Fault>) {
        match address {
            0x200 => Ok(self.mask),
            0x202 => Ok(self.flags),
            0x208 => Ok(
                if self.enabled {
                    1
                } else {
                    0
                },
            ),
            _ => Err(Fault::Unmapped { address, width: 2 }),
        }
    }

    fn read_word(&self, address: u32) -> (r: Result<u32, Fault>) {
        Err(Fault::Unmapped { address, width: 4 })
    }
}

impl Write for InterruptController {
    open spec fn store_byte(state: InterruptState, address: u32, value: u8) -> Result<
        InterruptState,
        Fault,
    > {
        Err(Fault::Unmapped { address, width: 1 })
    }

    open spec fn store_halfword(state: InterruptState, address: u32, value: u16) -> Result<
        InterruptState,
        Fault,
    > {
        state.store_halfword(address, value)
    }

    open spec fn store_word(state: InterruptState, address: u32, value: u32) -> Result<
        InterruptState,
        Fault,
    > {
        Err(Fault::Unmapped { address, width: 4 })
    }

    fn write_byte(&mut self, address: u32, value: u8) -> (r: Result<(), Fault>) {
        Err(Fault::Unmapped { address, width: 1 })
    }

    fn write_halfword(&mut self, address: u32, value: u16) -> (r: Result<(), Fault>) {
        match address {
            0x200 => {
                self.mask = value & INPUTS;
                Ok(())
            },
            0x202 => {
                self.flags = self.flags ^ (self.flags & value & INPUTS);
                Ok(())
            },
            0x208 => {
                if value == 0 {
                    self.enabled = false;
                    Ok(())
                } else if value == 1 {
                    self.enabled = true;
                    Ok(())
                } else {
                    Err(Fault::NonBoolean { address })
                }
            },
            _ => Err(Fault::Unmapped { address, width: 2 }),
        }
    }

    fn write_word(&mut self, address: u32, value: u32) -> (r: Result<(), Fault>) {
        Err(Fault::Unmapped { address, width: 4 })
    }
}

/// A source whose bit the mask lacks leaves the controller as it was; one
/// whose bit the mask has raises the line.
pub proof fn lemma_assert_obeys_mask(state: InterruptState, input: Input)
    ensures
        !state.mask.bit_spec(input.bit_spec()) ==> state.assert_input(input) == state,
        state.mask.bit_spec(input.bit_spec()) ==> state.assert_input(input).asserted,
        state.assert_input(input).mask == state.mask,
        state.assert_input(input).enabled == state.enabled,
{
}

} // verus!
