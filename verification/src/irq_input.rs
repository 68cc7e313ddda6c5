//! The interrupt request line of the processor.

use vstd::prelude::*;

verus! {

/// A line that is either asserted or not.
#[derive(Clone, Copy, PartialEq, Eq, Structural, Debug)]
pub struct IrqInput(bool);

impl View for IrqInput {
    type V = bool;

    closed spec fn view(&self) -> bool {
        self.0
    }
}

impl IrqInput {
    /// A line that is not asserted.
    pub fn new() -> (line: IrqInput)
        ensures
            !line@,
    {
        IrqInput(false)
    }

    /// Whether the line is raised.
    pub fn is_asserted(&self) -> (asserted: bool)
        ensures
            asserted == self@,
    {
        self.0
    }

    /// Raises the line.
    pub fn assert_line(&mut self)
        ensures
            final(self)@,
    {
        self.0 = true;
    }

    /// Lowers the line.
    pub fn reset(&mut self)
        ensures
            !final(self)@,
    {
        self.0 = false;
    }
}

} // verus!
