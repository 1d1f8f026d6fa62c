//! The faults a machine can report.

use vstd::prelude::*;

verus! {

/// Everything that can go wrong while loading a program or running a cycle.
#[derive(Clone, Copy, Debug, PartialEq, Eq)]
pub enum Chip8Error {
    /// The program source does not exist. Reported by the host that reads it.
    RomNotFound,
    /// The program source exists but could not be read. Reported by the host that reads it.
    RomReadFailure,
    /// The program is longer than the memory above the start address.
    ProgramTooLarge,
    /// The word fetched at `pc` is no instruction.
    UnknownOpcode { opcode: u16, pc: u16 },
    /// A call with sixteen return addresses already on the stack.
    StackOverflow,
    /// A return with no return address on the stack.
    StackUnderflow,
    /// A memory access that would leave the 4096 bytes of memory.
    AddressOutOfRange,
    /// A register number that is not one of V0 to VF.
    RegisterIndexOutOfRange,
    /// A key number that is not one of the sixteen keys.
    KeyIndexOutOfRange,
}

impl Chip8Error {
    /// Load-time errors leave a machine that can go on; every other error is
    /// final for the machine that raised it.
    pub open spec fn recoverable(self) -> bool {
        self is RomNotFound || self is RomReadFailure || self is ProgramTooLarge
    }

    /// Whether the host may keep using the machine after this error.
    pub fn is_recoverable(&self) -> (r: bool)
        ensures
            r == self.recoverable(),
    {
        match self {
            Chip8Error::RomNotFound => true,
            Chip8Error::RomReadFailure => true,
            Chip8Error::ProgramTooLarge => true,
            _ => false,
        }
    }

    /// Whether the error ends the machine that raised it.
    pub fn is_fatal(&self) -> (r: bool)
        ensures
            r == !self.recoverable(),
    {
        !self.is_recoverable()
    }
}

} // verus!
