//! The ways in which the machine, or a request made of it, can fail.
use vstd::prelude::*;

verus! {

/// A failure reported by the machine.
///
/// Memory and stack faults are fatal: once one is raised while an instruction
/// executes, the machine halts. An unknown opcode is only a diagnostic, and an
/// invalid index is the rejection of a request that names a key or a register
/// that does not exist.
#[derive(Clone, Copy, Debug, PartialEq, Eq, Structural)]
pub enum Fault {
    /// An access reached `address`, which lies outside the addressable range.
    MemoryFault { address: usize },
    /// A call was made while the call stack was full.
    StackOverflow,
    /// A return was made while the call stack was empty.
    StackUnderflow,
    /// The instruction word matches no operation of the instruction set.
    UnknownOpcode,
    /// `index` names no key of the keypad (or no register of the bank).
    InvalidIndex { index: usize },
}

impl Fault {
    /// Whether the fault stops the machine for good.
    pub open spec fn fatal(self) -> bool {
        self is MemoryFault || self is StackOverflow || self is StackUnderflow
    }

    /// Tells the faults that halt the machine from those that are only reported.
    pub fn is_fatal(&self) -> (fatal: bool)
        ensures
            fatal == self.fatal(),
    {
        match self {
            Fault::MemoryFault { .. } => true,
            Fault::StackOverflow => true,
            Fault::StackUnderflow => true,
            Fault::UnknownOpcode => false,
            Fault::InvalidIndex { .. } => false,
        }
    }
}

} // verus!
