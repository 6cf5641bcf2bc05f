//! The machine's memory: a flat array of bytes and the slots of the call stack.
use crate::fault::Fault;
use vstd::prelude::*;
use vstd::slice::slice_subrange;

verus! {

/// The number of addressable bytes.
pub const MEMORY_SIZE: usize = 4096;

/// The number of return addresses that the call stack can hold.
pub const STACK_DEPTH: usize = 16;

/// The address at which a program image starts.
pub const PROGRAM_START: usize = 0x200;

/// The byte store and the call-stack slots.
///
/// The stack pointer is not kept here: it is a register of the processor, and
/// `push` and `pop` take it by reference.
pub struct DataMemory {
    pub(crate) stack: [u16; 16],
    pub(crate) memory: [u8; 4096],
}

/// The first address outside the addressable range that is reached by an
/// access which starts at `start` and does not end inside memory.
pub open spec fn first_unaddressable(start: int) -> int {
    if start >= MEMORY_SIZE {
        start
    } else {
        MEMORY_SIZE as int
    }
}

impl DataMemory {
    /// The bytes of memory, by address.
    pub open(crate) spec fn bytes(&self) -> Seq<u8> {
        self.memory@
    }

    /// The slots of the call stack, the oldest first. Which of them hold a
    /// return address is decided by the stack pointer.
    pub open(crate) spec fn slots(&self) -> Seq<u16> {
        self.stack@
    }

    /// Memory always has `MEMORY_SIZE` bytes and `STACK_DEPTH` slots.
    pub proof fn lemma_shape(&self)
        ensures
            self.bytes().len() == MEMORY_SIZE,
            self.slots().len() == STACK_DEPTH,
    {
    }

    /// A memory of zero bytes and zero slots.
    pub fn new() -> (dm: DataMemory)
        ensures
            dm.bytes() == Seq::new(MEMORY_SIZE as nat, |a: int| 0u8),
            dm.slots() == Seq::new(STACK_DEPTH as nat, |i: int| 0u16),
    {
        DataMemory { stack: [0u16; 16], memory: [0u8; 4096] }
    }

    /// Reads the byte at `address`; `MemoryFault` outside the addressable range.
    pub fn read(&self, address: usize) -> (r: Result<u8, Fault>)
        ensures
            address < MEMORY_SIZE ==> r == Ok::<u8, Fault>(self.bytes()[address as int]),
            address >= MEMORY_SIZE ==> r == Err::<u8, Fault>(Fault::MemoryFault { address }),
    {
        if address < MEMORY_SIZE {
            Ok(self.memory[address])
        } else {
            Err(Fault::MemoryFault { address })
        }
    }

    /// Writes `byte` at `address` and leaves every other byte and the stack as
    /// they were; `MemoryFault` outside the addressable range, with nothing
    /// written.
    pub fn write(&mut self, address: usize, byte: u8) -> (r: Result<(), Fault>)
        ensures
            final(self).slots() == old(self).slots(),
            address < MEMORY_SIZE ==> r == Ok::<(), Fault>(()) && final(self).bytes() == old(self).bytes().update(address as int, byte),
            address >= MEMORY_SIZE ==> r == Err::<(), Fault>(Fault::MemoryFault { address })
                && final(self).bytes() == old(self).bytes(),
    {
        if address < MEMORY_SIZE {
            self.memory[address] = byte;
            Ok(())
        } else {
            Err(Fault::MemoryFault { address })
        }
    }

    /// Borrows the `len` bytes from `start`; `MemoryFault`, with the first
    /// address out of range, if they do not all lie in memory.
    pub fn window(&self, start: usize, len: usize) -> (r: Result<&[u8], Fault>)
        ensures
            start + len <= MEMORY_SIZE ==> r is Ok && r->Ok_0@ == self.bytes().subrange(
                start as int,
                start + len,
            ),
            start + len > MEMORY_SIZE ==> r == Err::<&[u8], Fault>(
                Fault::MemoryFault { address: first_unaddressable(start as int) as usize },
            ),
    {
        if start <= MEMORY_SIZE && len <= MEMORY_SIZE - start {
            Ok(slice_subrange(self.memory.as_slice(), start, start + len))
        } else if start >= MEMORY_SIZE {
            Err(Fault::MemoryFault { address: start })
        } else {
            Err(Fault::MemoryFault { address: MEMORY_SIZE })
        }
    }

    /// Pushes `value`: it goes into the slot that `sp` points at, and `sp`
    /// moves up by one. `StackOverflow` if all slots are taken, with the
    /// slots and `sp` unchanged.
    pub fn push(&mut self, sp: &mut usize, value: u16) -> (r: Result<(), Fault>)
        ensures
            final(self).bytes() == old(self).bytes(),
            *old(sp) < STACK_DEPTH ==> r == Ok::<(), Fault>(()) && *final(sp) == *old(sp) + 1
                && final(self).slots() == old(self).slots().update(*old(sp) as int, value),
            *old(sp) >= STACK_DEPTH ==> r == Err::<(), Fault>(Fault::StackOverflow) && *final(sp)
                == *old(sp) && final(self).slots() == old(self).slots(),
    {
        if *sp < STACK_DEPTH {
            self.stack[*sp] = value;
            *sp = *sp + 1;
            Ok(())
        } else {
            Err(Fault::StackOverflow)
        }
    }

    /// Pops the value pushed last: `sp` moves down by one and the slot it then
    /// points at is returned. `StackUnderflow` if `sp` is 0, with `sp`
    /// unchanged.
    pub fn pop(&self, sp: &mut usize) -> (r: Result<u16, Fault>)
        requires
            *old(sp) <= STACK_DEPTH,
        ensures
            *old(sp) > 0 ==> r == Ok::<u16, Fault>(self.slots()[*old(sp) - 1]) && *final(sp)
                == *old(sp) - 1,
            *old(sp) == 0 ==> r == Err::<u16, Fault>(Fault::StackUnderflow) && *final(sp) == 0,
    {
        if *sp > 0 {
            *sp = *sp - 1;
            Ok(self.stack[*sp])
        } else {
            Err(Fault::StackUnderflow)
        }
    }
}

} // verus!
