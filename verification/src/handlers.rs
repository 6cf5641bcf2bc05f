//! The instruction handlers: one method of [`Cpu`] per operation.
//!
//! A handler finds its registers through the selectors `VX` and `VY`, which
//! the decode stage latches from the instruction word, and its immediate
//! operand, where it has one, in the word itself. Each is proved to make of
//! the machine's state what the transition function of its operation says.
use crate::cpu::Cpu;
use crate::fault::Fault;
use crate::font::{FONT_BASE, GLYPH_HEIGHT};
use crate::instruction::Instruction;
use crate::memory::{MEMORY_SIZE, STACK_DEPTH};
use crate::state::{MachineState, Mode, FLAG_REGISTER, PC_LIMIT};
use vstd::prelude::*;

verus! {

/// The low four bits of `value`.
pub fn low_nibble(value: u8) -> (nibble: u8)
    ensures
        nibble == value % 16,
{
    assert(value & 0x0F == value % 16) by (bit_vector);
    value & 0x0F
}

impl Cpu {
    /// Latches the register selectors of `opcode`, as the decode stage does
    /// before it hands the instruction to its handler.
    pub fn latch(&mut self, opcode: u16)
        requires
            old(self).wf(),
        ensures
            final(self).wf(),
            final(self)@ == old(self)@.latched(opcode),
    {
        let ins = Instruction::decode(opcode);
        proof {
            Instruction::lemma_fields_recompose(opcode);
        }
        self.VX = ins.x;
        self.VY = ins.y;
    }

    /// Clear display: every pixel goes off.
    pub fn clearScreen(&mut self)
        requires
            old(self).wf(),
        ensures
            final(self).wf(),
            final(self)@ == old(self)@.cleared(),
    {
        self.display.clear();
    }

    /// Return from subroutine: pops the call stack into the program counter.
    /// `StackUnderflow` if the stack is empty, with nothing changed.
    pub fn pcReturn(&mut self) -> (r: Result<(), Fault>)
        requires
            old(self).wf(),
        ensures
            final(self).wf(),
            old(self)@.stack.len() > 0 ==> r == Ok::<(), Fault>(()) && final(self)@ == old(self)@.returned(),
            old(self)@.stack.len() == 0 ==> r == Err::<(), Fault>(Fault::StackUnderflow) && final(self)@ == old(self)@,
    {
        match self.dm.pop(&mut self.SP) {
            Ok(address) => {
                self.PC = address as usize;
                assert(self@.stack =~= old(self)@.stack.drop_last());
                Ok(())
            },
            Err(fault) => {
                assert(self@.stack =~= old(self)@.stack);
                Err(fault)
            },
        }
    }

    /// Jump to the address `NNN` of `opcode`.
    pub fn jumpNNN(&mut self, opcode: u16)
        requires
            old(self).wf(),
        ensures
            final(self).wf(),
            final(self)@ == old(self)@.jumped(Instruction::of(opcode).nnn as int),
    {
        self.PC = Instruction::decode(opcode).nnn;
    }

    /// Call the subroutine at the address `NNN` of `opcode`: pushes the
    /// program counter and jumps. `StackOverflow` if the stack is full, with
    /// nothing changed.
    pub fn callNNN(&mut self, opcode: u16) -> (r: Result<(), Fault>)
        requires
            old(self).wf(),
        ensures
            final(self).wf(),
            old(self)@.stack.len() < STACK_DEPTH ==> r == Ok::<(), Fault>(()) && final(self)@
                == old(self)@.called(Instruction::of(opcode).nnn as int),
            old(self)@.stack.len() >= STACK_DEPTH ==> r == Err::<(), Fault>(Fault::StackOverflow)
                && final(self)@ == old(self)@,
    {
        let return_address: u16 = self.PC as u16;
        match self.dm.push(&mut self.SP, return_address) {
            Ok(()) => {
                self.PC = Instruction::decode(opcode).nnn;
                assert(self@.stack =~= old(self)@.stack.push(return_address));
                Ok(())
            },
            Err(fault) => Err(fault),
        }
    }

    /// Skip the next instruction if VX equals the byte `NN` of `opcode`.
    pub fn skipPCIfVxIsNN(&mut self, opcode: u16)
        requires
            old(self).wf(),
            old(self)@.pc + 2 <= PC_LIMIT,
        ensures
            final(self).wf(),
            final(self)@ == old(self)@.skipped_if(
                old(self)@.x_value() == Instruction::of(opcode).nn,
            ),
    {
        let nn = Instruction::decode(opcode).nn;
        if self.R[self.VX] == nn {
            self.PC = self.PC + 2;
        }
    }

    /// Skip the next instruction if VX differs from the byte `NN` of
    /// `opcode`.
    pub fn skipPCIfVxIsNotNN(&mut self, opcode: u16)
        requires
            old(self).wf(),
            old(self)@.pc + 2 <= PC_LIMIT,
        ensures
            final(self).wf(),
            final(self)@ == old(self)@.skipped_if(
                old(self)@.x_value() != Instruction::of(opcode).nn,
            ),
    {
        let nn = Instruction::decode(opcode).nn;
        if self.R[self.VX] != nn {
            self.PC = self.PC + 2;
        }
    }

    /// Skip the next instruction if VX equals VY. The instruction word plays
    /// no part beyond the selectors already latched.
    pub fn skipPCIfVxIsVy(&mut self, _opcode: u16)
        requires
            old(self).wf(),
            old(self)@.pc + 2 <= PC_LIMIT,
        ensures
            final(self).wf(),
            final(self)@ == old(self)@.skipped_if(old(self)@.x_value() == old(self)@.y_value()),
    {
        if self.R[self.VX] == self.R[self.VY] {
            self.PC = self.PC + 2;
        }
    }

    /// Load the byte `NN` of `opcode` into VX.
    pub fn setVxToNN(&mut self, opcode: u16)
        requires
            old(self).wf(),
        ensures
            final(self).wf(),
            final(self)@ == old(self)@.set_x(Instruction::of(opcode).nn),
    {
        let nn = Instruction::decode(opcode).nn;
        self.R[self.VX] = nn;
    }

    /// Add the byte `NN` of `opcode` to VX, wrapping at 256. No flag.
    pub fn addNNToVx(&mut self, opcode: u16)
        requires
            old(self).wf(),
        ensures
            final(self).wf(),
            final(self)@ == old(self)@.added_immediate(Instruction::of(opcode).nn),
    {
        let nn = Instruction::decode(opcode).nn;
        self.R[self.VX] = self.R[self.VX].wrapping_add(nn);
    }

    /// Copy VY into VX.
    pub fn setVxToVy(&mut self)
        requires
            old(self).wf(),
        ensures
            final(self).wf(),
            final(self)@ == old(self)@.copied(),
    {
        self.R[self.VX] = self.R[self.VY];
    }

    /// VX becomes VX or VY, bit by bit.
    pub fn setVxToVxOrVy(&mut self)
        requires
            old(self).wf(),
        ensures
            final(self).wf(),
            final(self)@ == old(self)@.joined_or(),
    {
        self.R[self.VX] = self.R[self.VX] | self.R[self.VY];
    }

    /// VX becomes VX and VY, bit by bit.
    pub fn setVxToVxAndVy(&mut self)
        requires
            old(self).wf(),
        ensures
            final(self).wf(),
            final(self)@ == old(self)@.joined_and(),
    {
        self.R[self.VX] = self.R[self.VX] & self.R[self.VY];
    }

    /// VX becomes VX exclusive-or VY, bit by bit.
    pub fn setVxToVxXorVy(&mut self)
        requires
            old(self).wf(),
        ensures
            final(self).wf(),
            final(self)@ == old(self)@.joined_xor(),
    {
        self.R[self.VX] = self.R[self.VX] ^ self.R[self.VY];
    }

    /// Add VY to VX, wrapping at 256; VF becomes the carry. The carry is
    /// taken from the operands before VX is written, and VF is written last,
    /// so the result is right whichever registers coincide.
    pub fn addVyToVx(&mut self)
        requires
            old(self).wf(),
        ensures
            final(self).wf(),
            final(self)@ == old(self)@.summed(),
    {
        let a: u8 = self.R[self.VX];
        let b: u8 = self.R[self.VY];
        let carry: u8 = if a as u16 + b as u16 > 0xFF {
            1
        } else {
            0
        };
        self.R[self.VX] = a.wrapping_add(b);
        self.R[FLAG_REGISTER] = carry;
    }

    /// Subtract VY from VX, wrapping below 0; VF becomes 1 if VX was at
    /// least VY (no borrow) and 0 otherwise.
    pub fn subVyFromVx(&mut self)
        requires
            old(self).wf(),
        ensures
            final(self).wf(),
            final(self)@ == old(self)@.subtracted(),
    {
        let a: u8 = self.R[self.VX];
        let b: u8 = self.R[self.VY];
        let no_borrow: u8 = if a >= b {
            1
        } else {
            0
        };
        self.R[self.VX] = a.wrapping_sub(b);
        self.R[FLAG_REGISTER] = no_borrow;
    }

    /// VX becomes VY minus VX, wrapping below 0; VF becomes 1 if VY was at
    /// least VX (no borrow) and 0 otherwise.
    pub fn setVxToVyMinusVx(&mut self)
        requires
            old(self).wf(),
        ensures
            final(self).wf(),
            final(self)@ == old(self)@.subtracted_from(),
    {
        let a: u8 = self.R[self.VX];
        let b: u8 = self.R[self.VY];
        let no_borrow: u8 = if b >= a {
            1
        } else {
            0
        };
        self.R[self.VX] = b.wrapping_sub(a);
        self.R[FLAG_REGISTER] = no_borrow;
    }

    /// Shift VX right by one bit; VF becomes the bit shifted out.
    pub fn shiftVxRight(&mut self)
        requires
            old(self).wf(),
        ensures
            final(self).wf(),
            final(self)@ == old(self)@.shifted_right(),
    {
        let a: u8 = self.R[self.VX];
        assert(a >> 1 == a / 2 && a & 1 == a % 2) by (bit_vector);
        self.R[self.VX] = a >> 1;
        self.R[FLAG_REGISTER] = a & 1;
    }

    /// Shift VX left by one bit; VF becomes the bit shifted out.
    pub fn shiftVxLeft(&mut self)
        requires
            old(self).wf(),
        ensures
            final(self).wf(),
            final(self)@ == old(self)@.shifted_left(),
    {
        let a: u8 = self.R[self.VX];
        assert(a << 1 == ((2 * a) % 256) as u8 && a >> 7 == (if a >= 128 {
            1u8
        } else {
            0u8
        })) by (bit_vector);
        self.R[self.VX] = a << 1;
        self.R[FLAG_REGISTER] = a >> 7;
    }

    /// Skip the next instruction if VX differs from VY.
    pub fn skipPCIfVxIsNotVy(&mut self)
        requires
            old(self).wf(),
            old(self)@.pc + 2 <= PC_LIMIT,
        ensures
            final(self).wf(),
            final(self)@ == old(self)@.skipped_if(old(self)@.x_value() != old(self)@.y_value()),
    {
        if self.R[self.VX] != self.R[self.VY] {
            self.PC = self.PC + 2;
        }
    }

    /// Load the address `NNN` of `opcode` into the index register.
    pub fn setIToNNN(&mut self, opcode: u16)
        requires
            old(self).wf(),
        ensures
            final(self).wf(),
            final(self)@ == old(self)@.indexed(Instruction::of(opcode).nnn as int),
    {
        self.I = Instruction::decode(opcode).nnn;
    }

    /// Jump to the address `NNN` of `opcode` plus V0.
    pub fn jumpNNNPlusV0(&mut self, opcode: u16)
        requires
            old(self).wf(),
        ensures
            final(self).wf(),
            final(self)@ == old(self)@.jumped(
                Instruction::of(opcode).nnn + old(self)@.registers[0],
            ),
    {
        self.PC = Instruction::decode(opcode).nnn + self.R[0] as usize;
    }

    /// Store in VX the random byte `sample` masked by the byte `NN` of
    /// `opcode`.
    pub fn setVxToRandAndNN(&mut self, opcode: u16, sample: u8)
        requires
            old(self).wf(),
        ensures
            final(self).wf(),
            final(self)@ == old(self)@.randomized(Instruction::of(opcode).nn, sample),
    {
        let nn = Instruction::decode(opcode).nn;
        self.R[self.VX] = sample & nn;
    }

    /// Draw the sprite of `N` rows (the nibble of `opcode`) that the index
    /// register points at, at column VX, row VY; VF becomes 1 if a lit pixel
    /// went off and 0 otherwise. `MemoryFault` if the rows do not all lie in
    /// memory, with nothing changed.
    pub fn drawSprite(&mut self, opcode: u16) -> (r: Result<(), Fault>)
        requires
            old(self).wf(),
        ensures
            final(self).wf(),
            old(self)@.index + Instruction::of(opcode).n <= MEMORY_SIZE ==> r == Ok::<(), Fault>(())
                && final(self)@ == old(self)@.sprite_drawn(Instruction::of(opcode).n as int),
            old(self)@.index + Instruction::of(opcode).n > MEMORY_SIZE ==> r == Err::<(), Fault>(
                Fault::MemoryFault { address: MEMORY_SIZE },
            ) && final(self)@ == old(self)@,
    {
        let n = Instruction::decode(opcode).n;
        let x: usize = self.R[self.VX] as usize;
        let y: usize = self.R[self.VY] as usize;
        match self.dm.window(self.I, n as usize) {
            Ok(rows) => {
                let collision = self.display.blit(x, y, rows);
                self.R[FLAG_REGISTER] = if collision {
                    1
                } else {
                    0
                };
                Ok(())
            },
            Err(fault) => Err(fault),
        }
    }

    /// Skip the next instruction if the key named by the low nibble of VX is
    /// down.
    pub fn skipPCIfKeyVxIsDown(&mut self)
        requires
            old(self).wf(),
            old(self)@.pc + 2 <= PC_LIMIT,
        ensures
            final(self).wf(),
            final(self)@ == old(self)@.skipped_if(old(self)@.keys[old(self)@.key_of_x()]),
    {
        let key = low_nibble(self.R[self.VX]) as usize;
        if self.input.keys[key] {
            self.PC = self.PC + 2;
        }
    }

    /// Skip the next instruction if the key named by the low nibble of VX is
    /// up.
    pub fn skipPCIfKeyVxIsUp(&mut self)
        requires
            old(self).wf(),
            old(self)@.pc + 2 <= PC_LIMIT,
        ensures
            final(self).wf(),
            final(self)@ == old(self)@.skipped_if(!old(self)@.keys[old(self)@.key_of_x()]),
    {
        let key = low_nibble(self.R[self.VX]) as usize;
        if !self.input.keys[key] {
            self.PC = self.PC + 2;
        }
    }

    /// Read the delay timer into VX.
    pub fn setVxToDelayTimer(&mut self)
        requires
            old(self).wf(),
        ensures
            final(self).wf(),
            final(self)@ == old(self)@.delay_read(),
    {
        self.R[self.VX] = self.RDelayTimer;
    }

    /// Wait for a key: the machine stops fetching until a key goes down, and
    /// VX (as selected now) then receives the key's index.
    pub fn waitForKey(&mut self)
        requires
            old(self).wf(),
        ensures
            final(self).wf(),
            final(self)@ == old(self)@.suspended(),
    {
        self.mode = Mode::WaitingForKey { register: self.VX };
    }

    /// Write VX into the delay timer.
    pub fn setDelayTimerToVx(&mut self)
        requires
            old(self).wf(),
        ensures
            final(self).wf(),
            final(self)@ == old(self)@.delay_set(),
    {
        self.RDelayTimer = self.R[self.VX];
    }

    /// Write VX into the sound timer.
    pub fn setSoundTimerToVx(&mut self)
        requires
            old(self).wf(),
        ensures
            final(self).wf(),
            final(self)@ == old(self)@.sound_set(),
    {
        self.RSoundTimer = self.R[self.VX];
    }

    /// Add VX to the index register, which wraps round at the end of memory.
    /// No flag records the wrap.
    pub fn addVxToI(&mut self)
        requires
            old(self).wf(),
        ensures
            final(self).wf(),
            final(self)@ == old(self)@.index_advanced(),
    {
        self.I = (self.I + self.R[self.VX] as usize) % MEMORY_SIZE;
    }

    /// Point the index register at the font glyph for the low nibble of VX.
    pub fn setIToGlyphOfVx(&mut self)
        requires
            old(self).wf(),
        ensures
            final(self).wf(),
            final(self)@ == old(self)@.glyph_selected(),
    {
        let digit = low_nibble(self.R[self.VX]) as usize;
        self.I = FONT_BASE + GLYPH_HEIGHT * digit;
    }

    /// Store the decimal digits of VX at the index register and the two
    /// bytes after: hundreds, tens, ones. `MemoryFault` if the three bytes do
    /// not all lie in memory, with nothing changed.
    pub fn storeBcdOfVx(&mut self) -> (r: Result<(), Fault>)
        requires
            old(self).wf(),
        ensures
            final(self).wf(),
            old(self)@.index + 3 <= MEMORY_SIZE ==> r == Ok::<(), Fault>(()) && final(self)@
                == old(self)@.decimal_stored(),
            old(self)@.index + 3 > MEMORY_SIZE ==> r == Err::<(), Fault>(
                Fault::MemoryFault { address: MEMORY_SIZE },
            ) && final(self)@ == old(self)@,
    {
        if self.I + 3 > MEMORY_SIZE {
            return Err(Fault::MemoryFault { address: MEMORY_SIZE });
        }
        let value: u8 = self.R[self.VX];
        self.dm.memory[self.I] = value / 100;
        self.dm.memory[self.I + 1] = (value / 10) % 10;
        self.dm.memory[self.I + 2] = value % 10;
        Ok(())
    }

    /// Store V0 up to and including VX in memory from the index register on.
    /// The index register stays. `MemoryFault` if the bytes do not all lie
    /// in memory, with nothing changed.
    pub fn storeV0ToVx(&mut self) -> (r: Result<(), Fault>)
        requires
            old(self).wf(),
        ensures
            final(self).wf(),
            old(self)@.index + old(self)@.vx + 1 <= MEMORY_SIZE ==> r == Ok::<(), Fault>(())
                && final(self)@ == old(self)@.registers_stored(),
            old(self)@.index + old(self)@.vx + 1 > MEMORY_SIZE ==> r == Err::<(), Fault>(
                Fault::MemoryFault { address: MEMORY_SIZE },
            ) && final(self)@ == old(self)@,
    {
        if self.I + self.VX + 1 > MEMORY_SIZE {
            return Err(Fault::MemoryFault { address: MEMORY_SIZE });
        }
        let mut k: usize = 0;
        while k <= self.VX
            invariant
                k <= self.VX + 1,
                self.wf(),
                self.I + self.VX + 1 <= MEMORY_SIZE,
                self@ == (MachineState { memory: self@.memory, ..old(self)@ }),
                forall|a: int|
                    0 <= a < MEMORY_SIZE ==> #[trigger] self@.memory[a] == (if self.I <= a < self.I
                        + k {
                        self.R@[a - self.I]
                    } else {
                        old(self)@.memory[a]
                    }),
            decreases self.VX + 1 - k,
        {
            self.dm.memory[self.I + k] = self.R[k];
            k = k + 1;
        }
        assert(self@.memory =~= old(self)@.registers_stored().memory);
        Ok(())
    }

    /// Load V0 up to and including VX from memory from the index register
    /// on. The index register stays. `MemoryFault` if the bytes do not all
    /// lie in memory, with nothing changed.
    pub fn loadV0ToVx(&mut self) -> (r: Result<(), Fault>)
        requires
            old(self).wf(),
        ensures
            final(self).wf(),
            old(self)@.index + old(self)@.vx + 1 <= MEMORY_SIZE ==> r == Ok::<(), Fault>(())
                && final(self)@ == old(self)@.registers_loaded(),
            old(self)@.index + old(self)@.vx + 1 > MEMORY_SIZE ==> r == Err::<(), Fault>(
                Fault::MemoryFault { address: MEMORY_SIZE },
            ) && final(self)@ == old(self)@,
    {
        if self.I + self.VX + 1 > MEMORY_SIZE {
            return Err(Fault::MemoryFault { address: MEMORY_SIZE });
        }
        let mut k: usize = 0;
        while k <= self.VX
            invariant
                k <= self.VX + 1,
                self.wf(),
                self.I + self.VX + 1 <= MEMORY_SIZE,
                self@ == (MachineState { registers: self@.registers, ..old(self)@ }),
                forall|i: int|
                    0 <= i < 16 ==> #[trigger] self@.registers[i] == (if i < k {
                        self@.memory[self.I + i]
                    } else {
                        old(self)@.registers[i]
                    }),
            decreases self.VX + 1 - k,
        {
            self.R[k] = self.dm.memory[self.I + k];
            k = k + 1;
        }
        assert(self@.registers =~= old(self)@.registers_loaded().registers);
        Ok(())
    }

    /// The handler of every instruction word that selects no operation: it
    /// changes nothing and reports `UnknownOpcode`.
    pub fn badOpcode(&self) -> (r: Result<(), Fault>)
        ensures
            r == Err::<(), Fault>(Fault::UnknownOpcode),
    {
        Err(Fault::UnknownOpcode)
    }
}

} // verus!
