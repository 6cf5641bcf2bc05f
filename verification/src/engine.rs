//! The decode/execute engine: fetch, decode, dispatch.
use crate::cpu::Cpu;
use crate::fault::Fault;
use crate::instruction::{Instruction, Operation};
use crate::memory::MEMORY_SIZE;
use crate::state::Mode;
use vstd::prelude::*;

verus! {

/// Draws one byte from `rand::random`, which samples the thread-local
/// generator of the `rand` crate uniformly. Nothing is claimed of the byte:
/// every value can come back, and two calls need not agree.
#[verifier::external_body]
fn random_byte() -> (sample: u8) {
    rand::random::<u8>()
}

impl Cpu {
    /// Fetches the instruction word at the program counter: two consecutive
    /// bytes, the high byte first. `MemoryFault`, with the first address out
    /// of range, if either byte lies outside memory.
    pub fn fetch(&self) -> (r: Result<u16, Fault>)
        requires
            self.wf(),
        ensures
            self@.fetchable() ==> r == Ok::<u16, Fault>(self@.fetched()),
            !self@.fetchable() ==> r == Err::<u16, Fault>(self@.fetch_fault()),
    {
        let high: u8 = match self.dm.read(self.PC) {
            Ok(byte) => byte,
            Err(fault) => {
                return Err(fault);
            },
        };
        let low: u8 = match self.dm.read(self.PC + 1) {
            Ok(byte) => byte,
            Err(fault) => {
                return Err(fault);
            },
        };
        assert(((high as u16) << 8) | (low as u16) == (high as u16) * 256 + (low as u16))
            by (bit_vector);
        Ok(((high as u16) << 8) | (low as u16))
    }

    /// Executes `opcode` as the instruction at the program counter.
    ///
    /// A machine that is halted or waits for a key does nothing. A running
    /// machine whose program counter does not lie two bytes inside memory
    /// halts with `MemoryFault`. Otherwise the program counter moves past the
    /// instruction first, so that a jump, call or return is not overridden;
    /// the word is decoded, its selectors are latched, and the handler of its
    /// operation runs. A fatal fault of the handler halts the machine; an
    /// unknown opcode is reported and otherwise does nothing.
    ///
    /// The state afterwards is `after_cycle` of the state before, for some
    /// random byte (which matters only to the random-byte instruction).
    pub fn cycle(&mut self, opcode: u16) -> (r: Result<(), Fault>)
        requires
            old(self).wf(),
        ensures
            final(self).wf(),
            r == old(self)@.cycle_report(opcode),
            exists|sample: u8| final(self)@ == #[trigger] old(self)@.after_cycle(opcode, sample),
    {
        match self.mode {
            Mode::Halted { fault, at: _ } => {
                assert(self@ == old(self)@.after_cycle(opcode, 0));
                return Err(fault);
            },
            Mode::WaitingForKey { register: _ } => {
                assert(self@ == old(self)@.after_cycle(opcode, 0));
                return Ok(());
            },
            Mode::Running => {},
        }
        let at: usize = self.PC;
        if at > MEMORY_SIZE - 2 {
            let fault = Fault::MemoryFault {
                address: if at >= MEMORY_SIZE {
                    at
                } else {
                    MEMORY_SIZE
                },
            };
            self.mode = Mode::Halted { fault, at };
            assert(self@ == old(self)@.after_cycle(opcode, 0));
            return Err(fault);
        }
        self.PC = self.PC + 2;
        self.latch(opcode);
        let ghost ready = self@;
        let ghost mut drawn: u8 = 0;
        assert(ready == old(self)@.ready(opcode));
        let outcome: Result<(), Fault> = match Instruction::decode(opcode).classify() {
            Operation::ClearScreen => {
                self.clearScreen();
                Ok(())
            },
            Operation::Return => self.pcReturn(),
            Operation::Jump => {
                self.jumpNNN(opcode);
                Ok(())
            },
            Operation::Call => self.callNNN(opcode),
            Operation::SkipIfEqualImmediate => {
                self.skipPCIfVxIsNN(opcode);
                Ok(())
            },
            Operation::SkipIfNotEqualImmediate => {
                self.skipPCIfVxIsNotNN(opcode);
                Ok(())
            },
            Operation::SkipIfEqualRegister => {
                self.skipPCIfVxIsVy(opcode);
                Ok(())
            },
            Operation::LoadImmediate => {
                self.setVxToNN(opcode);
                Ok(())
            },
            Operation::AddImmediate => {
                self.addNNToVx(opcode);
                Ok(())
            },
            Operation::Copy => {
                self.setVxToVy();
                Ok(())
            },
            Operation::Or => {
                self.setVxToVxOrVy();
                Ok(())
            },
            Operation::And => {
                self.setVxToVxAndVy();
                Ok(())
            },
            Operation::Xor => {
                self.setVxToVxXorVy();
                Ok(())
            },
            Operation::AddRegister => {
                self.addVyToVx();
                Ok(())
            },
            Operation::SubtractRegister => {
                self.subVyFromVx();
                Ok(())
            },
            Operation::ShiftRight => {
                self.shiftVxRight();
                Ok(())
            },
            Operation::SubtractFromRegister => {
                self.setVxToVyMinusVx();
                Ok(())
            },
            Operation::ShiftLeft => {
                self.shiftVxLeft();
                Ok(())
            },
            Operation::SkipIfNotEqualRegister => {
                self.skipPCIfVxIsNotVy();
                Ok(())
            },
            Operation::LoadIndex => {
                self.setIToNNN(opcode);
                Ok(())
            },
            Operation::JumpOffset => {
                self.jumpNNNPlusV0(opcode);
                Ok(())
            },
            Operation::Random => {
                let sample = random_byte();
                proof {
                    drawn = sample;
                }
                self.setVxToRandAndNN(opcode, sample);
                Ok(())
            },
            Operation::Draw => self.drawSprite(opcode),
            Operation::SkipIfKeyDown => {
                self.skipPCIfKeyVxIsDown();
                Ok(())
            },
            Operation::SkipIfKeyUp => {
                self.skipPCIfKeyVxIsUp();
                Ok(())
            },
            Operation::ReadDelayTimer => {
                self.setVxToDelayTimer();
                Ok(())
            },
            Operation::WaitForKey => {
                self.waitForKey();
                Ok(())
            },
            Operation::SetDelayTimer => {
                self.setDelayTimerToVx();
                Ok(())
            },
            Operation::SetSoundTimer => {
                self.setSoundTimerToVx();
                Ok(())
            },
            Operation::AddToIndex => {
                self.addVxToI();
                Ok(())
            },
            Operation::FontGlyph => {
                self.setIToGlyphOfVx();
                Ok(())
            },
            Operation::StoreDecimal => self.storeBcdOfVx(),
            Operation::StoreRegisters => self.storeV0ToVx(),
            Operation::LoadRegisters => self.loadV0ToVx(),
            Operation::Unknown => self.badOpcode(),
        };
        match outcome {
            Ok(()) => {},
            Err(fault) => {
                if fault.is_fatal() {
                    self.mode = Mode::Halted { fault, at };
                }
            },
        }
        assert(self@ == old(self)@.after_cycle(opcode, drawn));
        outcome
    }

    /// One step of a running machine: fetches the instruction at the program
    /// counter and executes it as `cycle` does. A fetch outside memory halts
    /// the machine with `MemoryFault`. A machine that waits for a key fetches
    /// nothing and stays as it is; so does a halted one, which reports its
    /// fault again.
    pub fn step(&mut self) -> (r: Result<(), Fault>)
        requires
            old(self).wf(),
        ensures
            final(self).wf(),
            r == old(self)@.step_report(),
            exists|sample: u8| final(self)@ == #[trigger] old(self)@.after_step(sample),
    {
        match self.mode {
            Mode::Running => match self.fetch() {
                Ok(opcode) => {
                    let report = self.cycle(opcode);
                    proof {
                        let sample = choose|sample: u8|
                            self@ == #[trigger] old(self)@.after_cycle(opcode, sample);
                        assert(self@ == old(self)@.after_step(sample));
                    }
                    report
                },
                Err(fault) => {
                    self.mode = Mode::Halted { fault, at: self.PC };
                    assert(self@ == old(self)@.after_step(0));
                    Err(fault)
                },
            },
            Mode::WaitingForKey { register: _ } => {
                assert(self@ == old(self)@.after_step(0));
                Ok(())
            },
            Mode::Halted { fault, at: _ } => {
                assert(self@ == old(self)@.after_step(0));
                Err(fault)
            },
        }
    }
}

} // verus!
