//! The mathematical model of the machine: its state as plain sequences and
//! integers, and what each operation makes of a state.
//!
//! Nothing here runs. The executable machine in [`crate::cpu`] is proved to
//! follow these functions step for step.
use crate::display::{blank, collides, drawn, grid_shaped};
use crate::fault::Fault;
use crate::font::{font_byte, glyph_address, in_font};
use crate::input::KEY_COUNT;
use crate::instruction::{Instruction, Operation};
use crate::memory::{first_unaddressable, MEMORY_SIZE, PROGRAM_START, STACK_DEPTH};
use vstd::prelude::*;

verus! {

/// The number of general registers.
pub const REGISTER_COUNT: usize = 16;

/// The register that receives carry, borrow, shifted-out bit and collision.
pub const FLAG_REGISTER: usize = 15;

/// The largest value that the program counter can hold: it is a 16-bit
/// register, as wide as a slot of the call stack.
pub const PC_LIMIT: usize = 0xFFFF;

/// What the machine is doing.
#[derive(Clone, Copy, Debug, PartialEq, Eq, Structural)]
pub enum Mode {
    /// Instructions are fetched and executed.
    Running,
    /// No instruction is fetched until a key goes down; its index then goes
    /// into `register`.
    WaitingForKey { register: usize },
    /// A fatal fault has stopped the machine. `at` is the address of the
    /// instruction that raised it.
    Halted { fault: Fault, at: usize },
}

/// The state of the machine.
pub struct MachineState {
    /// The bytes of memory, by address.
    pub memory: Seq<u8>,
    /// The return addresses on the call stack, the oldest first.
    pub stack: Seq<u16>,
    /// The general registers.
    pub registers: Seq<u8>,
    /// The index register.
    pub index: int,
    /// The program counter: the address of the next instruction.
    pub pc: int,
    /// The first register selector of the instruction being executed.
    pub vx: int,
    /// The second register selector of the instruction being executed.
    pub vy: int,
    /// The delay timer.
    pub delay: u8,
    /// The sound timer.
    pub sound: u8,
    /// The pixels of the display, by row, then by column.
    pub pixels: Seq<Seq<bool>>,
    /// The keys of the keypad: `true` for a key that is down.
    pub keys: Seq<bool>,
    /// What the machine is doing.
    pub mode: Mode,
}

/// `value` reduced to eight bits.
pub open spec fn wrap8(value: int) -> u8 {
    (value % 256) as u8
}

/// The instruction word made of two consecutive bytes, the high byte first.
pub open spec fn word(high: u8, low: u8) -> u16 {
    (high * 256 + low) as u16
}

impl MachineState {
    /// What holds of every state that the machine can be in.
    pub open spec fn inv(self) -> bool {
        &&& self.memory.len() == MEMORY_SIZE
        &&& self.stack.len() <= STACK_DEPTH
        &&& self.registers.len() == REGISTER_COUNT
        &&& 0 <= self.index < MEMORY_SIZE
        &&& 0 <= self.pc <= PC_LIMIT
        &&& 0 <= self.vx < REGISTER_COUNT
        &&& 0 <= self.vy < REGISTER_COUNT
        &&& grid_shaped(self.pixels)
        &&& self.keys.len() == KEY_COUNT
        &&& (self.mode matches Mode::WaitingForKey { register } ==> register < REGISTER_COUNT)
    }

    /// The state of a machine just built or reset: everything zero, off or
    /// up, except the font in memory and the program counter, which points at
    /// the start of the program area.
    pub open spec fn initial() -> MachineState {
        MachineState {
            memory: Seq::new(
                MEMORY_SIZE as nat,
                |a: int|
                    if in_font(a) {
                        font_byte(a)
                    } else {
                        0u8
                    },
            ),
            stack: Seq::empty(),
            registers: Seq::new(REGISTER_COUNT as nat, |i: int| 0u8),
            index: 0,
            pc: PROGRAM_START as int,
            vx: 0,
            vy: 0,
            delay: 0,
            sound: 0,
            pixels: blank(),
            keys: Seq::new(KEY_COUNT as nat, |k: int| false),
            mode: Mode::Running,
        }
    }

    /// Whether a program image of `len` bytes fits between the start of the
    /// program area and the end of memory.
    pub open spec fn fits(len: int) -> bool {
        PROGRAM_START + len <= MEMORY_SIZE
    }

    /// The state with `image` copied into memory from `PROGRAM_START` on.
    pub open spec fn loaded(self, image: Seq<u8>) -> MachineState {
        MachineState {
            memory: Seq::new(
                MEMORY_SIZE as nat,
                |a: int|
                    if PROGRAM_START <= a < PROGRAM_START + image.len() {
                        image[a - PROGRAM_START]
                    } else {
                        self.memory[a]
                    },
            ),
            ..self
        }
    }

    /// The value of the register that the first selector names.
    pub open spec fn x_value(self) -> u8 {
        self.registers[self.vx]
    }

    /// The value of the register that the second selector names.
    pub open spec fn y_value(self) -> u8 {
        self.registers[self.vy]
    }

    /// The state with `value` in the register that the first selector names.
    pub open spec fn set_x(self, value: u8) -> MachineState {
        MachineState { registers: self.registers.update(self.vx, value), ..self }
    }

    /// The state with `value` in the register that the first selector names
    /// and then 1 or 0, for `flag`, in the flag register. Where the selector
    /// names the flag register itself, the flag is what stays.
    pub open spec fn set_x_and_flag(self, value: u8, flag: bool) -> MachineState {
        MachineState {
            registers: self.registers.update(self.vx, value).update(
                FLAG_REGISTER as int,
                if flag {
                    1u8
                } else {
                    0u8
                },
            ),
            ..self
        }
    }

    /// The state with the selectors of `opcode` latched.
    pub open spec fn latched(self, opcode: u16) -> MachineState {
        MachineState {
            vx: Instruction::of(opcode).x as int,
            vy: Instruction::of(opcode).y as int,
            ..self
        }
    }

    /// The state with the program counter moved past one instruction.
    pub open spec fn advanced(self) -> MachineState {
        MachineState { pc: self.pc + 2, ..self }
    }

    /// The state with the machine halted by `fault`, raised by the
    /// instruction at `at`.
    pub open spec fn halted(self, fault: Fault, at: int) -> MachineState {
        MachineState { mode: Mode::Halted { fault, at: at as usize }, ..self }
    }

    /// Clear the display.
    pub open spec fn cleared(self) -> MachineState {
        MachineState { pixels: blank(), ..self }
    }

    /// Return from a subroutine: the newest return address leaves the stack
    /// and becomes the program counter.
    pub open spec fn returned(self) -> MachineState {
        MachineState { pc: self.stack.last() as int, stack: self.stack.drop_last(), ..self }
    }

    /// Jump to `target`.
    pub open spec fn jumped(self, target: int) -> MachineState {
        MachineState { pc: target, ..self }
    }

    /// Call the subroutine at `target`: the program counter goes onto the
    /// stack as the return address.
    pub open spec fn called(self, target: int) -> MachineState {
        MachineState { pc: target, stack: self.stack.push(self.pc as u16), ..self }
    }

    /// Skip the next instruction if `condition` holds.
    pub open spec fn skipped_if(self, condition: bool) -> MachineState {
        if condition {
            self.advanced()
        } else {
            self
        }
    }

    /// Add the immediate byte `nn` to the first register, wrapping; no flag.
    pub open spec fn added_immediate(self, nn: u8) -> MachineState {
        self.set_x(wrap8(self.x_value() + nn))
    }

    /// Copy the second register into the first.
    pub open spec fn copied(self) -> MachineState {
        self.set_x(self.y_value())
    }

    /// Bitwise or of the two registers, into the first.
    pub open spec fn joined_or(self) -> MachineState {
        self.set_x(self.x_value() | self.y_value())
    }

    /// Bitwise and of the two registers, into the first.
    pub open spec fn joined_and(self) -> MachineState {
        self.set_x(self.x_value() & self.y_value())
    }

    /// Bitwise exclusive or of the two registers, into the first.
    pub open spec fn joined_xor(self) -> MachineState {
        self.set_x(self.x_value() ^ self.y_value())
    }

    /// Add the second register to the first, wrapping. The flag is the carry:
    /// 1 if the sum does not fit in eight bits.
    pub open spec fn summed(self) -> MachineState {
        self.set_x_and_flag(
            wrap8(self.x_value() + self.y_value()),
            self.x_value() + self.y_value() > 255,
        )
    }

    /// Subtract the second register from the first, wrapping. The flag is 1
    /// if there is no borrow: if the first is at least the second.
    pub open spec fn subtracted(self) -> MachineState {
        self.set_x_and_flag(
            wrap8(self.x_value() - self.y_value()),
            self.x_value() >= self.y_value(),
        )
    }

    /// Subtract the first register from the second, wrapping, into the first.
    /// The flag is 1 if there is no borrow: if the second is at least the
    /// first.
    pub open spec fn subtracted_from(self) -> MachineState {
        self.set_x_and_flag(
            wrap8(self.y_value() - self.x_value()),
            self.y_value() >= self.x_value(),
        )
    }

    /// Shift the first register right by one bit. The flag is the bit shifted
    /// out: the least significant.
    pub open spec fn shifted_right(self) -> MachineState {
        self.set_x_and_flag(self.x_value() / 2, self.x_value() % 2 == 1)
    }

    /// Shift the first register left by one bit. The flag is the bit shifted
    /// out: the most significant.
    pub open spec fn shifted_left(self) -> MachineState {
        self.set_x_and_flag(wrap8(2 * self.x_value()), self.x_value() >= 128)
    }

    /// Load `address` into the index register.
    pub open spec fn indexed(self, address: int) -> MachineState {
        MachineState { index: address, ..self }
    }

    /// Store the random byte `sample`, masked by `nn`, in the first register.
    pub open spec fn randomized(self, nn: u8, sample: u8) -> MachineState {
        self.set_x(sample & nn)
    }

    /// The `n` sprite rows that the index register points at.
    pub open spec fn sprite(self, n: int) -> Seq<u8> {
        self.memory.subrange(self.index, self.index + n)
    }

    /// Draw the sprite of `n` rows at the coordinates held by the two
    /// registers. The flag is the collision.
    pub open spec fn sprite_drawn(self, n: int) -> MachineState {
        MachineState {
            pixels: drawn(
                self.pixels,
                self.x_value() as int,
                self.y_value() as int,
                self.sprite(n),
            ),
            registers: self.registers.update(
                FLAG_REGISTER as int,
                if collides(
                    self.pixels,
                    self.x_value() as int,
                    self.y_value() as int,
                    self.sprite(n),
                ) {
                    1u8
                } else {
                    0u8
                },
            ),
            ..self
        }
    }

    /// The key that the first register names: its low four bits.
    pub open spec fn key_of_x(self) -> int {
        self.x_value() as int % 16
    }

    /// Read the delay timer into the first register.
    pub open spec fn delay_read(self) -> MachineState {
        self.set_x(self.delay)
    }

    /// Suspend until a key goes down, then put its index in the first
    /// register.
    pub open spec fn suspended(self) -> MachineState {
        MachineState { mode: Mode::WaitingForKey { register: self.vx as usize }, ..self }
    }

    /// Write the first register into the delay timer.
    pub open spec fn delay_set(self) -> MachineState {
        MachineState { delay: self.x_value(), ..self }
    }

    /// Write the first register into the sound timer.
    pub open spec fn sound_set(self) -> MachineState {
        MachineState { sound: self.x_value(), ..self }
    }

    /// Add the first register to the index register. The index register
    /// wraps round at the end of memory; no flag records that.
    pub open spec fn index_advanced(self) -> MachineState {
        self.indexed((self.index + self.x_value()) % (MEMORY_SIZE as int))
    }

    /// Point the index register at the glyph for the low nibble of the first
    /// register.
    pub open spec fn glyph_selected(self) -> MachineState {
        self.indexed(glyph_address(self.x_value() as int % 16))
    }

    /// Store the three decimal digits of the first register at the index
    /// register and the two bytes after: hundreds, tens, ones.
    pub open spec fn decimal_stored(self) -> MachineState {
        MachineState {
            memory: self.memory.update(self.index, self.x_value() / 100).update(
                self.index + 1,
                (self.x_value() / 10) % 10,
            ).update(self.index + 2, self.x_value() % 10),
            ..self
        }
    }

    /// Store the registers 0 up to and including the one that the first
    /// selector names in memory, from the index register on.
    pub open spec fn registers_stored(self) -> MachineState {
        MachineState {
            memory: Seq::new(
                MEMORY_SIZE as nat,
                |a: int|
                    if self.index <= a <= self.index + self.vx {
                        self.registers[a - self.index]
                    } else {
                        self.memory[a]
                    },
            ),
            ..self
        }
    }

    /// Load the registers 0 up to and including the one that the first
    /// selector names from memory, from the index register on.
    pub open spec fn registers_loaded(self) -> MachineState {
        MachineState {
            registers: Seq::new(
                REGISTER_COUNT as nat,
                |i: int|
                    if i <= self.vx {
                        self.memory[self.index + i]
                    } else {
                        self.registers[i]
                    },
            ),
            ..self
        }
    }

    /// The fault that `op` raises in this state, if it raises one. The state
    /// is the one in which the operation starts: the program counter has
    /// moved on and the selectors are latched.
    pub open spec fn fault_of(self, op: Operation, opcode: u16) -> Option<Fault> {
        match op {
            Operation::Return => if self.stack.len() == 0 {
                Some(Fault::StackUnderflow)
            } else {
                None
            },
            Operation::Call => if self.stack.len() >= STACK_DEPTH {
                Some(Fault::StackOverflow)
            } else {
                None
            },
            Operation::Draw => if self.index + Instruction::of(opcode).n > MEMORY_SIZE {
                Some(Fault::MemoryFault { address: MEMORY_SIZE })
            } else {
                None
            },
            Operation::StoreDecimal => if self.index + 3 > MEMORY_SIZE {
                Some(Fault::MemoryFault { address: MEMORY_SIZE })
            } else {
                None
            },
            Operation::StoreRegisters | Operation::LoadRegisters => if self.index + self.vx + 1
                > MEMORY_SIZE {
                Some(Fault::MemoryFault { address: MEMORY_SIZE })
            } else {
                None
            },
            Operation::Unknown => Some(Fault::UnknownOpcode),
            _ => None,
        }
    }

    /// The state that `op` leaves where it raises no fault. `sample` is the
    /// random byte, which only `Operation::Random` looks at.
    pub open spec fn effect(self, op: Operation, opcode: u16, sample: u8) -> MachineState {
        let ins = Instruction::of(opcode);
        match op {
            Operation::ClearScreen => self.cleared(),
            Operation::Return => self.returned(),
            Operation::Jump => self.jumped(ins.nnn as int),
            Operation::Call => self.called(ins.nnn as int),
            Operation::SkipIfEqualImmediate => self.skipped_if(self.x_value() == ins.nn),
            Operation::SkipIfNotEqualImmediate => self.skipped_if(self.x_value() != ins.nn),
            Operation::SkipIfEqualRegister => self.skipped_if(self.x_value() == self.y_value()),
            Operation::LoadImmediate => self.set_x(ins.nn),
            Operation::AddImmediate => self.added_immediate(ins.nn),
            Operation::Copy => self.copied(),
            Operation::Or => self.joined_or(),
            Operation::And => self.joined_and(),
            Operation::Xor => self.joined_xor(),
            Operation::AddRegister => self.summed(),
            Operation::SubtractRegister => self.subtracted(),
            Operation::ShiftRight => self.shifted_right(),
            Operation::SubtractFromRegister => self.subtracted_from(),
            Operation::ShiftLeft => self.shifted_left(),
            Operation::SkipIfNotEqualRegister => self.skipped_if(
                self.x_value() != self.y_value(),
            ),
            Operation::LoadIndex => self.indexed(ins.nnn as int),
            Operation::JumpOffset => self.jumped(ins.nnn + self.registers[0]),
            Operation::Random => self.randomized(ins.nn, sample),
            Operation::Draw => self.sprite_drawn(ins.n as int),
            Operation::SkipIfKeyDown => self.skipped_if(self.keys[self.key_of_x()]),
            Operation::SkipIfKeyUp => self.skipped_if(!self.keys[self.key_of_x()]),
            Operation::ReadDelayTimer => self.delay_read(),
            Operation::WaitForKey => self.suspended(),
            Operation::SetDelayTimer => self.delay_set(),
            Operation::SetSoundTimer => self.sound_set(),
            Operation::AddToIndex => self.index_advanced(),
            Operation::FontGlyph => self.glyph_selected(),
            Operation::StoreDecimal => self.decimal_stored(),
            Operation::StoreRegisters => self.registers_stored(),
            Operation::LoadRegisters => self.registers_loaded(),
            Operation::Unknown => self,
        }
    }

    /// Whether the two bytes at the program counter both lie in memory.
    pub open spec fn fetchable(self) -> bool {
        0 <= self.pc && self.pc + 2 <= MEMORY_SIZE
    }

    /// The instruction word at the program counter.
    pub open spec fn fetched(self) -> u16 {
        word(self.memory[self.pc], self.memory[self.pc + 1])
    }

    /// The fault of a fetch that reaches outside memory.
    pub open spec fn fetch_fault(self) -> Fault {
        Fault::MemoryFault { address: first_unaddressable(self.pc) as usize }
    }

    /// The state in which the operation of `opcode` starts: the program
    /// counter points past the instruction and the selectors are latched.
    pub open spec fn ready(self, opcode: u16) -> MachineState {
        self.advanced().latched(opcode)
    }

    /// The state after one cycle that executes `opcode` as the instruction at
    /// the program counter.
    ///
    /// Only a running machine executes. If the program counter does not lie
    /// two bytes inside memory, no instruction can have come from there, and
    /// the machine halts. Otherwise the program counter moves on, the
    /// selectors are latched and the operation takes effect; a fatal fault
    /// halts the machine instead, and an unknown opcode does nothing more.
    pub open spec fn after_cycle(self, opcode: u16, sample: u8) -> MachineState {
        if self.mode != Mode::Running {
            self
        } else if !self.fetchable() {
            self.halted(self.fetch_fault(), self.pc)
        } else {
            let op = Instruction::of(opcode).operation();
            let ready = self.ready(opcode);
            match ready.fault_of(op, opcode) {
                Some(fault) => if fault.fatal() {
                    ready.halted(fault, self.pc)
                } else {
                    ready
                },
                None => ready.effect(op, opcode, sample),
            }
        }
    }

    /// What one cycle that executes `opcode` reports: the fault that stopped
    /// the machine earlier or stops it now, the diagnostic for an unknown
    /// opcode, or success (also while the machine waits for a key).
    pub open spec fn cycle_report(self, opcode: u16) -> Result<(), Fault> {
        match self.mode {
            Mode::Halted { fault, at } => Err(fault),
            Mode::WaitingForKey { register } => Ok(()),
            Mode::Running => if !self.fetchable() {
                Err(self.fetch_fault())
            } else {
                match self.ready(opcode).fault_of(Instruction::of(opcode).operation(), opcode) {
                    Some(fault) => Err(fault),
                    None => Ok(()),
                }
            },
        }
    }

    /// The state after one step: a cycle on the instruction at the program
    /// counter.
    pub open spec fn after_step(self, sample: u8) -> MachineState {
        self.after_cycle(self.fetched(), sample)
    }

    /// What one step reports.
    pub open spec fn step_report(self) -> Result<(), Fault> {
        self.cycle_report(self.fetched())
    }

    /// The state after key `key` goes down. A machine that waits for a key
    /// takes the key's index into the register it waits with and runs again.
    pub open spec fn key_pressed(self, key: int) -> MachineState {
        match self.mode {
            Mode::WaitingForKey { register } => MachineState {
                keys: self.keys.update(key, true),
                registers: self.registers.update(register as int, key as u8),
                mode: Mode::Running,
                ..self
            },
            _ => MachineState { keys: self.keys.update(key, true), ..self },
        }
    }

    /// The state after key `key` goes up.
    pub open spec fn key_released(self, key: int) -> MachineState {
        MachineState { keys: self.keys.update(key, false), ..self }
    }

    /// The state after `ticks` timer ticks: each timer has gone down by one
    /// per tick, and stays at 0 once it is there.
    pub open spec fn after_ticks(self, ticks: nat) -> MachineState {
        MachineState {
            delay: if self.delay > ticks {
                (self.delay - ticks) as u8
            } else {
                0u8
            },
            sound: if self.sound > ticks {
                (self.sound - ticks) as u8
            } else {
                0u8
            },
            ..self
        }
    }
}

} // verus!
