//! The machine itself: memory, registers, display and keypad in one value,
//! with the operations that build it, load it and observe it, and the events
//! that reach it from outside (keys and timer ticks).
//!
//! The instruction handlers are in [`crate::handlers`], the fetch and
//! dispatch in [`crate::engine`].
use crate::display::{on_grid, Display};
use crate::fault::Fault;
use crate::font::{FONT, FONT_BASE, FONT_SIZE};
use crate::input::{Input, KEY_COUNT};
use crate::memory::{DataMemory, MEMORY_SIZE, PROGRAM_START, STACK_DEPTH};
use crate::state::{MachineState, Mode, PC_LIMIT, REGISTER_COUNT};
use vstd::prelude::*;

verus! {

/// A CHIP-8 machine.
pub struct Cpu {
    pub(crate) display: Display,
    pub(crate) input: Input,
    pub(crate) dm: DataMemory,
    /// The general registers V0 to VF.
    pub(crate) R: [u8; 16],
    pub(crate) RSoundTimer: u8,
    pub(crate) RDelayTimer: u8,
    /// The program counter.
    pub(crate) PC: usize,
    /// The stack pointer: the number of return addresses on the call stack.
    pub(crate) SP: usize,
    /// The first register selector of the instruction being executed.
    pub(crate) VX: usize,
    /// The second register selector of the instruction being executed.
    pub(crate) VY: usize,
    /// The index register.
    pub(crate) I: usize,
    pub(crate) mode: Mode,
}

impl Cpu {
    /// The machine as a mathematical state. Of the stack slots only those
    /// below the stack pointer are part of it.
    pub open(crate) spec fn view(&self) -> MachineState {
        MachineState {
            memory: self.dm.bytes(),
            stack: self.dm.slots().take(self.SP as int),
            registers: self.R@,
            index: self.I as int,
            pc: self.PC as int,
            vx: self.VX as int,
            vy: self.VY as int,
            delay: self.RDelayTimer,
            sound: self.RSoundTimer,
            pixels: self.display@,
            keys: self.input@,
            mode: self.mode,
        }
    }

    /// Well-formedness: every register holds a value of its range. All
    /// constructors establish it and all operations keep it.
    pub open(crate) spec fn wf(&self) -> bool {
        &&& self.SP <= STACK_DEPTH
        &&& self.I < MEMORY_SIZE
        &&& self.PC <= PC_LIMIT
        &&& self.VX < REGISTER_COUNT
        &&& self.VY < REGISTER_COUNT
        &&& (self.mode matches Mode::WaitingForKey { register } ==> register < REGISTER_COUNT)
    }

    /// The state of a well-formed machine satisfies the state invariant.
    pub proof fn lemma_wf_state(&self)
        requires
            self.wf(),
        ensures
            self@.inv(),
    {
    }

    /// A machine in its initial state: the font in memory, everything else
    /// zero, the program counter at the start of the program area.
    pub fn new() -> (cpu: Cpu)
        ensures
            cpu.wf(),
            cpu@ == MachineState::initial(),
    {
        let mut dm = DataMemory::new();
        let mut k: usize = 0;
        while k < FONT_SIZE
            invariant
                k <= FONT_SIZE,
                dm.slots() == Seq::new(STACK_DEPTH as nat, |i: int| 0u16),
                forall|a: int|
                    0 <= a < MEMORY_SIZE ==> #[trigger] dm.bytes()[a] == (if FONT_BASE <= a
                        < FONT_BASE + k {
                        FONT@[a - FONT_BASE]
                    } else {
                        0u8
                    }),
            decreases FONT_SIZE - k,
        {
            let ghost earlier = dm.bytes();
            dm.memory[FONT_BASE + k] = FONT[k];
            assert(dm.bytes() == earlier.update(FONT_BASE + k, FONT@[k as int]));
            k = k + 1;
        }
        let cpu = Cpu {
            display: Display::new(),
            input: Input::new(),
            dm,
            R: [0u8; 16],
            RSoundTimer: 0,
            RDelayTimer: 0,
            PC: PROGRAM_START,
            SP: 0,
            VX: 0,
            VY: 0,
            I: 0,
            mode: Mode::Running,
        };
        proof {
            assert(cpu@.memory =~= MachineState::initial().memory);
            assert(cpu@.stack =~= MachineState::initial().stack);
            assert(cpu@.registers =~= MachineState::initial().registers);
        }
        cpu
    }

    /// Copies a program image into memory from `PROGRAM_START` on. An image
    /// that reaches past the end of memory is refused with `MemoryFault` at
    /// the first address outside, and nothing is copied.
    pub fn load(&mut self, image: &[u8]) -> (r: Result<(), Fault>)
        requires
            old(self).wf(),
        ensures
            final(self).wf(),
            MachineState::fits(image@.len() as int) ==> r == Ok::<(), Fault>(()) && final(self)@
                == old(self)@.loaded(image@),
            !MachineState::fits(image@.len() as int) ==> r == Err::<(), Fault>(
                Fault::MemoryFault { address: MEMORY_SIZE },
            ) && final(self)@ == old(self)@,
    {
        if image.len() > MEMORY_SIZE - PROGRAM_START {
            return Err(Fault::MemoryFault { address: MEMORY_SIZE });
        }
        let mut k: usize = 0;
        while k < image.len()
            invariant
                k <= image.len(),
                image.len() <= MEMORY_SIZE - PROGRAM_START,
                self.wf(),
                self.dm.slots() == old(self).dm.slots(),
                self.view() == (MachineState { memory: self@.memory, ..old(self)@ }),
                forall|a: int|
                    0 <= a < MEMORY_SIZE ==> #[trigger] self@.memory[a] == (if PROGRAM_START <= a
                        < PROGRAM_START + k {
                        image@[a - PROGRAM_START]
                    } else {
                        old(self)@.memory[a]
                    }),
            decreases image.len() - k,
        {
            self.dm.memory[PROGRAM_START + k] = image[k];
            k = k + 1;
        }
        assert(self@.memory =~= old(self)@.loaded(image@).memory);
        Ok(())
    }

    /// Puts the machine back into its initial state and loads `image`. An
    /// image that does not fit is refused as by `load`, and the machine is
    /// left as it was.
    pub fn reset(&mut self, image: &[u8]) -> (r: Result<(), Fault>)
        requires
            old(self).wf(),
        ensures
            final(self).wf(),
            MachineState::fits(image@.len() as int) ==> r == Ok::<(), Fault>(()) && final(self)@
                == MachineState::initial().loaded(image@),
            !MachineState::fits(image@.len() as int) ==> r == Err::<(), Fault>(
                Fault::MemoryFault { address: MEMORY_SIZE },
            ) && final(self)@ == old(self)@,
    {
        if image.len() > MEMORY_SIZE - PROGRAM_START {
            return Err(Fault::MemoryFault { address: MEMORY_SIZE });
        }
        *self = Cpu::new();
        self.load(image)
    }

    /// A key goes down. `InvalidIndex` if the keypad has no key `index`, with
    /// nothing changed. A machine that waits for a key takes `index` into the
    /// register it waits with and runs again.
    pub fn key_down(&mut self, index: usize) -> (r: Result<(), Fault>)
        requires
            old(self).wf(),
        ensures
            final(self).wf(),
            index < KEY_COUNT ==> r == Ok::<(), Fault>(()) && final(self)@ == old(self)@.key_pressed(index as int),
            index >= KEY_COUNT ==> r == Err::<(), Fault>(Fault::InvalidIndex { index }) && final(self)@ == old(self)@,
    {
        match self.input.set_key(index, true) {
            Ok(()) => {
                match self.mode {
                    Mode::WaitingForKey { register } => {
                        self.R[register] = index as u8;
                        self.mode = Mode::Running;
                    },
                    _ => {},
                }
                Ok(())
            },
            Err(fault) => Err(fault),
        }
    }

    /// A key goes up. `InvalidIndex` if the keypad has no key `index`, with
    /// nothing changed.
    pub fn key_up(&mut self, index: usize) -> (r: Result<(), Fault>)
        requires
            old(self).wf(),
        ensures
            final(self).wf(),
            index < KEY_COUNT ==> r == Ok::<(), Fault>(()) && final(self)@ == old(self)@.key_released(index as int),
            index >= KEY_COUNT ==> r == Err::<(), Fault>(Fault::InvalidIndex { index }) && final(self)@ == old(self)@,
    {
        self.input.set_key(index, false)
    }

    /// One timer tick: the delay timer and the sound timer each go down by
    /// one unless they are 0. Ticks count in every mode.
    pub fn tick(&mut self)
        requires
            old(self).wf(),
        ensures
            final(self).wf(),
            final(self)@ == old(self)@.after_ticks(1),
    {
        if self.RDelayTimer > 0 {
            self.RDelayTimer = self.RDelayTimer - 1;
        }
        if self.RSoundTimer > 0 {
            self.RSoundTimer = self.RSoundTimer - 1;
        }
    }

    /// `ticks` timer ticks at once.
    pub fn run_timers(&mut self, ticks: u64)
        requires
            old(self).wf(),
        ensures
            final(self).wf(),
            final(self)@ == old(self)@.after_ticks(ticks as nat),
    {
        if ticks >= 255 {
            self.RDelayTimer = 0;
            self.RSoundTimer = 0;
        } else {
            let step: u8 = ticks as u8;
            self.RDelayTimer = if self.RDelayTimer > step {
                self.RDelayTimer - step
            } else {
                0
            };
            self.RSoundTimer = if self.RSoundTimer > step {
                self.RSoundTimer - step
            } else {
                0
            };
        }
    }
}

impl Cpu {
    /// The value of register `index`; `InvalidIndex` if there is no such
    /// register.
    pub fn register(&self, index: usize) -> (r: Result<u8, Fault>)
        ensures
            index < REGISTER_COUNT ==> r == Ok::<u8, Fault>(self@.registers[index as int]),
            index >= REGISTER_COUNT ==> r == Err::<u8, Fault>(Fault::InvalidIndex { index }),
    {
        if index < REGISTER_COUNT {
            Ok(self.R[index])
        } else {
            Err(Fault::InvalidIndex { index })
        }
    }

    /// Puts `value` into register `index`; `InvalidIndex` if there is no
    /// such register, with nothing changed.
    pub fn set_register(&mut self, index: usize, value: u8) -> (r: Result<(), Fault>)
        requires
            old(self).wf(),
        ensures
            final(self).wf(),
            index < REGISTER_COUNT ==> r == Ok::<(), Fault>(()) && final(self)@ == (MachineState {
                registers: old(self)@.registers.update(index as int, value),
                ..old(self)@
            }),
            index >= REGISTER_COUNT ==> r == Err::<(), Fault>(Fault::InvalidIndex { index })
                && final(self)@ == old(self)@,
    {
        if index < REGISTER_COUNT {
            self.R[index] = value;
            Ok(())
        } else {
            Err(Fault::InvalidIndex { index })
        }
    }

    /// The program counter.
    pub fn pc(&self) -> (pc: usize)
        ensures
            pc == self@.pc,
    {
        self.PC
    }

    /// The index register.
    pub fn index(&self) -> (index: usize)
        ensures
            index == self@.index,
    {
        self.I
    }

    /// The stack pointer: the number of return addresses on the call stack.
    pub fn sp(&self) -> (sp: usize)
        requires
            self.wf(),
        ensures
            sp == self@.stack.len(),
    {
        self.SP
    }

    /// The return address in slot `slot` of the call stack, the oldest in
    /// slot 0; `None` at and above the stack pointer.
    pub fn return_address(&self, slot: usize) -> (address: Option<u16>)
        requires
            self.wf(),
        ensures
            slot < self@.stack.len() ==> address == Some(self@.stack[slot as int]),
            slot >= self@.stack.len() ==> address is None,
    {
        if slot < self.SP {
            Some(self.dm.stack[slot])
        } else {
            None
        }
    }

    /// The delay timer.
    pub fn delay_timer(&self) -> (value: u8)
        ensures
            value == self@.delay,
    {
        self.RDelayTimer
    }

    /// The sound timer.
    pub fn sound_timer(&self) -> (value: u8)
        ensures
            value == self@.sound,
    {
        self.RSoundTimer
    }

    /// Whether a tone is due: whether the sound timer is above 0.
    pub fn sound_on(&self) -> (on: bool)
        ensures
            on == (self@.sound > 0),
    {
        self.RSoundTimer > 0
    }

    /// What the machine is doing.
    pub fn mode(&self) -> (mode: Mode)
        ensures
            mode == self@.mode,
    {
        self.mode
    }

    /// The display, to read.
    pub fn display(&self) -> (display: &Display)
        ensures
            display@ == self@.pixels,
    {
        &self.display
    }

    /// The pixel in column `x`, row `y`; `None` outside the grid.
    pub fn pixel(&self, x: usize, y: usize) -> (p: Option<bool>)
        ensures
            on_grid(x as int, y as int) ==> p == Some(self@.pixels[y as int][x as int]),
            !on_grid(x as int, y as int) ==> p is None,
    {
        self.display.pixel(x, y)
    }

    /// Whether key `index` is down; `InvalidIndex` if there is no such key.
    pub fn is_key_down(&self, index: usize) -> (r: Result<bool, Fault>)
        ensures
            index < KEY_COUNT ==> r == Ok::<bool, Fault>(self@.keys[index as int]),
            index >= KEY_COUNT ==> r == Err::<bool, Fault>(Fault::InvalidIndex { index }),
    {
        self.input.is_down(index)
    }

    /// The byte of memory at `address`; `MemoryFault` outside memory.
    pub fn read_memory(&self, address: usize) -> (r: Result<u8, Fault>)
        ensures
            address < MEMORY_SIZE ==> r == Ok::<u8, Fault>(self@.memory[address as int]),
            address >= MEMORY_SIZE ==> r == Err::<u8, Fault>(Fault::MemoryFault { address }),
    {
        self.dm.read(address)
    }

    /// Writes `byte` into memory at `address`; `MemoryFault` outside memory,
    /// with nothing changed.
    pub fn write_memory(&mut self, address: usize, byte: u8) -> (r: Result<(), Fault>)
        requires
            old(self).wf(),
        ensures
            final(self).wf(),
            address < MEMORY_SIZE ==> r == Ok::<(), Fault>(()) && final(self)@ == (MachineState {
                memory: old(self)@.memory.update(address as int, byte),
                ..old(self)@
            }),
            address >= MEMORY_SIZE ==> r == Err::<(), Fault>(Fault::MemoryFault { address })
                && final(self)@ == old(self)@,
    {
        self.dm.write(address, byte)
    }

    /// Sets the delay timer.
    pub fn set_delay_timer(&mut self, value: u8)
        requires
            old(self).wf(),
        ensures
            final(self).wf(),
            final(self)@ == (MachineState { delay: value, ..old(self)@ }),
    {
        self.RDelayTimer = value;
    }

    /// Sets the sound timer.
    pub fn set_sound_timer(&mut self, value: u8)
        requires
            old(self).wf(),
        ensures
            final(self).wf(),
            final(self)@ == (MachineState { sound: value, ..old(self)@ }),
    {
        self.RSoundTimer = value;
    }
}

} // verus!
