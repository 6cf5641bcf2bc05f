//! An interpreter core for the CHIP-8 virtual machine.
//!
//! The crate models a complete machine: 4 KiB of memory with a sixteen-slot
//! call stack, sixteen 8-bit registers, a 64x32 monochrome display, a
//! sixteen-key keypad and two countdown timers. The executable code is proved
//! against a mathematical model of the machine, [`state::MachineState`], whose
//! transition functions say what each instruction does. One thing is taken on
//! trust: the byte that the random-byte instruction draws from the `rand`
//! crate, of which nothing is assumed.
#![allow(non_snake_case)]

pub mod clock;
pub mod cpu;
pub mod display;
pub mod engine;
pub mod fault;
pub mod font;
pub mod handlers;
pub mod input;
pub mod instruction;
pub mod laws;
pub mod memory;
pub mod state;

pub use clock::{Clock, TimerDriver};
pub use cpu::Cpu;
pub use display::Display;
pub use fault::Fault;
pub use input::Input;
pub use instruction::{Instruction, Operation};
pub use memory::DataMemory;
pub use state::{MachineState, Mode};
