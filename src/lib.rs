//! A CHIP-8 virtual machine: instruction decoder, CPU state machine, memory,
//! framebuffer, and the decisions of the paced execution scheduler.

pub mod cpu;
pub mod debug;
pub mod disasm;
pub mod display;
pub mod instructions;
pub mod laws;
pub mod memory;
pub mod scheduler;

pub use cpu::Cpu;
pub use debug::DebugCommand;
pub use disasm::{disassemble, DisassemblerArgs, Listing};
pub use display::Display;
pub use instructions::{Instruction, Register};
pub use memory::Memory;
pub use scheduler::{EmulatorCommand, EmulatorState, Scheduler, TickOutcome};
