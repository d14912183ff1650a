//! A cycle-stepped CHIP-8 interpreter core.
//!
//! The machine is [`Chip8`]; its mathematical model is [`MachineState`], and
//! what each instruction does is a function on that model. Every operation
//! of the machine is proved to do to the machine what its function does to
//! the model.

pub mod control;
pub mod display;
pub mod entropy;
pub mod fault;
pub mod font;
pub mod input;
pub mod interpreter;
pub mod keypad;
pub mod laws;
pub mod memory;
pub mod opcode;
pub mod registers;
pub mod state;
pub mod timers;

pub use entropy::EntropySource;
pub use fault::Fault;
pub use font::{FONT, FONT_SIZE, FONT_START_ADDRESS};
pub use keypad::{Chip8Key, KeyState, NUM_KEYS};
pub use memory::MAX_PROGRAM_SIZE;
pub use opcode::{Instruction, OpCode};
pub use state::{
    Chip8, EmulatorType, MachineState, DISPLAY_HEIGHT, DISPLAY_WIDTH, FRAME_BUFFER_SIZE,
    MEMORY_SIZE, PROGRAM_START_ADDRESS, STACK_SIZE, VARIABLE_REGISTER_COUNT,
};
