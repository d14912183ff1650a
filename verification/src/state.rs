//! The machine and its mathematical model.

use vstd::prelude::*;

use crate::entropy::EntropySource;
use crate::fault::Fault;
use crate::font::{FONT, FONT_SIZE, FONT_START_ADDRESS};
use crate::keypad::{KeyState, NUM_KEYS};

verus! {

/// The frame buffer's width in pixels.
pub const DISPLAY_WIDTH: usize = 64;

/// The frame buffer's height in pixels.
pub const DISPLAY_HEIGHT: usize = 32;

/// The number of pixels in the frame buffer.
pub const FRAME_BUFFER_SIZE: usize = 2048;

/// The address at which programs are loaded and at which execution starts.
pub const PROGRAM_START_ADDRESS: u16 = 0x200;

/// The number of bytes of memory.
pub const MEMORY_SIZE: usize = 4096;

/// The number of return addresses the stack can hold.
pub const STACK_SIZE: usize = 16;

/// The number of variable registers.
pub const VARIABLE_REGISTER_COUNT: usize = 16;

/// The index of the flag register, VF.
pub const FLAG_REGISTER: usize = 0xF;

/// Selects which of the two historical interpreters the machine follows
/// where they disagree.
#[derive(Debug, PartialEq, Eq, Clone, Copy, Structural)]
pub enum EmulatorType {
    /// Interpret instructions as the COSMAC-VIP would.
    CosmacVip,
    /// Interpret instructions as the CHIP-48 would.
    Chip48,
}

/// The mathematical model of a machine: everything an instruction can read
/// or change, without the entropy source.
#[verifier::ext_equal]
pub struct MachineState {
    /// The 4096 bytes of memory.
    pub memory: Seq<u8>,
    /// The 64×32 pixels, row by row; pixel (x, y) is at index y·64 + x.
    pub frame_buffer: Seq<u8>,
    /// The sixteen slots for return addresses.
    pub stack: Seq<u16>,
    /// The number of return addresses on the stack.
    pub stack_pointer: u8,
    /// The delay timer.
    pub delay_timer: u8,
    /// The sound timer.
    pub sound_timer: u8,
    /// The address of the next instruction.
    pub program_counter: u16,
    /// The index register.
    pub index_register: u16,
    /// The sixteen variable registers, V0 to VF.
    pub registers: Seq<u8>,
    /// The interpreter whose quirks are followed.
    pub emulator_type: EmulatorType,
    /// The keys as they are now.
    pub keypad: Seq<KeyState>,
    /// The keys as they were when the machine last waited for a key.
    pub previous_keypad: Seq<KeyState>,
}

impl MachineState {
    /// The containers have their fixed sizes, the stack pointer is at most
    /// sixteen, and every pixel is 0 or 1.
    pub open spec fn wf(self) -> bool {
        &&& self.memory.len() == MEMORY_SIZE
        &&& self.frame_buffer.len() == FRAME_BUFFER_SIZE
        &&& self.stack.len() == STACK_SIZE
        &&& self.registers.len() == VARIABLE_REGISTER_COUNT
        &&& self.keypad.len() == NUM_KEYS
        &&& self.previous_keypad.len() == NUM_KEYS
        &&& self.stack_pointer <= STACK_SIZE
        &&& forall|i: int| 0 <= i < FRAME_BUFFER_SIZE ==> #[trigger] self.frame_buffer[i] <= 1
    }

    /// The value of register `x`.
    pub open spec fn vx(self, x: u8) -> u8 {
        self.registers[x as int]
    }

    /// The value of the flag register.
    pub open spec fn vf(self) -> u8 {
        self.registers[FLAG_REGISTER as int]
    }

    /// The same machine with register `x` holding `value`.
    pub open spec fn with_register(self, x: u8, value: u8) -> MachineState {
        MachineState { registers: self.registers.update(x as int, value), ..self }
    }

    /// The same machine with the flag register holding `value`.
    pub open spec fn with_flag(self, value: u8) -> MachineState {
        MachineState { registers: self.registers.update(FLAG_REGISTER as int, value), ..self }
    }

    /// The same machine with the program counter at `address`.
    pub open spec fn with_program_counter(self, address: u16) -> MachineState {
        MachineState { program_counter: address, ..self }
    }

    /// The same machine with the index register at `address`.
    pub open spec fn with_index_register(self, address: u16) -> MachineState {
        MachineState { index_register: address, ..self }
    }

    /// Whether the font table stands at its place in memory.
    pub open spec fn has_font(self) -> bool {
        forall|i: int|
            0 <= i < FONT_SIZE ==> #[trigger] self.memory[FONT_START_ADDRESS + i] == FONT@[i]
    }

    /// The machine as it is when it is built: memory zeroed but for the font
    /// table, program counter at the load address, everything else zero and
    /// every key up.
    pub open spec fn initial(emulator_type: EmulatorType) -> MachineState {
        MachineState {
            memory: Seq::new(
                MEMORY_SIZE as nat,
                |i: int|
                    if FONT_START_ADDRESS <= i < FONT_START_ADDRESS + FONT_SIZE {
                        FONT@[i - FONT_START_ADDRESS]
                    } else {
                        0u8
                    },
            ),
            frame_buffer: Seq::new(FRAME_BUFFER_SIZE as nat, |i: int| 0u8),
            stack: Seq::new(STACK_SIZE as nat, |i: int| 0u16),
            stack_pointer: 0,
            delay_timer: 0,
            sound_timer: 0,
            program_counter: PROGRAM_START_ADDRESS,
            index_register: 0,
            registers: Seq::new(VARIABLE_REGISTER_COUNT as nat, |i: int| 0u8),
            emulator_type,
            keypad: Seq::new(NUM_KEYS as nat, |i: int| KeyState::Up),
            previous_keypad: Seq::new(NUM_KEYS as nat, |i: int| KeyState::Up),
        }
    }
}

/// How an operation that may fault has to end. Where the model says the
/// operation succeeds, `result` is `Ok` and the machine `after` is the one
/// the model gives; where the model says it faults, `result` is that fault
/// and the machine is as it was `before`.
pub open spec fn ends_as(
    expected: Result<MachineState, Fault>,
    before: MachineState,
    result: Result<(), Fault>,
    after: MachineState,
) -> bool {
    match expected {
        Ok(state) => result is Ok && after == state,
        Err(fault) => result == Err::<(), Fault>(fault) && after == before,
    }
}

/// A CHIP-8 interpreter.
#[derive(Debug)]
pub struct Chip8<R: EntropySource> {
    /// The bytes of memory.
    pub ram: [u8; MEMORY_SIZE],
    /// The frame buffer: one byte per pixel, 0 or 1, row by row.
    pub frame_buffer: [u8; FRAME_BUFFER_SIZE],
    /// The stack of return addresses.
    pub stack: [u16; STACK_SIZE],
    /// The number of return addresses on the stack.
    pub stack_pointer: u8,
    /// The delay timer register.
    pub delay_timer: u8,
    /// The sound timer register.
    pub sound_timer: u8,
    /// The program counter.
    pub program_counter: u16,
    /// The index register.
    pub index_register: u16,
    /// The variable registers V0 to VF.
    pub variable_registers: [u8; VARIABLE_REGISTER_COUNT],
    /// The interpreter whose quirks are followed.
    pub emulator_type: EmulatorType,
    /// The source of random bytes for the randomizing instruction.
    pub rng: R,
    /// The current state of the keypad.
    pub keypad_state: [KeyState; NUM_KEYS],
    /// The state of the keypad when the machine last waited for a key.
    pub previous_keypad_state: [KeyState; NUM_KEYS],
}

impl<R: EntropySource> View for Chip8<R> {
    type V = MachineState;

    open spec fn view(&self) -> MachineState {
        MachineState {
            memory: self.ram@,
            frame_buffer: self.frame_buffer@,
            stack: self.stack@,
            stack_pointer: self.stack_pointer,
            delay_timer: self.delay_timer,
            sound_timer: self.sound_timer,
            program_counter: self.program_counter,
            index_register: self.index_register,
            registers: self.variable_registers@,
            emulator_type: self.emulator_type,
            keypad: self.keypad_state@,
            previous_keypad: self.previous_keypad_state@,
        }
    }
}

impl<R: EntropySource> Chip8<R> {
    /// The machine is well formed when its model is.
    pub open spec fn wf(&self) -> bool {
        self@.wf()
    }

    /// Creates a machine with the font loaded, everything else zeroed and
    /// the program counter at the load address.
    pub fn new(emulator_type: EmulatorType, rng: R) -> (chip8: Self)
        ensures
            chip8@ == MachineState::initial(emulator_type),
            chip8.rng == rng,
            chip8.wf(),
            chip8@.has_font(),
    {
        let mut chip8 = Self {
            ram: [0; 4096],
            frame_buffer: [0; 2048],
            stack: [0; 16],
            stack_pointer: 0,
            delay_timer: 0,
            sound_timer: 0,
            program_counter: PROGRAM_START_ADDRESS,
            index_register: 0,
            variable_registers: [0; 16],
            emulator_type,
            rng,
            keypad_state: [KeyState::Up; 16],
            previous_keypad_state: [KeyState::Up; 16],
        };
        let mut i: usize = 0;
        while i < FONT_SIZE
            invariant
                i <= FONT_SIZE,
                forall|j: int|
                    0 <= j < MEMORY_SIZE ==> #[trigger] chip8.ram@[j] == if FONT_START_ADDRESS <= j
                        < FONT_START_ADDRESS + i {
                        FONT@[j - FONT_START_ADDRESS]
                    } else {
                        0u8
                    },
                chip8.frame_buffer@ =~= Seq::new(FRAME_BUFFER_SIZE as nat, |i: int| 0u8),
                chip8.stack@ =~= Seq::new(STACK_SIZE as nat, |i: int| 0u16),
                chip8.variable_registers@ =~= Seq::new(VARIABLE_REGISTER_COUNT as nat, |i: int| 0u8),
                chip8.keypad_state@ =~= Seq::new(NUM_KEYS as nat, |i: int| KeyState::Up),
                chip8.previous_keypad_state@ =~= Seq::new(NUM_KEYS as nat, |i: int| KeyState::Up),
                chip8.stack_pointer == 0,
                chip8.delay_timer == 0,
                chip8.sound_timer == 0,
                chip8.program_counter == PROGRAM_START_ADDRESS,
                chip8.index_register == 0,
                chip8.emulator_type == emulator_type,
                chip8.rng == rng,
            decreases FONT_SIZE - i,
        {
            chip8.ram[FONT_START_ADDRESS + i] = FONT[i];
            i = i + 1;
        }
        chip8
    }
}

} // verus!
