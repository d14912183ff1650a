//! The instruction cycle: fetch, decode, advance, execute.

use vstd::prelude::*;

use crate::entropy::EntropySource;
use crate::fault::Fault;
use crate::opcode::{Instruction, OpCode};
use crate::state::{ends_as, Chip8, MachineState};

verus! {

impl MachineState {
    /// What an instruction does to the machine, given the byte that the
    /// entropy source yields. Only `Randomize` looks at the byte.
    pub open spec fn execute(self, instruction: Instruction, random_byte: u8) -> Result<
        MachineState,
        Fault,
    > {
        match instruction {
            Instruction::ClearScreen => Ok(self.clear_screen()),
            Instruction::ReturnFromSubroutine => self.return_from_subroutine(),
            Instruction::Jump { nnn } => Ok(self.jump(nnn)),
            Instruction::CallSubroutine { nnn } => self.call_subroutine(nnn),
            Instruction::SkipIfVxEqualsNn { x, nn } => Ok(self.skip_if(self.vx(x) == nn)),
            Instruction::SkipIfVxNotEqualsNn { x, nn } => Ok(self.skip_if(self.vx(x) != nn)),
            Instruction::SkipIfVxEqualsVy { x, y } => Ok(self.skip_if(self.vx(x) == self.vx(y))),
            Instruction::SetRegister { x, nn } => Ok(self.set_variable_register(x, nn)),
            Instruction::AddToRegister { x, nn } => Ok(self.add_to_variable_register(x, nn)),
            Instruction::SetVxToVy { x, y } => Ok(self.set_vx_to_vy(x, y)),
            Instruction::OrVxWithVy { x, y } => Ok(self.binary_or_vx_with_vy(x, y)),
            Instruction::AndVxWithVy { x, y } => Ok(self.binary_and_vx_with_vy(x, y)),
            Instruction::XorVxWithVy { x, y } => Ok(self.binary_xor_vx_with_vy(x, y)),
            Instruction::AddVyToVx { x, y } => Ok(self.add_vy_to_vx(x, y)),
            Instruction::SubtractVyFromVx { x, y } => Ok(self.subtract_vy_from_vx(x, y)),
            Instruction::ShiftRight { x, y } => Ok(self.shift_vx_right(x, y)),
            Instruction::SubtractVxFromVy { x, y } => Ok(self.subtract_vx_from_vy_into_vx(x, y)),
            Instruction::ShiftLeft { x, y } => Ok(self.shift_vx_left(x, y)),
            Instruction::SkipIfVxNotEqualsVy { x, y } => Ok(
                self.skip_if(self.vx(x) != self.vx(y)),
            ),
            Instruction::SetIndexRegister { nnn } => Ok(self.set_index_register(nnn)),
            Instruction::JumpWithOffset { nnn } => Ok(self.jump_with_offset(nnn)),
            Instruction::Randomize { x, nn } => Ok(self.randomize_vx(x, nn, random_byte)),
            Instruction::Draw { x, y, n } => self.draw(x, y, n),
            Instruction::SkipIfKeyDown { x } => self.skip_if_key_down(x),
            Instruction::SkipIfKeyUp { x } => self.skip_if_key_up(x),
            Instruction::SetVxToDelayTimer { x } => Ok(self.set_vx_to_delay_timer(x)),
            Instruction::WaitForKey { x } => Ok(self.put_key_into_vx(x)),
            Instruction::SetDelayTimer { x } => Ok(self.set_delay_timer_to_vx(x)),
            Instruction::SetSoundTimer { x } => Ok(self.set_sound_timer_to_vx(x)),
            Instruction::AddVxToIndex { x } => Ok(self.add_vx_to_index_register(x)),
            Instruction::PointIndexAtFontCharacter { x } => Ok(
                self.point_index_register_at_font_character(x),
            ),
            Instruction::StoreDecimalDigits { x } => self.put_vx_decimal_digits_into_memory(x),
            Instruction::StoreRegisters { x } => self.store_variable_registers_to_memory(x),
            Instruction::LoadRegisters { x } => self.load_variable_registers_from_memory(x),
        }
    }

    /// The instruction at the program counter. A word that does not lie in
    /// memory is an out-of-bounds fault; a word that encodes no instruction
    /// is an invalid-instruction fault that carries the word.
    pub open spec fn fetch_instruction(self) -> Result<Instruction, Fault> {
        match self.fetch_next_opcode() {
            Err(fault) => Err(fault),
            Ok(opcode) => match opcode.spec_decode() {
                None => Err(Fault::InvalidInstruction(opcode.opcode)),
                Some(instruction) => Ok(instruction),
            },
        }
    }

    /// Whether the instruction at the program counter is the one that
    /// consults the entropy source.
    pub open spec fn draws_entropy(self) -> bool {
        self.fetch_instruction() matches Ok(Instruction::Randomize { .. })
    }

    /// One cycle of the machine, given the byte that the entropy source
    /// yields: the instruction at the program counter is fetched and
    /// decoded, the program counter moves past it, and then the instruction
    /// is executed. Jumps and skips therefore start from the address of the
    /// instruction that follows.
    pub open spec fn step(self, random_byte: u8) -> Result<MachineState, Fault> {
        match self.fetch_instruction() {
            Err(fault) => Err(fault),
            Ok(instruction) => self.skip_next().execute(instruction, random_byte),
        }
    }
}

impl<R: EntropySource> Chip8<R> {
    /// Executes one instruction, with `random_byte` standing for the byte
    /// that the entropy source yields; the source itself is not consulted.
    /// The program counter is not advanced first. On a fault nothing has
    /// changed.
    pub fn execute_instruction(&mut self, instruction: Instruction, random_byte: u8) -> (result:
        Result<(), Fault>)
        requires
            instruction.wf(),
        ensures
            ends_as(
                old(self)@.execute(instruction, random_byte),
                old(self)@,
                result,
                final(self)@,
            ),
            final(self).rng == old(self).rng,
            old(self).wf() ==> final(self).wf(),
    {
        match instruction {
            Instruction::ClearScreen => {
                self.clear_screen();
                Ok(())
            },
            Instruction::ReturnFromSubroutine => self.return_from_subroutine(),
            Instruction::Jump { nnn } => {
                self.jump(nnn);
                Ok(())
            },
            Instruction::CallSubroutine { nnn } => self.call_subroutine(nnn),
            Instruction::SkipIfVxEqualsNn { x, nn } => {
                self.skip_instruction_if_vx_equals_nn(x, nn);
                Ok(())
            },
            Instruction::SkipIfVxNotEqualsNn { x, nn } => {
                self.skip_instruction_if_vx_not_equals_nn(x, nn);
                Ok(())
            },
            Instruction::SkipIfVxEqualsVy { x, y } => {
                self.skip_instruction_if_vx_equals_vy(x, y);
                Ok(())
            },
            Instruction::SetRegister { x, nn } => {
                self.set_variable_register(x, nn);
                Ok(())
            },
            Instruction::AddToRegister { x, nn } => {
                self.add_to_variable_register(x, nn);
                Ok(())
            },
            Instruction::SetVxToVy { x, y } => {
                self.set_vx_to_vy(x, y);
                Ok(())
            },
            Instruction::OrVxWithVy { x, y } => {
                self.binary_or_vx_with_vy(x, y);
                Ok(())
            },
            Instruction::AndVxWithVy { x, y } => {
                self.binary_and_vx_with_vy(x, y);
                Ok(())
            },
            Instruction::XorVxWithVy { x, y } => {
                self.binary_xor_vx_with_vy(x, y);
                Ok(())
            },
            Instruction::AddVyToVx { x, y } => {
                self.add_vy_to_vx(x, y);
                Ok(())
            },
            Instruction::SubtractVyFromVx { x, y } => {
                self.subtract_vy_from_vx(x, y);
                Ok(())
            },
            Instruction::ShiftRight { x, y } => {
                self.shift_vx_right(x, y);
                Ok(())
            },
            Instruction::SubtractVxFromVy { x, y } => {
                self.subtract_vx_from_vy_into_vx(x, y);
                Ok(())
            },
            Instruction::ShiftLeft { x, y } => {
                self.shift_vx_left(x, y);
                Ok(())
            },
            Instruction::SkipIfVxNotEqualsVy { x, y } => {
                self.skip_instruction_if_vx_not_equals_vy(x, y);
                Ok(())
            },
            Instruction::SetIndexRegister { nnn } => {
                self.set_index_register(nnn);
                Ok(())
            },
            Instruction::JumpWithOffset { nnn } => {
                self.jump_with_offset(nnn);
                Ok(())
            },
            Instruction::Randomize { x, nn } => {
                self.put_masked_byte_into_vx(x, nn, random_byte);
                Ok(())
            },
            Instruction::Draw { x, y, n } => self.draw(x, y, n),
            Instruction::SkipIfKeyDown { x } => self.skip_if_key_down(x),
            Instruction::SkipIfKeyUp { x } => self.skip_if_key_up(x),
            Instruction::SetVxToDelayTimer { x } => {
                self.set_vx_to_delay_timer(x);
                Ok(())
            },
            Instruction::WaitForKey { x } => {
                self.put_key_into_vx(x);
                Ok(())
            },
            Instruction::SetDelayTimer { x } => {
                self.set_delay_timer_to_vx(x);
                Ok(())
            },
            Instruction::SetSoundTimer { x } => {
                self.set_sound_timer_to_vx(x);
                Ok(())
            },
            Instruction::AddVxToIndex { x } => {
                self.add_vx_to_index_register(x);
                Ok(())
            },
            Instruction::PointIndexAtFontCharacter { x } => {
                self.point_index_register_at_font_character(x);
                Ok(())
            },
            Instruction::StoreDecimalDigits { x } => self.put_vx_decimal_digits_into_memory(x),
            Instruction::StoreRegisters { x } => self.store_variable_registers_to_memory(x),
            Instruction::LoadRegisters { x } => self.load_variable_registers_from_memory(x),
        }
    }

    /// Fetches and decodes the instruction at the program counter, without
    /// changing anything.
    pub fn fetch_instruction(&self) -> (result: Result<Instruction, Fault>)
        ensures
            result == self@.fetch_instruction(),
            result matches Ok(instruction) ==> instruction.wf(),
    {
        let opcode: OpCode = match self.fetch_next_opcode() {
            Ok(opcode) => opcode,
            Err(fault) => {
                return Err(fault);
            },
        };
        match opcode.decode() {
            Some(instruction) => Ok(instruction),
            None => Err(Fault::InvalidInstruction(opcode.opcode)),
        }
    }

    /// Runs one cycle with `random_byte` standing for the byte that the
    /// entropy source yields; the source itself is not consulted. The
    /// instruction at the program counter is fetched and decoded, the
    /// program counter is advanced by 2, and the instruction is executed. On
    /// a fault nothing has changed, the program counter included.
    pub fn execute_next_instruction_with(&mut self, random_byte: u8) -> (result: Result<
        (),
        Fault,
    >)
        ensures
            ends_as(old(self)@.step(random_byte), old(self)@, result, final(self)@),
            final(self).rng == old(self).rng,
            old(self).wf() ==> final(self).wf(),
    {
        let instruction: Instruction = match self.fetch_instruction() {
            Ok(instruction) => instruction,
            Err(fault) => {
                return Err(fault);
            },
        };
        let instruction_address: u16 = self.program_counter;
        self.program_counter = instruction_address + 2;

        let result = self.execute_instruction(instruction, random_byte);
        if result.is_err() {
            self.program_counter = instruction_address;
        }
        result
    }

    /// Executes the instruction at the address held in the program counter,
    /// having advanced the program counter past it, so that the next call
    /// executes the next instruction. The entropy source is consulted if and
    /// only if the instruction is the randomizing one; whether the cycle
    /// faults does not depend on the byte it yields. On a fault nothing has
    /// changed.
    pub fn execute_next_instruction(&mut self) -> (result: Result<(), Fault>)
        ensures
            exists|random_byte: u8|
                ends_as(old(self)@.step(random_byte), old(self)@, result, final(self)@),
            result is Ok <==> old(self)@.step(0) is Ok,
            result matches Err(fault) ==> old(self)@.step(0) == Err::<MachineState, Fault>(fault)
                && final(self)@ == old(self)@ && final(self).rng == old(self).rng,
            !old(self)@.draws_entropy() ==> final(self).rng == old(self).rng && forall|
                random_byte: u8,
            |
                ends_as(old(self)@.step(random_byte), old(self)@, result, final(self)@),
            old(self).wf() ==> final(self).wf(),
    {
        let random_byte: u8 = match self.fetch_instruction() {
            Ok(Instruction::Randomize { .. }) => self.rng.next_byte(),
            _ => 0,
        };
        self.execute_next_instruction_with(random_byte)
    }
}

} // verus!
