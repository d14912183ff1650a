//! Control flow: jumps, subroutine calls and returns, and conditional skips.

use vstd::prelude::*;

use crate::entropy::EntropySource;
use crate::fault::Fault;
use crate::state::{ends_as, Chip8, EmulatorType, MachineState, STACK_SIZE};

verus! {

impl MachineState {
    /// The program counter becomes `nnn`.
    pub open spec fn jump(self, nnn: u16) -> MachineState {
        self.with_program_counter(nnn)
    }

    /// The program counter moves past one instruction: it grows by 2,
    /// modulo 65536.
    pub open spec fn skip_next(self) -> MachineState {
        self.with_program_counter(((self.program_counter + 2) % 0x10000) as u16)
    }

    /// The next instruction is skipped if `condition` holds; otherwise
    /// nothing changes.
    pub open spec fn skip_if(self, condition: bool) -> MachineState {
        if condition {
            self.skip_next()
        } else {
            self
        }
    }

    /// The program counter is pushed onto the stack and becomes `nnn`. With
    /// sixteen addresses on the stack already, the call overflows it.
    pub open spec fn call_subroutine(self, nnn: u16) -> Result<MachineState, Fault> {
        if self.stack_pointer >= STACK_SIZE {
            Err(Fault::StackOverflow)
        } else {
            Ok(
                MachineState {
                    stack: self.stack.update(self.stack_pointer as int, self.program_counter),
                    stack_pointer: (self.stack_pointer + 1) as u8,
                    program_counter: nnn,
                    ..self
                },
            )
        }
    }

    /// The address on top of the stack is popped into the program counter.
    /// With an empty stack the return underflows it; a stack pointer beyond
    /// sixteen, which no operation of the machine produces, is reported as
    /// an overflow.
    pub open spec fn return_from_subroutine(self) -> Result<MachineState, Fault> {
        if self.stack_pointer == 0 {
            Err(Fault::StackUnderflow)
        } else if self.stack_pointer > STACK_SIZE {
            Err(Fault::StackOverflow)
        } else {
            Ok(
                MachineState {
                    stack_pointer: (self.stack_pointer - 1) as u8,
                    program_counter: self.stack[self.stack_pointer - 1],
                    ..self
                },
            )
        }
    }

    /// The register whose value a jump with offset to `nnn` adds: V0 on the
    /// COSMAC-VIP, and on the CHIP-48 the register named by the highest of
    /// the three nibbles of `nnn`.
    pub open spec fn jump_offset_register(self, nnn: u16) -> u8 {
        match self.emulator_type {
            EmulatorType::CosmacVip => 0,
            EmulatorType::Chip48 => ((nnn / 0x100) % 0x10) as u8,
        }
    }

    /// The address to which a jump with offset adds: `nnn` on the COSMAC-VIP
    /// and the low twelve bits of `nnn` on the CHIP-48.
    pub open spec fn jump_base(self, nnn: u16) -> u16 {
        match self.emulator_type {
            EmulatorType::CosmacVip => nnn,
            EmulatorType::Chip48 => (nnn % 0x1000) as u16,
        }
    }

    /// The program counter becomes the jump base plus the value of the
    /// offset register, modulo 65536.
    pub open spec fn jump_with_offset(self, nnn: u16) -> MachineState {
        let offset = self.vx(self.jump_offset_register(nnn));
        self.with_program_counter(((self.jump_base(nnn) + offset) % 0x10000) as u16)
    }
}

impl<R: EntropySource> Chip8<R> {
    /// Sets the program counter to `nnn`.
    pub fn jump(&mut self, nnn: u16)
        ensures
            final(self)@ == old(self)@.jump(nnn),
            final(self).rng == old(self).rng,
            old(self).wf() ==> final(self).wf(),
    {
        self.program_counter = nnn;
    }

    /// Pushes the program counter onto the stack and jumps to `nnn`. Fails
    /// with `StackOverflow`, changing nothing, if the stack is full.
    pub fn call_subroutine(&mut self, nnn: u16) -> (result: Result<(), Fault>)
        ensures
            ends_as(old(self)@.call_subroutine(nnn), old(self)@, result, final(self)@),
            final(self).rng == old(self).rng,
            old(self).wf() ==> final(self).wf(),
    {
        if self.stack_pointer as usize >= STACK_SIZE {
            return Err(Fault::StackOverflow);
        }
        self.stack[self.stack_pointer as usize] = self.program_counter;
        self.stack_pointer += 1;
        self.program_counter = nnn;
        Ok(())
    }

    /// Pops an address from the stack into the program counter. Fails with
    /// `StackUnderflow`, changing nothing, if the stack is empty.
    pub fn return_from_subroutine(&mut self) -> (result: Result<(), Fault>)
        ensures
            ends_as(old(self)@.return_from_subroutine(), old(self)@, result, final(self)@),
            old(self).wf() ==> (result is Err <==> old(self).stack_pointer == 0),
            final(self).rng == old(self).rng,
            old(self).wf() ==> final(self).wf(),
    {
        if self.stack_pointer == 0 {
            return Err(Fault::StackUnderflow);
        }
        if self.stack_pointer as usize > STACK_SIZE {
            return Err(Fault::StackOverflow);
        }
        self.stack_pointer -= 1;
        let address: u16 = self.stack[self.stack_pointer as usize];
        self.program_counter = address;
        Ok(())
    }

    /// Skips the next instruction if Vx equals `nn`.
    pub fn skip_instruction_if_vx_equals_nn(&mut self, x: u8, nn: u8)
        requires
            x < 16,
        ensures
            final(self)@ == old(self)@.skip_if(old(self)@.vx(x) == nn),
            final(self).rng == old(self).rng,
            old(self).wf() ==> final(self).wf(),
    {
        if self.variable_registers[x as usize] == nn {
            self.program_counter = self.program_counter.wrapping_add(2);
        }
    }

    /// Skips the next instruction if Vx differs from `nn`.
    pub fn skip_instruction_if_vx_not_equals_nn(&mut self, x: u8, nn: u8)
        requires
            x < 16,
        ensures
            final(self)@ == old(self)@.skip_if(old(self)@.vx(x) != nn),
            final(self).rng == old(self).rng,
            old(self).wf() ==> final(self).wf(),
    {
        if self.variable_registers[x as usize] != nn {
            self.program_counter = self.program_counter.wrapping_add(2);
        }
    }

    /// Skips the next instruction if Vx equals Vy.
    pub fn skip_instruction_if_vx_equals_vy(&mut self, x: u8, y: u8)
        requires
            x < 16,
            y < 16,
        ensures
            final(self)@ == old(self)@.skip_if(old(self)@.vx(x) == old(self)@.vx(y)),
            final(self).rng == old(self).rng,
            old(self).wf() ==> final(self).wf(),
    {
        if self.variable_registers[x as usize] == self.variable_registers[y as usize] {
            self.program_counter = self.program_counter.wrapping_add(2);
        }
    }

    /// Skips the next instruction if Vx differs from Vy.
    pub fn skip_instruction_if_vx_not_equals_vy(&mut self, x: u8, y: u8)
        requires
            x < 16,
            y < 16,
        ensures
            final(self)@ == old(self)@.skip_if(old(self)@.vx(x) != old(self)@.vx(y)),
            final(self).rng == old(self).rng,
            old(self).wf() ==> final(self).wf(),
    {
        if self.variable_registers[x as usize] != self.variable_registers[y as usize] {
            self.program_counter = self.program_counter.wrapping_add(2);
        }
    }

    /// On the COSMAC-VIP jumps to `nnn` plus V0. On the CHIP-48 jumps to the
    /// low twelve bits of `nnn` plus Vx, where `x` is the highest of the
    /// three nibbles of `nnn`. The sum wraps at 65536.
    pub fn jump_with_offset(&mut self, nnn: u16)
        ensures
            final(self)@ == old(self)@.jump_with_offset(nnn),
            final(self).rng == old(self).rng,
            old(self).wf() ==> final(self).wf(),
    {
        assert((nnn & 0x0F00) >> 8 == (nnn / 0x100) % 0x10) by (bit_vector);
        assert(nnn & 0x0FFF == nnn % 0x1000) by (bit_vector);
        let (base, offset): (u16, u16) = match self.emulator_type {
            EmulatorType::CosmacVip => (nnn, self.variable_registers[0] as u16),
            EmulatorType::Chip48 => (
                nnn & 0x0FFF,
                self.variable_registers[((nnn & 0x0F00) >> 8) as usize] as u16,
            ),
        };

        self.jump(base.wrapping_add(offset));
    }
}

} // verus!
