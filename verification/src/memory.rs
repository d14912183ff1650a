//! Memory and the index register: loading a program, fetching instruction
//! words, and the instructions that move data between registers and memory.

use vstd::prelude::*;

use crate::entropy::EntropySource;
use crate::fault::Fault;
use crate::font::{glyph, glyph_address, FONT, FONT_START_ADDRESS};
use crate::opcode::OpCode;
use crate::state::{
    ends_as, Chip8, EmulatorType, MachineState, MEMORY_SIZE, PROGRAM_START_ADDRESS,
};

verus! {

/// The number of bytes that fit in memory from the load address on.
pub const MAX_PROGRAM_SIZE: usize = 3584;

/// The three decimal digits of a byte: hundreds, tens, ones.
pub open spec fn decimal_digits(value: u8) -> Seq<u8> {
    seq![(value / 100) as u8, ((value / 10) % 10) as u8, (value % 10) as u8]
}

impl MachineState {
    /// The index register becomes `nnn`.
    pub open spec fn set_index_register(self, nnn: u16) -> MachineState {
        self.with_index_register(nnn)
    }

    /// The index register grows by Vx, modulo 65536.
    pub open spec fn add_vx_to_index_register(self, x: u8) -> MachineState {
        self.with_index_register(((self.index_register + self.vx(x)) % 0x10000) as u16)
    }

    /// The index register becomes the address of the glyph for the low
    /// nibble of Vx.
    pub open spec fn point_index_register_at_font_character(self, x: u8) -> MachineState {
        self.with_index_register(glyph_address((self.vx(x) % 16) as int) as u16)
    }

    /// The memory with the bytes of `data` written from `start` on.
    pub open spec fn memory_with(self, start: int, data: Seq<u8>) -> Seq<u8> {
        Seq::new(
            self.memory.len(),
            |address: int|
                if start <= address < start + data.len() {
                    data[address - start]
                } else {
                    self.memory[address]
                },
        )
    }

    /// The hundreds, tens and ones of Vx are written to the three bytes at
    /// the index register. If they do not all lie in memory, that is a fault.
    pub open spec fn put_vx_decimal_digits_into_memory(self, x: u8) -> Result<
        MachineState,
        Fault,
    > {
        if self.index_register + 3 > MEMORY_SIZE {
            Err(Fault::AddressOutOfBounds)
        } else {
            Ok(
                MachineState {
                    memory: self.memory_with(
                        self.index_register as int,
                        decimal_digits(self.vx(x)),
                    ),
                    ..self
                },
            )
        }
    }

    /// The index register after `count` registers were stored or loaded: on
    /// the COSMAC-VIP it has advanced by `count`, on the CHIP-48 it has not
    /// moved.
    pub open spec fn index_after_transfer(self, count: int) -> u16 {
        match self.emulator_type {
            EmulatorType::CosmacVip => (self.index_register + count) as u16,
            EmulatorType::Chip48 => self.index_register,
        }
    }

    /// The machine after the first `count` registers were written to memory
    /// at the index register.
    pub open spec fn store_registers(self, count: int) -> MachineState {
        MachineState {
            memory: self.memory_with(self.index_register as int, self.registers.take(count)),
            index_register: self.index_after_transfer(count),
            ..self
        }
    }

    /// The machine after the first `count` registers were read from memory
    /// at the index register.
    pub open spec fn load_registers(self, count: int) -> MachineState {
        MachineState {
            registers: Seq::new(
                self.registers.len(),
                |i: int|
                    if i < count {
                        self.memory[self.index_register + i]
                    } else {
                        self.registers[i]
                    },
            ),
            index_register: self.index_after_transfer(count),
            ..self
        }
    }

    /// V0 to Vx, inclusive, are written to memory at the index register. If
    /// the `x + 1` bytes do not all lie in memory, that is a fault.
    pub open spec fn store_variable_registers_to_memory(self, x: u8) -> Result<
        MachineState,
        Fault,
    > {
        if self.index_register + x + 1 > MEMORY_SIZE {
            Err(Fault::AddressOutOfBounds)
        } else {
            Ok(self.store_registers(x + 1))
        }
    }

    /// V0 to Vx, inclusive, are read from memory at the index register. If
    /// the `x + 1` bytes do not all lie in memory, that is a fault.
    pub open spec fn load_variable_registers_from_memory(self, x: u8) -> Result<
        MachineState,
        Fault,
    > {
        if self.index_register + x + 1 > MEMORY_SIZE {
            Err(Fault::AddressOutOfBounds)
        } else {
            Ok(self.load_registers(x + 1))
        }
    }

    /// The program is copied into memory from the load address on. A
    /// program that does not fit between there and the end of memory is a
    /// fault.
    pub open spec fn load_program(self, program: Seq<u8>) -> Result<MachineState, Fault> {
        if program.len() > MAX_PROGRAM_SIZE {
            Err(Fault::AddressOutOfBounds)
        } else {
            Ok(
                MachineState {
                    memory: self.memory_with(PROGRAM_START_ADDRESS as int, program),
                    ..self
                },
            )
        }
    }

    /// The instruction word at the program counter: the byte there is its
    /// high byte and the byte after it its low byte. If the two bytes do not
    /// both lie in memory, that is a fault.
    pub open spec fn fetch_next_opcode(self) -> Result<OpCode, Fault> {
        if self.program_counter + 2 > MEMORY_SIZE {
            Err(Fault::AddressOutOfBounds)
        } else {
            Ok(
                OpCode {
                    opcode: (self.memory[self.program_counter as int] * 0x100
                        + self.memory[self.program_counter + 1]) as u16,
                },
            )
        }
    }
}

impl<R: EntropySource> Chip8<R> {
    /// Loads the program into memory starting at the load address, 0x200.
    /// Fails with `AddressOutOfBounds`, changing nothing, if the program is
    /// longer than the 3584 bytes between there and the end of memory.
    pub fn load_program(&mut self, program: &[u8]) -> (result: Result<(), Fault>)
        ensures
            ends_as(old(self)@.load_program(program@), old(self)@, result, final(self)@),
            final(self).rng == old(self).rng,
            old(self).wf() ==> final(self).wf(),
    {
        if program.len() > MAX_PROGRAM_SIZE {
            return Err(Fault::AddressOutOfBounds);
        }
        let start_address: usize = PROGRAM_START_ADDRESS as usize;
        let mut i: usize = 0;
        while i < program.len()
            invariant
                i <= program.len() <= MAX_PROGRAM_SIZE,
                start_address == PROGRAM_START_ADDRESS,
                self@ =~= (MachineState {
                    memory: old(self)@.memory_with(start_address as int, program@.take(i as int)),
                    ..old(self)@
                }),
                self.rng == old(self).rng,
            decreases program.len() - i,
        {
            self.ram[start_address + i] = program[i];
            i = i + 1;
        }
        assert(program@.take(i as int) =~= program@);
        Ok(())
    }

    /// Fetches the instruction word at the address held in the program
    /// counter. Fails with `AddressOutOfBounds` if the word does not lie in
    /// memory.
    pub fn fetch_next_opcode(&self) -> (result: Result<OpCode, Fault>)
        ensures
            result == self@.fetch_next_opcode(),
    {
        if self.program_counter as usize + 2 > MEMORY_SIZE {
            return Err(Fault::AddressOutOfBounds);
        }
        let high: u16 = self.ram[self.program_counter as usize] as u16;
        let low: u16 = self.ram[self.program_counter as usize + 1] as u16;
        assert(high << 8 | low == high * 0x100 + low) by (bit_vector)
            requires
                high < 0x100,
                low < 0x100,
        ;
        let opcode: u16 = high << 8 | low;

        Ok(OpCode::new(opcode))
    }

    /// Sets the index register to `nnn`.
    pub fn set_index_register(&mut self, nnn: u16)
        ensures
            final(self)@ == old(self)@.set_index_register(nnn),
            final(self).rng == old(self).rng,
            old(self).wf() ==> final(self).wf(),
    {
        self.index_register = nnn;
    }

    /// Adds Vx to the index register, wrapping at 65536.
    pub fn add_vx_to_index_register(&mut self, x: u8)
        requires
            x < 16,
        ensures
            final(self)@ == old(self)@.add_vx_to_index_register(x),
            final(self).rng == old(self).rng,
            old(self).wf() ==> final(self).wf(),
    {
        self.index_register = self.index_register.wrapping_add(
            self.variable_registers[x as usize] as u16,
        );
    }

    /// Sets the index register to the address of the glyph for the
    /// hexadecimal digit held in the low nibble of Vx. Where the font table
    /// stands in memory, the five bytes at that address are the glyph.
    pub fn point_index_register_at_font_character(&mut self, x: u8)
        requires
            x < 16,
        ensures
            final(self)@ == old(self)@.point_index_register_at_font_character(x),
            final(self).index_register == FONT_START_ADDRESS + (old(self)@.vx(x) % 16) * 5,
            old(self)@.has_font() ==> final(self)@.memory.subrange(
                final(self).index_register as int,
                final(self).index_register + 5,
            ) == glyph((old(self)@.vx(x) % 16) as int),
            final(self).rng == old(self).rng,
            old(self).wf() ==> final(self).wf(),
    {
        let vx: u8 = self.variable_registers[x as usize];
        assert(vx & 0x0F == vx % 16) by (bit_vector);
        let character_index: u8 = vx & 0x0F;
        let character_address: u16 = FONT_START_ADDRESS as u16 + (character_index as u16 * 5);

        self.index_register = character_address;
        proof {
            if old(self)@.has_font() {
                let digit = (vx % 16) as int;
                assert forall|k: int| 0 <= k < 5 implies self@.memory[character_address + k]
                    == #[trigger] glyph(digit)[k] by {
                    assert(self@.memory[FONT_START_ADDRESS + (5 * digit + k)] == FONT@[5
                        * digit + k]);
                }
            }
        }
    }

    /// Writes the hundreds, tens and ones of Vx to the three bytes of memory
    /// at the index register. Fails with `AddressOutOfBounds`, changing
    /// nothing, if the three bytes do not all lie in memory.
    pub fn put_vx_decimal_digits_into_memory(&mut self, x: u8) -> (result: Result<(), Fault>)
        requires
            x < 16,
        ensures
            ends_as(
                old(self)@.put_vx_decimal_digits_into_memory(x),
                old(self)@,
                result,
                final(self)@,
            ),
            final(self).rng == old(self).rng,
            old(self).wf() ==> final(self).wf(),
    {
        let start_address: usize = self.index_register as usize;
        if start_address + 3 > MEMORY_SIZE {
            return Err(Fault::AddressOutOfBounds);
        }
        let vx: u8 = self.variable_registers[x as usize];
        self.ram[start_address] = vx / 100;
        self.ram[start_address + 1] = (vx / 10) % 10;
        self.ram[start_address + 2] = vx % 10;
        assert(self@.memory =~= old(self)@.memory_with(start_address as int, decimal_digits(vx)));
        Ok(())
    }

    /// Stores V0 to Vx, inclusive, to memory starting at the address held in
    /// the index register. On the COSMAC-VIP the index register ends up
    /// `x + 1` higher; on the CHIP-48 it is left alone. Fails with
    /// `AddressOutOfBounds`, changing nothing, if the bytes do not all lie in
    /// memory.
    pub fn store_variable_registers_to_memory(&mut self, x: u8) -> (result: Result<(), Fault>)
        requires
            x < 16,
        ensures
            ends_as(
                old(self)@.store_variable_registers_to_memory(x),
                old(self)@,
                result,
                final(self)@,
            ),
            final(self).rng == old(self).rng,
            old(self).wf() ==> final(self).wf(),
    {
        let start_address: usize = self.index_register as usize;
        if start_address + x as usize + 1 > MEMORY_SIZE {
            return Err(Fault::AddressOutOfBounds);
        }
        let mut i: usize = 0;
        while i <= x as usize
            invariant
                x < 16,
                i <= x + 1,
                start_address == old(self).index_register,
                start_address + x + 1 <= MEMORY_SIZE,
                self@ =~= old(self)@.store_registers(i as int),
                self.rng == old(self).rng,
            decreases x + 1 - i,
        {
            self.ram[start_address + i] = self.variable_registers[i];

            if self.emulator_type == EmulatorType::CosmacVip {
                self.index_register += 1;
            }
            i = i + 1;
        }
        Ok(())
    }

    /// Loads V0 to Vx, inclusive, from memory starting at the address held
    /// in the index register. On the COSMAC-VIP the index register ends up
    /// `x + 1` higher; on the CHIP-48 it is left alone. Fails with
    /// `AddressOutOfBounds`, changing nothing, if the bytes do not all lie in
    /// memory.
    pub fn load_variable_registers_from_memory(&mut self, x: u8) -> (result: Result<(), Fault>)
        requires
            x < 16,
        ensures
            ends_as(
                old(self)@.load_variable_registers_from_memory(x),
                old(self)@,
                result,
                final(self)@,
            ),
            final(self).rng == old(self).rng,
            old(self).wf() ==> final(self).wf(),
    {
        let start_address: usize = self.index_register as usize;
        if start_address + x as usize + 1 > MEMORY_SIZE {
            return Err(Fault::AddressOutOfBounds);
        }
        let mut i: usize = 0;
        while i <= x as usize
            invariant
                x < 16,
                i <= x + 1,
                start_address == old(self).index_register,
                start_address + x + 1 <= MEMORY_SIZE,
                self@ =~= old(self)@.load_registers(i as int),
                self.rng == old(self).rng,
            decreases x + 1 - i,
        {
            self.variable_registers[i] = self.ram[start_address + i];

            if self.emulator_type == EmulatorType::CosmacVip {
                self.index_register += 1;
            }
            i = i + 1;
        }
        Ok(())
    }
}

} // verus!
