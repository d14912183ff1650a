//! Arithmetic, logic and shifts on the variable registers, with the two
//! platforms' shift behaviour, and the randomizing instruction.

use vstd::prelude::*;

use crate::entropy::EntropySource;
use crate::state::{Chip8, EmulatorType, MachineState};

verus! {

impl MachineState {
    /// Vx becomes `nn`.
    pub open spec fn set_variable_register(self, x: u8, nn: u8) -> MachineState {
        self.with_register(x, nn)
    }

    /// Vx becomes Vx + `nn` modulo 256. The flag register is not touched.
    pub open spec fn add_to_variable_register(self, x: u8, nn: u8) -> MachineState {
        self.with_register(x, ((self.vx(x) + nn) % 256) as u8)
    }

    /// Vx becomes Vy.
    pub open spec fn set_vx_to_vy(self, x: u8, y: u8) -> MachineState {
        self.with_register(x, self.vx(y))
    }

    /// Vx becomes the bitwise OR of Vx and Vy.
    pub open spec fn binary_or_vx_with_vy(self, x: u8, y: u8) -> MachineState {
        self.with_register(x, self.vx(x) | self.vx(y))
    }

    /// Vx becomes the bitwise AND of Vx and Vy.
    pub open spec fn binary_and_vx_with_vy(self, x: u8, y: u8) -> MachineState {
        self.with_register(x, self.vx(x) & self.vx(y))
    }

    /// Vx becomes the bitwise XOR of Vx and Vy.
    pub open spec fn binary_xor_vx_with_vy(self, x: u8, y: u8) -> MachineState {
        self.with_register(x, self.vx(x) ^ self.vx(y))
    }

    /// VF becomes 1 if Vx + Vy exceeds 255 and 0 otherwise; then Vx becomes
    /// the sum modulo 256. Where `x` names the flag register the sum is what
    /// it holds in the end.
    pub open spec fn add_vy_to_vx(self, x: u8, y: u8) -> MachineState {
        let sum = self.vx(x) + self.vx(y);
        self.with_flag(if sum > 255 { 1 } else { 0 }).with_register(x, (sum % 256) as u8)
    }

    /// VF becomes 0 if Vx is less than Vy (a borrow) and 1 otherwise; then
    /// Vx becomes Vx − Vy modulo 256. Where `x` names the flag register the
    /// difference is what it holds in the end.
    pub open spec fn subtract_vy_from_vx(self, x: u8, y: u8) -> MachineState {
        let difference = self.vx(x) - self.vx(y);
        self.with_flag(if difference < 0 { 0 } else { 1 }).with_register(
            x,
            (difference % 256) as u8,
        )
    }

    /// VF becomes 0 if Vy is less than Vx (a borrow) and 1 otherwise; then
    /// Vx becomes Vy − Vx modulo 256. Where `x` names the flag register the
    /// difference is what it holds in the end.
    pub open spec fn subtract_vx_from_vy_into_vx(self, x: u8, y: u8) -> MachineState {
        let difference = self.vx(y) - self.vx(x);
        self.with_flag(if difference < 0 { 0 } else { 1 }).with_register(
            x,
            (difference % 256) as u8,
        )
    }

    /// The value that a shift instruction shifts: Vy on the COSMAC-VIP, Vx on
    /// the CHIP-48.
    pub open spec fn shift_source(self, x: u8, y: u8) -> u8 {
        match self.emulator_type {
            EmulatorType::CosmacVip => self.vx(y),
            EmulatorType::Chip48 => self.vx(x),
        }
    }

    /// Vx takes the shift source, VF its lowest bit, and Vx is then halved.
    /// The three writes happen in this order, so where `x` names the flag
    /// register it is the bit that is halved, which leaves 0.
    pub open spec fn shift_vx_right(self, x: u8, y: u8) -> MachineState {
        let source = self.shift_source(x, y);
        let flagged = self.with_register(x, source).with_flag(source % 2);
        flagged.with_register(x, flagged.vx(x) / 2)
    }

    /// Vx takes the shift source, VF its highest bit, and Vx is then doubled
    /// modulo 256. The three writes happen in this order, so where `x` names
    /// the flag register it is the bit that is doubled.
    pub open spec fn shift_vx_left(self, x: u8, y: u8) -> MachineState {
        let source = self.shift_source(x, y);
        let flagged = self.with_register(x, source).with_flag(source / 128);
        flagged.with_register(x, ((flagged.vx(x) * 2) % 256) as u8)
    }

    /// Vx becomes `byte` AND `nn`, for the random byte `byte`.
    pub open spec fn randomize_vx(self, x: u8, nn: u8, byte: u8) -> MachineState {
        self.with_register(x, byte & nn)
    }
}

impl<R: EntropySource> Chip8<R> {
    /// Sets the variable register at index `x` to `nn`.
    pub fn set_variable_register(&mut self, x: u8, nn: u8)
        requires
            x < 16,
        ensures
            final(self)@ == old(self)@.set_variable_register(x, nn),
            final(self).rng == old(self).rng,
            old(self).wf() ==> final(self).wf(),
    {
        self.variable_registers[x as usize] = nn;
    }

    /// Adds `nn` to the variable register at index `x`, wrapping at 256.
    pub fn add_to_variable_register(&mut self, x: u8, nn: u8)
        requires
            x < 16,
        ensures
            final(self)@ == old(self)@.add_to_variable_register(x, nn),
            final(self)@.vx(x) == (old(self)@.vx(x) + nn) % 256,
            final(self).rng == old(self).rng,
            old(self).wf() ==> final(self).wf(),
    {
        self.variable_registers[x as usize] = self.variable_registers[x as usize].wrapping_add(nn);
    }

    /// Sets Vx to the value of Vy.
    pub fn set_vx_to_vy(&mut self, x: u8, y: u8)
        requires
            x < 16,
            y < 16,
        ensures
            final(self)@ == old(self)@.set_vx_to_vy(x, y),
            final(self).rng == old(self).rng,
            old(self).wf() ==> final(self).wf(),
    {
        self.variable_registers[x as usize] = self.variable_registers[y as usize];
    }

    /// Sets Vx to the bitwise OR of Vx and Vy.
    pub fn binary_or_vx_with_vy(&mut self, x: u8, y: u8)
        requires
            x < 16,
            y < 16,
        ensures
            final(self)@ == old(self)@.binary_or_vx_with_vy(x, y),
            final(self).rng == old(self).rng,
            old(self).wf() ==> final(self).wf(),
    {
        self.variable_registers[x as usize] = self.variable_registers[x as usize]
            | self.variable_registers[y as usize];
    }

    /// Sets Vx to the bitwise AND of Vx and Vy.
    pub fn binary_and_vx_with_vy(&mut self, x: u8, y: u8)
        requires
            x < 16,
            y < 16,
        ensures
            final(self)@ == old(self)@.binary_and_vx_with_vy(x, y),
            final(self).rng == old(self).rng,
            old(self).wf() ==> final(self).wf(),
    {
        self.variable_registers[x as usize] = self.variable_registers[x as usize]
            & self.variable_registers[y as usize];
    }

    /// Sets Vx to the bitwise XOR of Vx and Vy.
    pub fn binary_xor_vx_with_vy(&mut self, x: u8, y: u8)
        requires
            x < 16,
            y < 16,
        ensures
            final(self)@ == old(self)@.binary_xor_vx_with_vy(x, y),
            final(self).rng == old(self).rng,
            old(self).wf() ==> final(self).wf(),
    {
        self.variable_registers[x as usize] = self.variable_registers[x as usize]
            ^ self.variable_registers[y as usize];
    }

    /// Adds Vy to Vx, wrapping at 256. VF is set to 1 if the sum exceeds 255
    /// and to 0 otherwise, before the sum is written.
    pub fn add_vy_to_vx(&mut self, x: u8, y: u8)
        requires
            x < 16,
            y < 16,
        ensures
            final(self)@ == old(self)@.add_vy_to_vx(x, y),
            final(self)@.vx(x) == (old(self)@.vx(x) + old(self)@.vx(y)) % 256,
            x != 0xF ==> (final(self)@.vf() == 1 <==> old(self)@.vx(x) + old(self)@.vx(y) > 255),
            x != 0xF ==> (final(self)@.vf() == 0 <==> old(self)@.vx(x) + old(self)@.vx(y) <= 255),
            final(self).rng == old(self).rng,
            old(self).wf() ==> final(self).wf(),
    {
        let x_val: u8 = self.variable_registers[x as usize];
        let y_val: u8 = self.variable_registers[y as usize];

        if x_val > 0xFF - y_val {
            self.variable_registers[0xF] = 1;
        } else {
            self.variable_registers[0xF] = 0;
        }

        self.variable_registers[x as usize] = x_val.wrapping_add(y_val);
    }

    /// Subtracts Vy from Vx, wrapping at 256. VF is set to 0 if Vx is less
    /// than Vy and to 1 otherwise, before the difference is written.
    pub fn subtract_vy_from_vx(&mut self, x: u8, y: u8)
        requires
            x < 16,
            y < 16,
        ensures
            final(self)@ == old(self)@.subtract_vy_from_vx(x, y),
            final(self)@.vx(x) == (old(self)@.vx(x) - old(self)@.vx(y)) % 256,
            x != 0xF ==> (final(self)@.vf() == 0 <==> old(self)@.vx(x) < old(self)@.vx(y)),
            x != 0xF ==> (final(self)@.vf() == 1 <==> old(self)@.vx(x) >= old(self)@.vx(y)),
            final(self).rng == old(self).rng,
            old(self).wf() ==> final(self).wf(),
    {
        let x_val: u8 = self.variable_registers[x as usize];
        let y_val: u8 = self.variable_registers[y as usize];

        if x_val < y_val {
            self.variable_registers[0xF] = 0;
        } else {
            self.variable_registers[0xF] = 1;
        }

        self.variable_registers[x as usize] = x_val.wrapping_sub(y_val);
    }

    /// Subtracts Vx from Vy and puts the difference, wrapping at 256, into
    /// Vx. VF is set to 0 if Vy is less than Vx and to 1 otherwise, before
    /// the difference is written.
    pub fn subtract_vx_from_vy_into_vx(&mut self, x: u8, y: u8)
        requires
            x < 16,
            y < 16,
        ensures
            final(self)@ == old(self)@.subtract_vx_from_vy_into_vx(x, y),
            final(self)@.vx(x) == (old(self)@.vx(y) - old(self)@.vx(x)) % 256,
            x != 0xF ==> (final(self)@.vf() == 0 <==> old(self)@.vx(y) < old(self)@.vx(x)),
            x != 0xF ==> (final(self)@.vf() == 1 <==> old(self)@.vx(y) >= old(self)@.vx(x)),
            final(self).rng == old(self).rng,
            old(self).wf() ==> final(self).wf(),
    {
        let x_val: u8 = self.variable_registers[x as usize];
        let y_val: u8 = self.variable_registers[y as usize];

        if y_val < x_val {
            self.variable_registers[0xF] = 0;
        } else {
            self.variable_registers[0xF] = 1;
        }

        self.variable_registers[x as usize] = y_val.wrapping_sub(x_val);
    }

    /// On the COSMAC-VIP sets Vx to Vy first; then shifts Vx right by one
    /// bit. VF receives the bit shifted out.
    pub fn shift_vx_right(&mut self, x: u8, y: u8)
        requires
            x < 16,
            y < 16,
        ensures
            final(self)@ == old(self)@.shift_vx_right(x, y),
            x != 0xF ==> final(self)@.vx(x) == old(self)@.shift_source(x, y) / 2,
            x != 0xF ==> final(self)@.vf() == old(self)@.shift_source(x, y) % 2,
            final(self).rng == old(self).rng,
            old(self).wf() ==> final(self).wf(),
    {
        if self.emulator_type == EmulatorType::CosmacVip {
            self.variable_registers[x as usize] = self.variable_registers[y as usize];
        }
        let source: u8 = self.variable_registers[x as usize];
        assert(source & 0x01 == source % 2) by (bit_vector);
        self.variable_registers[0xF] = source & 0x01;

        let flagged: u8 = self.variable_registers[x as usize];
        assert(flagged >> 1 == flagged / 2) by (bit_vector);
        self.variable_registers[x as usize] = flagged >> 1;
    }

    /// On the COSMAC-VIP sets Vx to Vy first; then shifts Vx left by one
    /// bit. VF receives the bit shifted out.
    pub fn shift_vx_left(&mut self, x: u8, y: u8)
        requires
            x < 16,
            y < 16,
        ensures
            final(self)@ == old(self)@.shift_vx_left(x, y),
            x != 0xF ==> final(self)@.vx(x) == (old(self)@.shift_source(x, y) * 2) % 256,
            x != 0xF ==> final(self)@.vf() == old(self)@.shift_source(x, y) / 128,
            final(self).rng == old(self).rng,
            old(self).wf() ==> final(self).wf(),
    {
        if self.emulator_type == EmulatorType::CosmacVip {
            self.variable_registers[x as usize] = self.variable_registers[y as usize];
        }
        let source: u8 = self.variable_registers[x as usize];
        assert((source >> 7) & 0x01 == source / 128) by (bit_vector);
        self.variable_registers[0xF] = (source >> 7) & 0x01;

        let flagged: u8 = self.variable_registers[x as usize];
        assert(flagged << 1 == (flagged * 2) % 256) by (bit_vector);
        self.variable_registers[x as usize] = flagged << 1;
    }

    /// Sets Vx to `byte` AND `nn`: what the randomizing instruction does
    /// once the random byte `byte` has been drawn.
    pub fn put_masked_byte_into_vx(&mut self, x: u8, nn: u8, byte: u8)
        requires
            x < 16,
        ensures
            final(self)@ == old(self)@.randomize_vx(x, nn, byte),
            final(self).rng == old(self).rng,
            old(self).wf() ==> final(self).wf(),
    {
        self.variable_registers[x as usize] = byte & nn;
    }

    /// Draws a random byte from the entropy source and sets Vx to that byte
    /// AND `nn`. Whatever byte is drawn, Vx has no bit set that `nn` lacks.
    pub fn randomize_vx(&mut self, x: u8, nn: u8)
        requires
            x < 16,
        ensures
            exists|byte: u8| final(self)@ == old(self)@.randomize_vx(x, nn, byte),
            final(self)@.vx(x) & nn == final(self)@.vx(x),
            old(self).wf() ==> final(self).wf(),
    {
        let random_number: u8 = self.rng.next_byte();
        self.put_masked_byte_into_vx(x, nn, random_number);
        assert((random_number & nn) & nn == random_number & nn) by (bit_vector);
        assert(self@ == old(self)@.randomize_vx(x, nn, random_number));
    }
}

} // verus!
