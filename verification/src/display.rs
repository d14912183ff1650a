//! The display compositor: clearing the frame buffer and drawing sprites onto
//! it by exclusive or, with clipping at the edges and collision detection.

use vstd::prelude::*;

use crate::entropy::EntropySource;
use crate::fault::Fault;
use crate::state::{
    ends_as, Chip8, MachineState, DISPLAY_HEIGHT, DISPLAY_WIDTH, FLAG_REGISTER,
    FRAME_BUFFER_SIZE, MEMORY_SIZE,
};

verus! {

impl MachineState {
    /// Every pixel is off.
    pub open spec fn clear_screen(self) -> MachineState {
        MachineState { frame_buffer: Seq::new(FRAME_BUFFER_SIZE as nat, |i: int| 0u8), ..self }
    }

    /// The pixel at column `px` of row `py`.
    pub open spec fn pixel(self, px: int, py: int) -> u8 {
        self.frame_buffer[py * DISPLAY_WIDTH + px]
    }

    /// The column at which a sprite drawn at Vx starts: Vx modulo 64.
    pub open spec fn anchor_x(self, x: u8) -> int {
        (self.vx(x) % 64) as int
    }

    /// The row at which a sprite drawn at Vy starts: Vy modulo 32.
    pub open spec fn anchor_y(self, y: u8) -> int {
        (self.vx(y) % 32) as int
    }

    /// The pixel of the sprite at the index register in row `row` and
    /// column `column`, 0 or 1. A row is one byte and its highest bit is
    /// column 0.
    pub open spec fn sprite_pixel(self, row: int, column: int) -> u8 {
        (self.memory[self.index_register + row] >> ((7 - column) as u8)) & 0x01
    }

    /// Whether the screen pixel (`px`, `py`) lies under the 8×`n` sprite
    /// anchored at (Vx mod 64, Vy mod 32). Only the anchor wraps: the part
    /// of the sprite that would lie beyond the right or the bottom edge
    /// covers nothing.
    pub open spec fn sprite_covers(self, x: u8, y: u8, n: u8, px: int, py: int) -> bool {
        &&& 0 <= px < DISPLAY_WIDTH
        &&& 0 <= py < DISPLAY_HEIGHT
        &&& self.anchor_x(x) <= px < self.anchor_x(x) + 8
        &&& self.anchor_y(y) <= py < self.anchor_y(y) + n
    }

    /// The sprite pixel that falls on the screen pixel (`px`, `py`).
    pub open spec fn sprite_pixel_over(self, x: u8, y: u8, px: int, py: int) -> u8 {
        self.sprite_pixel(py - self.anchor_y(y), px - self.anchor_x(x))
    }

    /// The screen pixel (`px`, `py`) after the sprite was drawn: under the
    /// sprite the exclusive or of what was there and the sprite pixel,
    /// elsewhere what was there.
    pub open spec fn drawn_pixel(self, x: u8, y: u8, n: u8, px: int, py: int) -> u8 {
        if self.sprite_covers(x, y, n, px, py) {
            self.pixel(px, py) ^ self.sprite_pixel_over(x, y, px, py)
        } else {
            self.pixel(px, py)
        }
    }

    /// Whether drawing the sprite turns the screen pixel (`px`, `py`) off:
    /// it lies under the sprite, is on, and the sprite pixel over it is on.
    pub open spec fn collides_at(self, x: u8, y: u8, n: u8, px: int, py: int) -> bool {
        &&& self.sprite_covers(x, y, n, px, py)
        &&& self.pixel(px, py) == 1
        &&& self.sprite_pixel_over(x, y, px, py) == 1
    }

    /// Whether drawing the sprite turns any pixel off.
    pub open spec fn collides(self, x: u8, y: u8, n: u8) -> bool {
        exists|px: int, py: int| self.collides_at(x, y, n, px, py)
    }

    /// The `n` bytes at the index register are drawn as an 8×`n` sprite at
    /// (Vx mod 64, Vy mod 32), and VF becomes 1 if that turned a pixel off
    /// and 0 if not. If the `n` bytes do not all lie in memory, that is a
    /// fault.
    pub open spec fn draw(self, x: u8, y: u8, n: u8) -> Result<MachineState, Fault> {
        if self.index_register + n > MEMORY_SIZE {
            Err(Fault::AddressOutOfBounds)
        } else {
            Ok(
                MachineState {
                    frame_buffer: Seq::new(
                        FRAME_BUFFER_SIZE as nat,
                        |i: int| self.drawn_pixel(x, y, n, i % 64, i / 64),
                    ),
                    registers: self.registers.update(
                        FLAG_REGISTER as int,
                        if self.collides(x, y, n) {
                            1
                        } else {
                            0
                        },
                    ),
                    ..self
                },
            )
        }
    }

    /// Whether the drawing has got to the screen pixel (`px`, `py`) once it
    /// has finished `rows` rows of the sprite and `columns` pixels of the
    /// next row.
    spec fn reached(self, x: u8, y: u8, n: u8, rows: int, columns: int, px: int, py: int) -> bool {
        &&& self.sprite_covers(x, y, n, px, py)
        &&& (py - self.anchor_y(y) < rows || (py - self.anchor_y(y) == rows && px
            - self.anchor_x(x) < columns))
    }

    /// The pixel at index `i` of the frame buffer at that point of the
    /// drawing.
    spec fn partly_drawn(self, x: u8, y: u8, n: u8, rows: int, columns: int, i: int) -> u8 {
        if self.reached(x, y, n, rows, columns, i % 64, i / 64) {
            self.drawn_pixel(x, y, n, i % 64, i / 64)
        } else {
            self.frame_buffer[i]
        }
    }
}

impl<R: EntropySource> Chip8<R> {
    /// Gets the frame buffer: 64×32 pixels, row by row, one byte each.
    pub fn frame_buffer(&self) -> (buffer: &[u8; FRAME_BUFFER_SIZE])
        ensures
            buffer@ == self@.frame_buffer,
            *buffer == self.frame_buffer,
    {
        &self.frame_buffer
    }

    /// Sets every pixel of the frame buffer to 0.
    pub fn clear_screen(&mut self)
        ensures
            final(self)@ == old(self)@.clear_screen(),
            final(self).rng == old(self).rng,
            old(self).wf() ==> final(self).wf(),
    {
        self.frame_buffer = [0; 2048];
    }

    /// Draws the `n`-row sprite that memory holds at the index register
    /// onto the frame buffer, with its top left corner at column Vx mod 64
    /// and row Vy mod 32. Sprite pixels are combined with the screen by
    /// exclusive or; those that would fall beyond the right or the bottom
    /// edge are dropped. VF is set to 1 if a pixel went from on to off and
    /// to 0 otherwise. Fails with `AddressOutOfBounds`, changing nothing, if
    /// the sprite does not lie in memory.
    pub fn draw(&mut self, x: u8, y: u8, n: u8) -> (result: Result<(), Fault>)
        requires
            x < 16,
            y < 16,
        ensures
            ends_as(old(self)@.draw(x, y, n), old(self)@, result, final(self)@),
            final(self).rng == old(self).rng,
            old(self).wf() ==> final(self).wf(),
    {
        let sprite_memory_address: usize = self.index_register as usize;
        if sprite_memory_address + n as usize > MEMORY_SIZE {
            return Err(Fault::AddressOutOfBounds);
        }
        let x_offset: usize = self.variable_registers[x as usize] as usize % DISPLAY_WIDTH;
        let y_offset: usize = self.variable_registers[y as usize] as usize % DISPLAY_HEIGHT;
        let ghost before = old(self)@;

        // Reset VF. It is set again if any pixel goes from on to off.
        self.variable_registers[0xF] = 0;

        let mut row: usize = 0;
        while row < n as usize
            invariant
                row <= n,
                x < 16,
                y < 16,
                before == old(self)@,
                sprite_memory_address == before.index_register,
                sprite_memory_address + n <= MEMORY_SIZE,
                x_offset == before.anchor_x(x),
                y_offset == before.anchor_y(y),
                forall|i: int|
                    0 <= i < FRAME_BUFFER_SIZE ==> #[trigger] self.frame_buffer@[i]
                        == before.partly_drawn(x, y, n, row as int, 0, i),
                self.variable_registers@[0xF] <= 1,
                self.variable_registers@[0xF] == 1 ==> before.collides(x, y, n),
                forall|px: int, py: int|
                    #[trigger] before.collides_at(x, y, n, px, py) && before.reached(
                        x,
                        y,
                        n,
                        row as int,
                        0,
                        px,
                        py,
                    ) ==> self.variable_registers@[0xF] == 1,
                forall|r: int|
                    0 <= r < 16 && r != 0xF ==> #[trigger] self.variable_registers@[r]
                        == before.registers[r],
                self@ == (MachineState {
                    frame_buffer: self@.frame_buffer,
                    registers: self@.registers,
                    ..before
                }),
                self.rng == old(self).rng,
            decreases n - row,
        {
            let byte: u8 = self.ram[sprite_memory_address + row];
            let mut bit_index: usize = 0;
            while bit_index < 8
                invariant
                    row < n,
                    bit_index <= 8,
                    x < 16,
                    y < 16,
                    before == old(self)@,
                    sprite_memory_address == before.index_register,
                    sprite_memory_address + n <= MEMORY_SIZE,
                    byte == before.memory[sprite_memory_address + row],
                    x_offset == before.anchor_x(x),
                    y_offset == before.anchor_y(y),
                    forall|i: int|
                        0 <= i < FRAME_BUFFER_SIZE ==> #[trigger] self.frame_buffer@[i]
                            == before.partly_drawn(x, y, n, row as int, bit_index as int, i),
                    self.variable_registers@[0xF] <= 1,
                    self.variable_registers@[0xF] == 1 ==> before.collides(x, y, n),
                    forall|px: int, py: int|
                        #[trigger] before.collides_at(x, y, n, px, py) && before.reached(
                            x,
                            y,
                            n,
                            row as int,
                            bit_index as int,
                            px,
                            py,
                        ) ==> self.variable_registers@[0xF] == 1,
                    forall|r: int|
                        0 <= r < 16 && r != 0xF ==> #[trigger] self.variable_registers@[r]
                            == before.registers[r],
                    self@ == (MachineState {
                        frame_buffer: self@.frame_buffer,
                        registers: self@.registers,
                        ..before
                    }),
                    self.rng == old(self).rng,
                decreases 8 - bit_index,
            {
                let pixel_x_index: usize = x_offset + bit_index;
                let pixel_y_index: usize = y_offset + row;

                // Sprite pixels that go off the edge of the screen are not drawn.
                if pixel_x_index < DISPLAY_WIDTH && pixel_y_index < DISPLAY_HEIGHT {
                    let shift: u8 = 7 - bit_index as u8;
                    let sprite_pixel_value: u8 = (byte >> shift) & 0x01;
                    let frame_buffer_pixel_index: usize = pixel_y_index * DISPLAY_WIDTH
                        + pixel_x_index;
                    let frame_buffer_pixel_value: u8 = self.frame_buffer[frame_buffer_pixel_index];

                    // A pixel that was on and is now turned off sets VF.
                    if frame_buffer_pixel_value == 1 && sprite_pixel_value == 1 {
                        assert(before.collides_at(
                            x,
                            y,
                            n,
                            pixel_x_index as int,
                            pixel_y_index as int,
                        ));
                        self.variable_registers[0xF] = 1;
                    }
                    self.frame_buffer[frame_buffer_pixel_index] = frame_buffer_pixel_value
                        ^ sprite_pixel_value;
                }
                bit_index = bit_index + 1;
            }
            row = row + 1;
        }
        proof {
            let expected = old(self)@.draw(x, y, n)->Ok_0;
            assert(self@.frame_buffer =~= expected.frame_buffer);
            assert(self@.registers =~= expected.registers);
            if before.wf() {
                lemma_draw_keeps_pixels_binary(before, x, y, n);
            }
        }
        Ok(())
    }
}

/// An exclusive or of two pixels is a pixel, and a sprite pixel is one: if
/// every pixel of the frame buffer is 0 or 1 before a sprite is drawn, every
/// pixel is 0 or 1 after.
pub proof fn lemma_draw_keeps_pixels_binary(state: MachineState, x: u8, y: u8, n: u8)
    requires
        state.wf(),
    ensures
        state.draw(x, y, n) matches Ok(drawn) ==> drawn.wf(),
{
    if state.draw(x, y, n) is Ok {
        let drawn = state.draw(x, y, n)->Ok_0;
        assert forall|i: int| 0 <= i < FRAME_BUFFER_SIZE implies #[trigger] drawn.frame_buffer[i]
            <= 1 by {
            let px = i % 64;
            let py = i / 64;
            let on_screen = state.frame_buffer[i];
            assert(on_screen <= 1);
            let on_sprite = state.sprite_pixel_over(x, y, px, py);
            let byte = state.memory[state.index_register + (py - state.anchor_y(y))];
            let shift = (7 - (px - state.anchor_x(x))) as u8;
            assert((byte >> shift) & 0x01 <= 1) by (bit_vector);
            assert(on_screen ^ on_sprite <= 1) by (bit_vector)
                requires
                    on_screen <= 1,
                    on_sprite <= 1,
            ;
        }
    }
}

} // verus!
