//! Theorems about the model: what holds of every machine state, across one or
//! several instructions.

use vstd::prelude::*;

use crate::fault::Fault;
use crate::display::lemma_draw_keeps_pixels_binary;
use crate::font::{glyph, glyph_address, FONT, FONT_SIZE, FONT_START_ADDRESS};
use crate::memory::decimal_digits;
use crate::opcode::{lemma_decoded_is_wf, Instruction};
use crate::state::{EmulatorType, MachineState, MEMORY_SIZE};
use crate::timers::ticked;

verus! {

/// Adding a byte to a register gives the sum modulo 256 and leaves every
/// other register, the flag register included, as it was.
pub proof fn lemma_add_to_register_wraps(state: MachineState, x: u8, nn: u8)
    requires
        state.wf(),
        x < 16,
    ensures
        state.add_to_variable_register(x, nn).vx(x) == (state.vx(x) + nn) % 256,
        forall|r: u8|
            r < 16 && r != x ==> state.add_to_variable_register(x, nn).vx(r) == state.vx(r),
{
}

/// Adding Vy to Vx gives the sum modulo 256 in Vx and, unless `x` names
/// the flag register itself, leaves 1 in VF exactly when the sum exceeds 255
/// and 0 exactly when it does not.
pub proof fn lemma_add_vy_to_vx_wraps(state: MachineState, x: u8, y: u8)
    requires
        state.wf(),
        x < 16,
        y < 16,
    ensures
        state.add_vy_to_vx(x, y).vx(x) == (state.vx(x) + state.vx(y)) % 256,
        x != 0xF ==> (state.add_vy_to_vx(x, y).vf() == 1 <==> state.vx(x) + state.vx(y) > 255),
        x != 0xF ==> (state.add_vy_to_vx(x, y).vf() == 0 <==> state.vx(x) + state.vx(y) <= 255),
{
}

/// Drawing changes no pixel outside the eight columns and `n` rows that
/// start at the anchor: nothing wraps round to the left edge or the top.
pub proof fn lemma_draw_is_clipped(state: MachineState, x: u8, y: u8, n: u8, px: int, py: int)
    requires
        state.wf(),
        x < 16,
        y < 16,
        state.index_register + n <= MEMORY_SIZE,
        0 <= px < 64,
        0 <= py < 32,
        !(state.anchor_x(x) <= px < state.anchor_x(x) + 8 && state.anchor_y(y) <= py
            < state.anchor_y(y) + n),
    ensures
        state.draw(x, y, n) matches Ok(drawn) && drawn.pixel(px, py) == state.pixel(px, py),
{
}

/// Drawing the same sprite twice at the same place gives back the frame
/// buffer there was before. The second drawing leaves 1 in VF exactly when
/// some sprite pixel that is on falls on a screen pixel that was off at the
/// start. The registers that hold the place must not be the flag register,
/// which the first drawing overwrites.
pub proof fn lemma_draw_twice_restores_screen(state: MachineState, x: u8, y: u8, n: u8)
    requires
        state.wf(),
        x < 0xF,
        y < 0xF,
        state.index_register + n <= MEMORY_SIZE,
    ensures
        state.draw(x, y, n) matches Ok(once) && once.draw(x, y, n) matches Ok(twice) && ({
            &&& twice.frame_buffer == state.frame_buffer
            &&& twice.vf() == 0 || twice.vf() == 1
            &&& twice.vf() == 1 <==> exists|px: int, py: int|
                state.sprite_covers(x, y, n, px, py) && state.pixel(px, py) == 0
                    && state.sprite_pixel_over(x, y, px, py) == 1
        }),
{
    let once = state.draw(x, y, n)->Ok_0;
    let twice = once.draw(x, y, n)->Ok_0;
    assert forall|px: int, py: int| 0 <= px < 64 && 0 <= py < 32 implies #[trigger] once.pixel(
        px,
        py,
    ) == state.drawn_pixel(x, y, n, px, py) by {
        assert((py * 64 + px) % 64 == px);
        assert((py * 64 + px) / 64 == py);
    }
    assert forall|i: int| 0 <= i < 2048 implies #[trigger] twice.frame_buffer[i]
        == state.frame_buffer[i] by {
        let px = i % 64;
        let py = i / 64;
        assert(py * 64 + px == i);
        assert(once.pixel(px, py) == state.drawn_pixel(x, y, n, px, py));
        let before = state.frame_buffer[i];
        let sprite = state.sprite_pixel_over(x, y, px, py);
        assert((before ^ sprite) ^ sprite == before) by (bit_vector);
    }
    if once.collides(x, y, n) {
        let (px, py) = choose|px: int, py: int| once.collides_at(x, y, n, px, py);
        let before = state.pixel(px, py);
        assert(before ^ 1 == 1 ==> before == 0) by (bit_vector);
    }
    if exists|px: int, py: int|
        state.sprite_covers(x, y, n, px, py) && state.pixel(px, py) == 0
            && state.sprite_pixel_over(x, y, px, py) == 1 {
        let (px, py) = choose|px: int, py: int|
            state.sprite_covers(x, y, n, px, py) && state.pixel(px, py) == 0
                && state.sprite_pixel_over(x, y, px, py) == 1;
        assert(0u8 ^ 1u8 == 1u8) by (bit_vector);
        assert(once.collides_at(x, y, n, px, py));
    }
}

/// Storing V0 to Vx and loading them again from the same address, into
/// whatever the registers hold by then, gives back V0 to Vx. After either
/// transfer the index register is `x + 1` higher on the COSMAC-VIP and
/// where it was on the CHIP-48.
pub proof fn lemma_store_then_load_round_trips(
    state: MachineState,
    other_registers: Seq<u8>,
    x: u8,
)
    requires
        state.wf(),
        other_registers.len() == 16,
        x < 16,
        state.index_register + x + 1 <= MEMORY_SIZE,
    ensures
        state.store_variable_registers_to_memory(x) matches Ok(stored) && (MachineState {
            registers: other_registers,
            index_register: state.index_register,
            ..stored
        }).load_variable_registers_from_memory(x) matches Ok(loaded) && (forall|i: int|
            0 <= i <= x ==> #[trigger] loaded.registers[i] == state.registers[i]) && (forall|i: int|
            x < i < 16 ==> #[trigger] loaded.registers[i] == other_registers[i])
            && stored.index_register == loaded.index_register && loaded.index_register
            == match state.emulator_type {
            EmulatorType::CosmacVip => state.index_register + x + 1,
            EmulatorType::Chip48 => state.index_register as int,
        },
{
}

/// Pointing the index register at the glyph for a digit sets it to the
/// font's address plus five times the digit, and where the font table
/// stands in memory the five bytes there are the glyph of that digit.
pub proof fn lemma_font_character_is_at_index(state: MachineState, x: u8, digit: u8)
    requires
        state.wf(),
        state.has_font(),
        x < 16,
        digit < 16,
        state.vx(x) == digit,
    ensures
        ({
            let pointed = state.point_index_register_at_font_character(x);
            &&& pointed.index_register == glyph_address(digit as int)
            &&& pointed.memory.subrange(
                pointed.index_register as int,
                pointed.index_register + 5,
            ) == glyph(digit as int)
        }),
{
    let pointed = state.point_index_register_at_font_character(x);
    let address = pointed.index_register as int;
    assert forall|k: int| 0 <= k < 5 implies pointed.memory[address + k] == #[trigger] glyph(
        digit as int,
    )[k] by {
        assert(state.memory[FONT_START_ADDRESS + (5 * digit + k)]
            == FONT@[5 * digit + k]);
    }
}

/// The three decimal digits of a byte are digits and put the byte together
/// again: hundreds times 100 plus tens times 10 plus ones.
pub proof fn lemma_decimal_digits_recompose(value: u8)
    ensures
        decimal_digits(value).len() == 3,
        forall|i: int| 0 <= i < 3 ==> #[trigger] decimal_digits(value)[i] < 10,
        decimal_digits(value)[0] * 100 + decimal_digits(value)[1] * 10 + decimal_digits(value)[2]
            == value,
{
}

/// Whether executing the instruction writes to a byte of the font table:
/// only the two instructions that store to memory can, where the bytes they
/// write reach into the table.
pub open spec fn overwrites_font(state: MachineState, instruction: Instruction) -> bool {
    let first = state.index_register as int;
    match instruction {
        Instruction::StoreDecimalDigits { x } => first < FONT_START_ADDRESS + FONT_SIZE && first
            + 3 > FONT_START_ADDRESS,
        Instruction::StoreRegisters { x } => first < FONT_START_ADDRESS + FONT_SIZE && first + x
            + 1 > FONT_START_ADDRESS,
        _ => false,
    }
}

/// An instruction that does not store into the font table leaves the table
/// in memory.
pub proof fn lemma_execute_keeps_font(
    state: MachineState,
    instruction: Instruction,
    random_byte: u8,
)
    requires
        state.wf(),
        state.has_font(),
        instruction.wf(),
        !overwrites_font(state, instruction),
    ensures
        state.execute(instruction, random_byte) matches Ok(next) ==> next.has_font(),
{
    if let Ok(next) = state.execute(instruction, random_byte) {
        assert forall|i: int| 0 <= i < FONT_SIZE implies #[trigger] next.memory[FONT_START_ADDRESS
            + i] == FONT@[i] by {
            assert(state.memory[FONT_START_ADDRESS + i] == FONT@[i]);
        }
    }
}

/// Loading a program leaves the font table in memory: programs are loaded
/// above it.
pub proof fn lemma_load_program_keeps_font(state: MachineState, program: Seq<u8>)
    requires
        state.wf(),
        state.has_font(),
    ensures
        state.load_program(program) matches Ok(loaded) ==> loaded.has_font(),
{
    if let Ok(loaded) = state.load_program(program) {
        assert forall|i: int| 0 <= i < FONT_SIZE implies #[trigger] loaded.memory[FONT_START_ADDRESS
            + i] == FONT@[i] by {
            assert(state.memory[FONT_START_ADDRESS + i] == FONT@[i]);
        }
    }
}

/// A machine that has just been built holds the font table.
pub proof fn lemma_initial_machine_has_font(emulator_type: EmulatorType)
    ensures
        MachineState::initial(emulator_type).has_font(),
        MachineState::initial(emulator_type).wf(),
{
}

/// The machine after `ticks` ticks of the timers.
pub open spec fn after_ticks(state: MachineState, ticks: nat) -> MachineState
    decreases ticks,
{
    if ticks == 0 {
        state
    } else {
        after_ticks(state, (ticks - 1) as nat).decrement_timers()
    }
}

/// A tick takes 1 from a timer that is above 0 and leaves a timer at 0
/// where it is.
pub proof fn lemma_tick_stops_at_zero(timer: u8)
    ensures
        ticked(0) == 0,
        timer > 0 ==> ticked(timer) == timer - 1,
        0 <= ticked(timer) <= timer,
{
}

/// However often the timers tick, neither goes below 0: after `ticks`
/// ticks a timer that started at `t` stands at `t − ticks`, or at 0 if that
/// would be negative. Nothing else changes.
pub proof fn lemma_timers_never_go_below_zero(state: MachineState, ticks: nat)
    ensures
        after_ticks(state, ticks).delay_timer == if state.delay_timer >= ticks {
            state.delay_timer - ticks
        } else {
            0
        },
        after_ticks(state, ticks).sound_timer == if state.sound_timer >= ticks {
            state.sound_timer - ticks
        } else {
            0
        },
        after_ticks(state, ticks) == (MachineState {
            delay_timer: after_ticks(state, ticks).delay_timer,
            sound_timer: after_ticks(state, ticks).sound_timer,
            ..state
        }),
    decreases ticks,
{
    if ticks > 0 {
        lemma_timers_never_go_below_zero(state, (ticks - 1) as nat);
    }
}

/// Executing an instruction keeps a well-formed machine well formed: the
/// stack pointer stays at sixteen or below and every pixel stays 0 or 1.
pub proof fn lemma_execute_preserves_wf(
    state: MachineState,
    instruction: Instruction,
    random_byte: u8,
)
    requires
        state.wf(),
        instruction.wf(),
    ensures
        state.execute(instruction, random_byte) matches Ok(next) ==> next.wf(),
{
    match instruction {
        Instruction::Draw { x, y, n } => {
            lemma_draw_keeps_pixels_binary(state, x, y, n);
        },
        Instruction::ClearScreen => {
            assert(state.clear_screen().wf());
        },
        Instruction::ReturnFromSubroutine => {
            assert(state.return_from_subroutine() matches Ok(next) ==> next.wf());
        },
        Instruction::CallSubroutine { nnn } => {
            assert(state.call_subroutine(nnn) matches Ok(next) ==> next.wf());
        },
        Instruction::StoreDecimalDigits { x } => {
            assert(state.put_vx_decimal_digits_into_memory(x) matches Ok(next) ==> next.wf());
        },
        Instruction::StoreRegisters { x } => {
            assert(state.store_variable_registers_to_memory(x) matches Ok(next) ==> next.wf());
        },
        Instruction::LoadRegisters { x } => {
            assert(state.load_variable_registers_from_memory(x) matches Ok(next) ==> next.wf());
        },
        Instruction::WaitForKey { x } => {
            assert(state.put_key_into_vx(x).wf());
        },
        Instruction::SkipIfKeyDown { x } => {
            assert(state.skip_if_key_down(x) matches Ok(next) ==> next.wf());
        },
        Instruction::SkipIfKeyUp { x } => {
            assert(state.skip_if_key_up(x) matches Ok(next) ==> next.wf());
        },
        _ => {
            // Every other instruction leaves the frame buffer and the stack
            // pointer as they were.
            let next = state.execute(instruction, random_byte)->Ok_0;
            assert(next.frame_buffer == state.frame_buffer);
            assert(next.stack_pointer == state.stack_pointer);
        },
    }
}

/// A cycle keeps a well-formed machine well formed.
pub proof fn lemma_step_preserves_wf(state: MachineState, random_byte: u8)
    requires
        state.wf(),
    ensures
        state.step(random_byte) matches Ok(next) ==> next.wf(),
{
    if let Ok(instruction) = state.fetch_instruction() {
        let opcode = state.fetch_next_opcode()->Ok_0;
        lemma_decoded_is_wf(opcode);
        lemma_execute_preserves_wf(state.skip_next(), instruction, random_byte);
    }
}

/// Whether a cycle faults, and with which fault, does not depend on the
/// random byte; and unless the instruction at the program counter is the
/// randomizing one, neither does the machine that the cycle leaves.
pub proof fn lemma_step_depends_on_entropy_only_when_randomizing(
    state: MachineState,
    first: u8,
    second: u8,
)
    ensures
        state.step(first) is Err <==> state.step(second) is Err,
        state.step(first) matches Err(fault) ==> state.step(second) == Err::<MachineState, Fault>(
            fault,
        ),
        !state.draws_entropy() ==> state.step(first) == state.step(second),
{
}

/// A return undoes a call: the program counter is back at the address
/// that the call pushed, the stack pointer where it was, and nothing else
/// has changed but the stack slot that held the address.
pub proof fn lemma_return_undoes_call(state: MachineState, nnn: u16)
    requires
        state.wf(),
        state.stack_pointer < 16,
    ensures
        state.call_subroutine(nnn) matches Ok(called) && ({
            &&& called.program_counter == nnn
            &&& called.stack[state.stack_pointer as int] == state.program_counter
            &&& called.return_from_subroutine() matches Ok(returned) && returned == (MachineState {
                stack: called.stack,
                ..state
            })
        }),
{
}

} // verus!
