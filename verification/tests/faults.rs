use chip_8_emulator::{Chip8, EmulatorType, Fault, KeyState, DISPLAY_WIDTH, MAX_PROGRAM_SIZE};
use rand::rngs::StdRng;
use rand::SeedableRng;

/// Everything an instruction can change, to compare a machine with itself
/// across a call.
#[derive(Debug, PartialEq)]
struct Snapshot {
    ram: Vec<u8>,
    frame_buffer: Vec<u8>,
    stack: [u16; 16],
    stack_pointer: u8,
    delay_timer: u8,
    sound_timer: u8,
    program_counter: u16,
    index_register: u16,
    variable_registers: [u8; 16],
    emulator_type: EmulatorType,
    rng: StdRng,
    keypad_state: [KeyState; 16],
    previous_keypad_state: [KeyState; 16],
}

fn snapshot(chip8: &Chip8<StdRng>) -> Snapshot {
    Snapshot {
        ram: chip8.ram.to_vec(),
        frame_buffer: chip8.frame_buffer.to_vec(),
        stack: chip8.stack,
        stack_pointer: chip8.stack_pointer,
        delay_timer: chip8.delay_timer,
        sound_timer: chip8.sound_timer,
        program_counter: chip8.program_counter,
        index_register: chip8.index_register,
        variable_registers: chip8.variable_registers,
        emulator_type: chip8.emulator_type,
        rng: chip8.rng.clone(),
        keypad_state: chip8.keypad_state,
        previous_keypad_state: chip8.previous_keypad_state,
    }
}

/// A machine in which no container is in its initial state.
fn busy_machine(emulator_type: EmulatorType) -> Chip8<StdRng> {
    let mut chip8 = Chip8::new(emulator_type, StdRng::seed_from_u64(3));
    for i in 0..16 {
        chip8.variable_registers[i] = 0x20 + i as u8;
    }
    chip8.frame_buffer[5 * DISPLAY_WIDTH + 9] = 1;
    chip8.stack[0] = 0x0ABC;
    chip8.stack_pointer = 1;
    chip8.delay_timer = 9;
    chip8.sound_timer = 8;
    chip8.index_register = 0x300;
    chip8.keypad_state[3] = KeyState::Down;
    chip8.previous_keypad_state[4] = KeyState::Down;
    chip8
}

fn assert_faults_without_a_trace(mut chip8: Chip8<StdRng>, expected: Fault) {
    let before = snapshot(&chip8);

    assert_eq!(Err(expected), chip8.execute_next_instruction());

    assert_eq!(before, snapshot(&chip8));
}

#[test]
fn words_that_encode_no_instruction_are_invalid() {
    let words: [u16; 12] = [
        0x0000, 0x00E1, 0x00EF, 0x0123, 0x8128, 0x812D, 0x812F, 0xE000, 0xE19F, 0xE1A0, 0xF000,
        0xF1FF,
    ];
    for word in words {
        let mut chip8 = busy_machine(EmulatorType::CosmacVip);
        chip8.ram[0x200] = (word >> 8) as u8;
        chip8.ram[0x201] = (word & 0xFF) as u8;

        assert_faults_without_a_trace(chip8, Fault::InvalidInstruction(word));
    }
}

#[test]
fn an_invalid_word_reports_the_word() {
    let mut chip8 = busy_machine(EmulatorType::Chip48);
    chip8.load_program(&[0xF1, 0x66]).unwrap();

    assert_eq!(Err(Fault::InvalidInstruction(0xF166)), chip8.execute_next_instruction());
    assert_eq!(0x200, chip8.program_counter);
}

#[test]
fn calling_with_a_full_stack_overflows() {
    let mut chip8 = busy_machine(EmulatorType::CosmacVip);
    chip8.stack_pointer = 0;
    for depth in 0..16u16 {
        chip8.program_counter = 0x200 + depth;
        chip8.call_subroutine(0x400).unwrap();
    }
    assert_eq!(16, chip8.stack_pointer);
    assert_eq!(0x20F, chip8.stack[15]);
    chip8.program_counter = 0x234;
    let before = snapshot(&chip8);

    assert_eq!(Err(Fault::StackOverflow), chip8.call_subroutine(0x500));

    assert_eq!(before, snapshot(&chip8));
}

#[test]
fn a_full_stack_unwinds_in_reverse() {
    let mut chip8 = busy_machine(EmulatorType::CosmacVip);
    chip8.stack_pointer = 0;
    for depth in 0..16u16 {
        chip8.program_counter = 0x200 + 2 * depth;
        chip8.call_subroutine(0x400).unwrap();
    }
    for depth in (0..16u16).rev() {
        chip8.return_from_subroutine().unwrap();
        assert_eq!(0x200 + 2 * depth, chip8.program_counter);
        assert_eq!(depth as u8, chip8.stack_pointer);
    }
    assert_eq!(Err(Fault::StackUnderflow), chip8.return_from_subroutine());
}

#[test]
fn overflowing_call_instruction_leaves_no_trace() {
    let mut chip8 = busy_machine(EmulatorType::CosmacVip);
    chip8.stack_pointer = 16;
    chip8.load_program(&[0x23, 0x45]).unwrap();

    assert_faults_without_a_trace(chip8, Fault::StackOverflow);
}

#[test]
fn returning_with_an_empty_stack_underflows() {
    let mut chip8 = busy_machine(EmulatorType::CosmacVip);
    chip8.stack_pointer = 0;
    let before = snapshot(&chip8);

    assert_eq!(Err(Fault::StackUnderflow), chip8.return_from_subroutine());

    assert_eq!(before, snapshot(&chip8));
}

#[test]
fn underflowing_return_instruction_leaves_no_trace() {
    let mut chip8 = busy_machine(EmulatorType::CosmacVip);
    chip8.stack_pointer = 0;
    chip8.load_program(&[0x00, 0xEE]).unwrap();

    assert_faults_without_a_trace(chip8, Fault::StackUnderflow);
}

#[test]
fn fetching_beyond_memory_is_out_of_bounds() {
    let mut chip8 = busy_machine(EmulatorType::CosmacVip);
    chip8.program_counter = 0x0FFF;
    assert_eq!(Err(Fault::AddressOutOfBounds), chip8.fetch_next_opcode());
    assert_faults_without_a_trace(chip8, Fault::AddressOutOfBounds);

    let mut chip8 = busy_machine(EmulatorType::CosmacVip);
    chip8.program_counter = 0x1000;
    assert_faults_without_a_trace(chip8, Fault::AddressOutOfBounds);

    let mut chip8 = busy_machine(EmulatorType::CosmacVip);
    chip8.program_counter = 0xFFFF;
    assert_faults_without_a_trace(chip8, Fault::AddressOutOfBounds);
}

#[test]
fn the_last_word_of_memory_can_be_fetched_and_run() {
    let mut chip8 = busy_machine(EmulatorType::CosmacVip);
    chip8.ram[0xFFE] = 0x61;
    chip8.ram[0xFFF] = 0x77;
    chip8.program_counter = 0x0FFE;

    assert_eq!(0x6177, chip8.fetch_next_opcode().unwrap().opcode);
    chip8.execute_next_instruction().unwrap();

    assert_eq!(0x77, chip8.variable_registers[0x1]);
    assert_eq!(0x1000, chip8.program_counter);
    assert_eq!(Err(Fault::AddressOutOfBounds), chip8.execute_next_instruction());
}

#[test]
fn drawing_a_sprite_that_leaves_memory_is_out_of_bounds() {
    let mut chip8 = busy_machine(EmulatorType::CosmacVip);
    chip8.index_register = 0x0FFE;
    chip8.variable_registers[0xF] = 0x66;
    let before = snapshot(&chip8);

    assert_eq!(Err(Fault::AddressOutOfBounds), chip8.draw(0x0, 0x1, 3));

    assert_eq!(before, snapshot(&chip8));
}

#[test]
fn drawing_the_last_bytes_of_memory_is_fine() {
    let mut chip8 = busy_machine(EmulatorType::CosmacVip);
    chip8.index_register = 0x0FFD;
    chip8.ram[0xFFF] = 0x80;
    chip8.variable_registers[0x0] = 0;
    chip8.variable_registers[0x1] = 0;

    assert_eq!(Ok(()), chip8.draw(0x0, 0x1, 3));

    assert_eq!(1, chip8.frame_buffer[2 * DISPLAY_WIDTH]);
    assert_eq!(0, chip8.variable_registers[0xF]);
}

#[test]
fn drawing_no_rows_only_clears_the_flag() {
    let mut chip8 = busy_machine(EmulatorType::CosmacVip);
    chip8.index_register = 0x1000;
    chip8.variable_registers[0xF] = 0x66;
    let mut expected = snapshot(&chip8);
    expected.variable_registers[0xF] = 0;

    assert_eq!(Ok(()), chip8.draw(0x0, 0x1, 0));

    assert_eq!(expected, snapshot(&chip8));
}

#[test]
fn out_of_bounds_draw_instruction_leaves_no_trace() {
    let mut chip8 = busy_machine(EmulatorType::CosmacVip);
    chip8.index_register = 0x0FFF;
    chip8.load_program(&[0xD0, 0x12]).unwrap();

    assert_faults_without_a_trace(chip8, Fault::AddressOutOfBounds);
}

#[test]
fn decimal_digits_that_leave_memory_are_out_of_bounds() {
    let mut chip8 = busy_machine(EmulatorType::CosmacVip);
    chip8.index_register = 0x0FFE;
    let before = snapshot(&chip8);

    assert_eq!(Err(Fault::AddressOutOfBounds), chip8.put_vx_decimal_digits_into_memory(0x1));
    assert_eq!(before, snapshot(&chip8));

    chip8.index_register = 0x0FFD;
    chip8.variable_registers[0x1] = 123;
    assert_eq!(Ok(()), chip8.put_vx_decimal_digits_into_memory(0x1));
    assert_eq!([1, 2, 3], chip8.ram[0xFFD..0x1000]);
}

#[test]
fn storing_registers_beyond_memory_is_out_of_bounds() {
    let mut chip8 = busy_machine(EmulatorType::CosmacVip);
    chip8.index_register = 0x0FF1;
    let before = snapshot(&chip8);

    assert_eq!(Err(Fault::AddressOutOfBounds), chip8.store_variable_registers_to_memory(0xF));
    assert_eq!(before, snapshot(&chip8));

    assert_eq!(Ok(()), chip8.store_variable_registers_to_memory(0xE));
    assert_eq!(0x2E, chip8.ram[0xFFF]);
    assert_eq!(0x1000, chip8.index_register);
}

#[test]
fn loading_registers_beyond_memory_is_out_of_bounds() {
    let mut chip8 = busy_machine(EmulatorType::Chip48);
    chip8.index_register = 0x0FFF;
    chip8.ram[0xFFF] = 0x5C;
    let before = snapshot(&chip8);

    assert_eq!(Err(Fault::AddressOutOfBounds), chip8.load_variable_registers_from_memory(0x1));
    assert_eq!(before, snapshot(&chip8));

    assert_eq!(Ok(()), chip8.load_variable_registers_from_memory(0x0));
    assert_eq!(0x5C, chip8.variable_registers[0x0]);
    assert_eq!(0x21, chip8.variable_registers[0x1]);
    assert_eq!(0x0FFF, chip8.index_register);
}

#[test]
fn out_of_bounds_store_instruction_leaves_no_trace() {
    let mut chip8 = busy_machine(EmulatorType::CosmacVip);
    chip8.index_register = 0xFFFF;
    chip8.load_program(&[0xF0, 0x55]).unwrap();

    assert_faults_without_a_trace(chip8, Fault::AddressOutOfBounds);
}

#[test]
fn a_program_that_does_not_fit_is_out_of_bounds() {
    let mut chip8 = busy_machine(EmulatorType::CosmacVip);
    let before = snapshot(&chip8);

    let too_long = vec![0xAA; MAX_PROGRAM_SIZE + 1];
    assert_eq!(Err(Fault::AddressOutOfBounds), chip8.load_program(&too_long));

    assert_eq!(before, snapshot(&chip8));
}

#[test]
fn a_program_that_fills_memory_fits() {
    let mut chip8 = busy_machine(EmulatorType::CosmacVip);
    assert_eq!(3584, MAX_PROGRAM_SIZE);

    let program = vec![0xAA; MAX_PROGRAM_SIZE];
    assert_eq!(Ok(()), chip8.load_program(&program));

    assert_eq!(0x00, chip8.ram[0x1FF]);
    assert_eq!(0xAA, chip8.ram[0x200]);
    assert_eq!(0xAA, chip8.ram[0xFFF]);
}

#[test]
fn an_empty_program_changes_nothing() {
    let mut chip8 = busy_machine(EmulatorType::CosmacVip);
    let before = snapshot(&chip8);

    assert_eq!(Ok(()), chip8.load_program(&[]));

    assert_eq!(before, snapshot(&chip8));
}

#[test]
fn a_key_index_beyond_the_keypad_is_out_of_range() {
    let mut chip8 = busy_machine(EmulatorType::CosmacVip);
    chip8.variable_registers[0x1] = 0x10;
    let before = snapshot(&chip8);

    assert_eq!(Err(Fault::KeyOutOfRange), chip8.skip_if_key_down(0x1));
    assert_eq!(Err(Fault::KeyOutOfRange), chip8.skip_if_key_up(0x1));
    assert_eq!(before, snapshot(&chip8));

    chip8.variable_registers[0x1] = 0x0F;
    assert_eq!(Ok(()), chip8.skip_if_key_down(0x1));
    assert_eq!(before.program_counter, chip8.program_counter);
    assert_eq!(Ok(()), chip8.skip_if_key_up(0x1));
    assert_eq!(before.program_counter + 2, chip8.program_counter);
}

#[test]
fn out_of_range_key_instruction_leaves_no_trace() {
    let mut chip8 = busy_machine(EmulatorType::CosmacVip);
    chip8.variable_registers[0x2] = 0xFF;
    chip8.load_program(&[0xE2, 0xA1]).unwrap();

    assert_faults_without_a_trace(chip8, Fault::KeyOutOfRange);
}
