use chip_8_emulator::{
    Chip8, Chip8Key, EmulatorType, KeyState, OpCode, DISPLAY_HEIGHT, DISPLAY_WIDTH, FONT,
    MEMORY_SIZE, NUM_KEYS, PROGRAM_START_ADDRESS, STACK_SIZE, VARIABLE_REGISTER_COUNT,
};


#[test]
fn can_create_new_chip_8() {
    let chip8 = Chip8::new(EmulatorType::CosmacVip, rand::rng());

    let mut expected_ram = [0; MEMORY_SIZE];
    expected_ram[0x050..0x050 + FONT.len()].copy_from_slice(&FONT);

    let expected_frame_buffer = [0; DISPLAY_WIDTH * DISPLAY_HEIGHT];
    let expected_stack = [0; STACK_SIZE];
    let expected_stack_pointer = 0;
    let expected_delay_timer = 0;
    let expected_sound_timer = 0;
    let expected_program_counter = PROGRAM_START_ADDRESS;
    let expected_index_register = 0;
    let expected_variable_registers = [0; VARIABLE_REGISTER_COUNT];
    let expected_keypad = [KeyState::Up; NUM_KEYS];

    assert_eq!(expected_ram, chip8.ram);
    assert_eq!(expected_frame_buffer, chip8.frame_buffer);
    assert_eq!(expected_stack, chip8.stack);
    assert_eq!(expected_stack_pointer, chip8.stack_pointer);
    assert_eq!(expected_delay_timer, chip8.delay_timer);
    assert_eq!(expected_sound_timer, chip8.sound_timer);
    assert_eq!(expected_program_counter, chip8.program_counter);
    assert_eq!(expected_index_register, chip8.index_register);
    assert_eq!(expected_variable_registers, chip8.variable_registers);
    assert_eq!(EmulatorType::CosmacVip, chip8.emulator_type);
    assert_eq!(expected_keypad, chip8.keypad_state);
}

#[test]
fn can_create_new_chip_8_with_chip_48_type() {
    let chip8 = Chip8::new(EmulatorType::Chip48, rand::rng());

    assert_eq!(EmulatorType::Chip48, chip8.emulator_type);
}

#[test]
fn can_create_opcode() {
    let opcode = OpCode::new(0x1234);

    assert_eq!(0x1234, opcode.opcode);
    assert_eq!(2, opcode.x());
    assert_eq!(3, opcode.y());
    assert_eq!(4, opcode.n());
    assert_eq!(0x34, opcode.nn());
    assert_eq!(0x234, opcode.nnn());
}

#[test]
fn can_load_program() {
    let mut chip8 = Chip8::new(EmulatorType::CosmacVip, rand::rng());
    let program = [0x00, 0xE0, 0x12, 0x34, 0x56, 0x78];
    chip8.load_program(&program).unwrap();

    let start_address = PROGRAM_START_ADDRESS as usize;
    assert_eq!(program, chip8.ram[start_address..start_address + program.len()]);
}

#[test]
fn can_handle_key_down() {
    let mut chip8 = Chip8::new(EmulatorType::CosmacVip, rand::rng());

    assert_eq!(KeyState::Up, chip8.keypad_state[Chip8Key::C.key_index()]);

    chip8.key_down(Chip8Key::C);

    assert_eq!(KeyState::Down, chip8.keypad_state[Chip8Key::C.key_index()]);
}

#[test]
fn can_handle_key_up() {
    let mut chip8 = Chip8::new(EmulatorType::CosmacVip, rand::rng());

    chip8.key_down(Chip8Key::C);

    assert_eq!(KeyState::Down, chip8.keypad_state[Chip8Key::C.key_index()]);

    chip8.key_up(Chip8Key::C);

    assert_eq!(KeyState::Up, chip8.keypad_state[Chip8Key::C.key_index()]);
}

#[test]
fn can_get_key_state() {
    let key = Chip8Key::C;
    let mut chip8 = Chip8::new(EmulatorType::CosmacVip, rand::rng());

    chip8.key_down(key);
    assert_eq!(KeyState::Down, chip8.key_state(key));

    chip8.key_up(key);
    assert_eq!(KeyState::Up, chip8.key_state(key));
}

#[test]
fn can_decrement_timers() {
    let mut chip8 = Chip8::new(EmulatorType::CosmacVip, rand::rng());
    chip8.delay_timer = 100;
    chip8.sound_timer = 100;

    chip8.decrement_timers();

    assert_eq!(99, chip8.delay_timer);
    assert_eq!(99, chip8.sound_timer);
}

#[test]
fn decrement_timers_does_nothing_if_timers_are_at_zero() {
    let mut chip8 = Chip8::new(EmulatorType::CosmacVip, rand::rng());
    chip8.delay_timer = 0;
    chip8.sound_timer = 0;

    chip8.decrement_timers();

    assert_eq!(0, chip8.delay_timer);
    assert_eq!(0, chip8.sound_timer);
}

#[test]
fn can_fetch_next_opcode() {
    let mut chip8 = Chip8::new(EmulatorType::CosmacVip, rand::rng());
    chip8.ram[0x200] = 0x00;
    chip8.ram[0x201] = 0xE0;
    chip8.program_counter = 0x200;

    let opcode = chip8.fetch_next_opcode().unwrap();

    assert_eq!(0x00E0, opcode.opcode);
}
