use chip8uwu::chip8::{DecodeError, ExecutionError, MachineFault, State};

const MEMORY_FAULT: Result<(), ExecutionError> =
    Err(ExecutionError::Fault(MachineFault::MemoryOutOfRange));

fn loaded(rom: &[u8]) -> State {
    let mut state = State::new();
    state.load_rom(rom);
    state
}

fn run(state: &mut State, steps: usize) {
    for _ in 0..steps {
        state.emulate().unwrap();
    }
}

fn pixel(state: &State, x: usize, y: usize) -> bool {
    let frame = state.frame_grayscale();
    assert_eq!(frame.len(), 2048);
    match frame[y * 64 + x] {
        0xff => true,
        0x00 => false,
        other => panic!("a pixel is neither lit nor dark: {other}"),
    }
}

fn lit_pixels(state: &State) -> Vec<(usize, usize)> {
    let mut lit = Vec::new();
    for y in 0..32 {
        for x in 0..64 {
            if pixel(state, x, y) {
                lit.push((x, y));
            }
        }
    }
    lit
}

#[test]
fn emu_set_i() {
    let rom = vec![0xa1, 0x23]; // MVI I,#$123
    let mut state = State::new();
    state.load_rom(&rom);

    state.emulate().unwrap();
    assert_eq!(0x0123, state.i());
}

#[test]
fn emu_mov_bcd() {
    let rom = vec![
        0xa3, 0x00, // MVI    I,#$300
        0x61, 0x7b, // MVI    V1,#$7b
        0xf1, 0x33, // MOVBCD V1
    ];
    let mut state = State::new();
    state.load_rom(&rom);

    state.emulate().unwrap();
    state.emulate().unwrap();
    state.emulate().unwrap(); // emulate all 3 instructions
    let hundreds = state.memory()[state.i() as usize];
    let tens = state.memory()[state.i() as usize + 1];
    let ones = state.memory()[state.i() as usize + 2];
    assert_eq!((0x01, 0x02, 0x03), (hundreds, tens, ones));
}

#[test]
fn new_machine_is_cleared() {
    let state = State::new();
    assert!(!state.rom_loaded());
    assert_eq!(state.pc(), 0x200);
    assert_eq!(state.i(), 0);
    assert_eq!(state.sp(), 0);
    assert_eq!(state.delay(), 0);
    assert_eq!(state.sound(), 0);
    assert_eq!(state.registers(), &[0u8; 16]);
    assert_eq!(state.keyboard(), &[false; 16]);
    assert!(state.memory().iter().all(|byte| *byte == 0));
    assert!(state.stack().is_empty());
}

#[test]
fn load_rom_installs_font_and_program() {
    let state = loaded(&[0xa1, 0x23, 0x45]);
    assert!(state.rom_loaded());
    assert_eq!(state.pc(), 0x200);
    let memory = state.memory();
    assert_eq!(&memory[0..5], &[0xf0, 0x90, 0x90, 0x90, 0xf0]);
    assert_eq!(&memory[5..10], &[0x20, 0x60, 0x20, 0x20, 0x70]);
    assert_eq!(&memory[0x23..0x28], &[0xf0, 0x10, 0x20, 0x40, 0x40]);
    assert_eq!(&memory[75..80], &[0xf0, 0x80, 0xf0, 0x80, 0x80]);
    assert!(memory[80..0x200].iter().all(|byte| *byte == 0));
    assert_eq!(&memory[0x200..0x203], &[0xa1, 0x23, 0x45]);
    assert!(memory[0x203..].iter().all(|byte| *byte == 0));
}

#[test]
fn load_rom_resets_the_machine() {
    let mut state = loaded(&[0x61, 0x7b, 0x23, 0x00, 0xf1, 0x15]);
    state.set_keypad([true; 16]);
    run(&mut state, 2);
    assert_eq!(state.registers()[1], 0x7b);
    assert_eq!(state.sp(), 1);
    state.load_rom(&[0x00, 0xe0]);
    assert_eq!(state.registers(), &[0u8; 16]);
    assert_eq!(state.keyboard(), &[false; 16]);
    assert_eq!(state.sp(), 0);
    assert_eq!(state.pc(), 0x200);
    assert_eq!(&state.memory()[0x200..0x206], &[0x00, 0xe0, 0, 0, 0, 0]);
}

#[test]
fn load_rom_cuts_off_what_does_not_fit() {
    let rom: Vec<u8> = (0..5000usize).map(|k| (k % 251) as u8 + 1).collect();
    let state = loaded(&rom);
    let memory = state.memory();
    for k in 0..3584 {
        assert_eq!(memory[0x200 + k], rom[k]);
    }
    assert_eq!(&memory[0..5], &[0xf0, 0x90, 0x90, 0x90, 0xf0]);
}

#[test]
fn load_rom_takes_a_program_that_fills_memory() {
    let rom = vec![0xab; 3584];
    let state = loaded(&rom);
    assert!(state.memory()[0x200..].iter().all(|byte| *byte == 0xab));
    let state = loaded(&[]);
    assert!(state.memory()[0x200..].iter().all(|byte| *byte == 0));
}

#[test]
fn set_i_advances_the_program_counter() {
    let mut state = loaded(&[0xa1, 0x23]);
    assert_eq!(state.emulate(), Ok(()));
    assert_eq!(state.i(), 0x123);
    assert_eq!(state.pc(), 0x202);
}

#[test]
fn bcd_store_writes_three_digits() {
    let mut state = loaded(&[0xa3, 0x00, 0x61, 0x7b, 0xf1, 0x33]);
    run(&mut state, 3);
    assert_eq!(&state.memory()[0x300..0x303], &[1, 2, 3]);
    assert_eq!(state.pc(), 0x206);

    let mut state = loaded(&[0xa3, 0x00, 0x61, 0xff, 0xf1, 0x33, 0x61, 0x07, 0xf1, 0x33]);
    run(&mut state, 3);
    assert_eq!(&state.memory()[0x300..0x303], &[2, 5, 5]);
    run(&mut state, 2);
    assert_eq!(&state.memory()[0x300..0x303], &[0, 0, 7]);
}

#[test]
fn get_key_holds_the_program_counter_until_a_key_is_down() {
    let mut state = loaded(&[0xf1, 0x0a]);
    for _ in 0..10 {
        assert_eq!(state.emulate(), Ok(()));
        assert_eq!(state.pc(), 0x200);
        assert_eq!(state.registers()[1], 0);
    }
    let mut keys = [false; 16];
    keys[5] = true;
    state.set_keypad(keys);
    assert_eq!(state.emulate(), Ok(()));
    assert_eq!(state.registers()[1], 5);
    assert_eq!(state.pc(), 0x202);
}

#[test]
fn get_key_takes_the_lowest_key_that_is_down() {
    let mut state = loaded(&[0xf2, 0x0a, 0xf3, 0x0a]);
    let mut keys = [false; 16];
    keys[0xf] = true;
    keys[0x9] = true;
    keys[0xc] = true;
    state.set_keypad(keys);
    run(&mut state, 1);
    assert_eq!(state.registers()[2], 0x9);
    let mut keys = [false; 16];
    keys[0] = true;
    state.set_keypad(keys);
    run(&mut state, 1);
    assert_eq!(state.registers()[3], 0);
    assert_eq!(state.pc(), 0x204);
}

#[test]
fn call_pushes_the_return_address_and_rts_pops_it() {
    let mut rom = vec![0u8; 0x102];
    rom[0] = 0x23; // CALL $300
    rom[1] = 0x00;
    rom[0x100] = 0x00; // RTS
    rom[0x101] = 0xee;
    let mut state = loaded(&rom);
    run(&mut state, 1);
    assert_eq!(state.pc(), 0x300);
    assert_eq!(state.sp(), 1);
    assert_eq!(state.stack(), vec![0x202]);
    run(&mut state, 1);
    assert_eq!(state.pc(), 0x202);
    assert_eq!(state.sp(), 0);
    assert!(state.stack().is_empty());
}

#[test]
fn return_on_an_empty_stack_is_a_fault() {
    let mut state = loaded(&[0x00, 0xee]);
    assert_eq!(
        state.emulate(),
        Err(ExecutionError::Fault(MachineFault::StackUnderflow))
    );
    assert_eq!(state.pc(), 0x200);
    assert_eq!(state.sp(), 0);
}

#[test]
fn seventeenth_nested_call_is_a_fault() {
    // CALL $200: the program calls itself
    let mut state = loaded(&[0x22, 0x00]);
    for depth in 1..=16 {
        assert_eq!(state.emulate(), Ok(()));
        assert_eq!(state.sp(), depth);
    }
    assert_eq!(
        state.emulate(),
        Err(ExecutionError::Fault(MachineFault::StackOverflow))
    );
    assert_eq!(state.sp(), 16);
    assert_eq!(state.pc(), 0x200);
    assert_eq!(state.stack(), vec![0x202; 16]);
}

#[test]
fn unknown_opcode_is_reported_and_changes_nothing() {
    let mut state = loaded(&[0x61, 0x05, 0xe0, 0x00]);
    run(&mut state, 1);
    let before = *state.memory();
    assert_eq!(
        state.emulate(),
        Err(ExecutionError::Decode(DecodeError { byte1: 0xe0, byte2: 0x00 }))
    );
    assert_eq!(state.pc(), 0x202);
    assert_eq!(state.registers()[1], 5);
    assert_eq!(*state.memory(), before);
    // the caller may go on asking; the answer stays the same
    assert_eq!(
        state.emulate(),
        Err(ExecutionError::Decode(DecodeError { byte1: 0xe0, byte2: 0x00 }))
    );
}

#[test]
fn fetch_past_the_end_of_memory_is_a_fault() {
    // JUMP $fff: the second byte of the next instruction would lie at $1000
    let mut state = loaded(&[0x1f, 0xff]);
    run(&mut state, 1);
    assert_eq!(state.pc(), 0xfff);
    assert_eq!(state.emulate(), MEMORY_FAULT);
    assert_eq!(state.pc(), 0xfff);
}

#[test]
fn running_off_the_end_of_memory_is_a_fault() {
    // V0 = 1 at $ffe is the last instruction in memory
    let mut rom = vec![0u8; 3584];
    rom[0] = 0x1f; // JUMP $ffe
    rom[1] = 0xfe;
    rom[3582] = 0x60;
    rom[3583] = 0x01;
    let mut state = loaded(&rom);
    run(&mut state, 2);
    assert_eq!(state.registers()[0], 1);
    assert_eq!(state.pc(), 0x1000);
    assert_eq!(state.emulate(), MEMORY_FAULT);
    assert_eq!(state.pc(), 0x1000);
}

#[test]
fn jump_plus_v0_adds_the_register() {
    let mut state = loaded(&[0x60, 0xff, 0xbf, 0xff]);
    run(&mut state, 2);
    assert_eq!(state.pc(), 0x10fe);
    assert_eq!(state.emulate(), MEMORY_FAULT);

    let mut state = loaded(&[0x60, 0x10, 0xb3, 0x00]);
    run(&mut state, 2);
    assert_eq!(state.pc(), 0x310);
}

#[test]
fn skips_on_literals_and_registers() {
    // V1 = 5; skip if V1 == 5 (taken); skip if V1 != 5 (not taken)
    let mut state = loaded(&[0x61, 0x05, 0x31, 0x05, 0x00, 0x00, 0x41, 0x05, 0x62, 0x05, 0x51, 0x20, 0x00, 0x00, 0x91, 0x20, 0x63, 0x06, 0x91, 0x30]);
    run(&mut state, 2);
    assert_eq!(state.pc(), 0x206);
    run(&mut state, 1);
    assert_eq!(state.pc(), 0x208);
    run(&mut state, 2); // V2 = 5; V1 == V2: skip
    assert_eq!(state.pc(), 0x20e);
    run(&mut state, 1); // V1 != V2 does not hold
    assert_eq!(state.pc(), 0x210);
    run(&mut state, 2); // V3 = 6; V1 != V3: skip
    assert_eq!(state.pc(), 0x216);

    let mut state = loaded(&[0x31, 0x01, 0x41, 0x00, 0x51, 0x20]);
    run(&mut state, 1);
    assert_eq!(state.pc(), 0x202);
    run(&mut state, 1);
    assert_eq!(state.pc(), 0x204);
    run(&mut state, 1);
    assert_eq!(state.pc(), 0x208);
}

#[test]
fn register_moves_and_logic() {
    let mut state = loaded(&[
        0x61, 0xcc, // V1 = cc
        0x62, 0xaa, // V2 = aa
        0x83, 0x10, // V3 = V1
        0x83, 0x21, // V3 |= V2
        0x84, 0x10, // V4 = V1
        0x84, 0x22, // V4 &= V2
        0x85, 0x10, // V5 = V1
        0x85, 0x23, // V5 ^= V2
        0x71, 0x40, // V1 += 40 (wraps, no flag)
    ]);
    run(&mut state, 9);
    let v = state.registers();
    assert_eq!(v[3], 0xee);
    assert_eq!(v[4], 0x88);
    assert_eq!(v[5], 0x66);
    assert_eq!(v[1], 0x0c);
    assert_eq!(v[0xf], 0);
    assert_eq!(state.pc(), 0x212);
}

/// For every pair of operands: loads them into V0 and V1, carries out the
/// instruction `8014 | low` and hands V0 and VF to `check`.
fn for_all_pairs(low: u8, check: fn(u8, u8, u8, u8)) {
    for a in 0..=255u8 {
        let mut rom = Vec::new();
        for b in 0..=255u8 {
            rom.extend_from_slice(&[0x60, a, 0x61, b, 0x80, 0x10 | low]);
        }
        let mut state = loaded(&rom);
        for b in 0..=255u8 {
            run(&mut state, 3);
            check(a, b, state.registers()[0], state.registers()[0xf]);
        }
    }
}

#[test]
fn add_sets_the_carry_for_every_pair() {
    for_all_pairs(0x4, |a, b, result, flag| {
        let sum = u16::from(a) + u16::from(b);
        assert_eq!(u16::from(result), sum % 256);
        assert_eq!(flag, if sum > 255 { 1 } else { 0 });
    });
}

#[test]
fn sub_sets_no_borrow_for_every_pair() {
    for_all_pairs(0x5, |a, b, result, flag| {
        let difference = (256 + i32::from(a) - i32::from(b)) % 256;
        assert_eq!(i32::from(result), difference);
        assert_eq!(flag, if a >= b { 1 } else { 0 });
    });
}

#[test]
fn subb_sets_no_borrow_for_every_pair() {
    for_all_pairs(0x7, |a, b, result, flag| {
        let difference = (256 + i32::from(b) - i32::from(a)) % 256;
        assert_eq!(i32::from(result), difference);
        assert_eq!(flag, if b >= a { 1 } else { 0 });
    });
}

#[test]
fn shifts_keep_the_bit_that_leaves_for_every_value() {
    for a in 0..=255u8 {
        let mut state = loaded(&[0x63, a, 0x83, 0x06, 0x64, a, 0x84, 0x0e]);
        run(&mut state, 2);
        assert_eq!(state.registers()[3], a / 2);
        assert_eq!(state.registers()[0xf], a % 2);
        run(&mut state, 2);
        assert_eq!(state.registers()[4], ((u16::from(a) * 2) % 256) as u8);
        assert_eq!(state.registers()[0xf], a / 128);
    }
}

#[test]
fn arithmetic_examples() {
    let mut state = loaded(&[
        0x60, 0xf0, 0x61, 0x20, 0x80, 0x14, // f0 + 20 = 10, carry
        0x62, 0x10, 0x63, 0x20, 0x82, 0x35, // 10 - 20 = f0, borrow
        0x64, 0x10, 0x65, 0x20, 0x84, 0x57, // 20 - 10 = 10, no borrow
        0x66, 0x81, 0x86, 0x06, // 81 >> 1 = 40, bit 1
        0x67, 0x81, 0x87, 0x0e, // 81 << 1 = 02, bit 1
    ]);
    run(&mut state, 3);
    assert_eq!((state.registers()[0], state.registers()[0xf]), (0x10, 1));
    run(&mut state, 3);
    assert_eq!((state.registers()[2], state.registers()[0xf]), (0xf0, 0));
    run(&mut state, 3);
    assert_eq!((state.registers()[4], state.registers()[0xf]), (0x10, 1));
    run(&mut state, 2);
    assert_eq!((state.registers()[6], state.registers()[0xf]), (0x40, 1));
    run(&mut state, 2);
    assert_eq!((state.registers()[7], state.registers()[0xf]), (0x02, 1));
}

#[test]
fn flag_overwrites_a_result_in_vf() {
    // VF = ff; V1 = 02; VF += V1: the sum 01 gives way to the carry 1
    let mut state = loaded(&[0x6f, 0xff, 0x61, 0x02, 0x8f, 0x14, 0x6f, 0x04, 0x8f, 0x06, 0x6f, 0x05, 0x8f, 0x15]);
    run(&mut state, 3);
    assert_eq!(state.registers()[0xf], 1);
    run(&mut state, 2); // VF = 04 >> 1: bit shifted out is 0
    assert_eq!(state.registers()[0xf], 0);
    run(&mut state, 2); // VF = 05 - 02: no borrow
    assert_eq!(state.registers()[0xf], 1);
}

#[test]
fn random_byte_is_masked_by_the_literal() {
    let mut state = loaded(&[0xc1, 0x0f, 0xc2, 0x00, 0xc3, 0xa5]);
    assert_eq!(state.emulate_with(0xab), Ok(()));
    assert_eq!(state.registers()[1], 0x0b);
    assert_eq!(state.emulate_with(0xff), Ok(()));
    assert_eq!(state.registers()[2], 0x00);
    assert_eq!(state.emulate_with(0xff), Ok(()));
    assert_eq!(state.registers()[3], 0xa5);
    assert_eq!(state.pc(), 0x206);
}

#[test]
fn random_instruction_draws_from_the_random_source() {
    let mut rom = Vec::new();
    for _ in 0..600 {
        rom.extend_from_slice(&[0xc1, 0x0f, 0xc2, 0xff]);
    }
    let mut state = loaded(&rom);
    let mut low = [false; 16];
    let mut all = [false; 256];
    for _ in 0..600 {
        run(&mut state, 2);
        assert!(state.registers()[1] <= 0x0f);
        low[state.registers()[1] as usize] = true;
        all[state.registers()[2] as usize] = true;
    }
    // 600 draws from sixteen values miss one of them about once in 10^15 runs
    assert!(low.iter().all(|seen| *seen));
    assert!(all.iter().filter(|seen| **seen).count() > 100);
}

#[test]
fn other_instructions_ignore_the_random_byte() {
    let rom = [0x61, 0x05, 0x71, 0x03, 0xa1, 0x23, 0xf1, 0x1e, 0x22, 0x0a];
    let mut a = loaded(&rom);
    let mut b = loaded(&rom);
    let mut c = loaded(&rom);
    for k in 0..5u8 {
        assert_eq!(a.emulate_with(k), Ok(()));
        assert_eq!(b.emulate_with(0xff - k), Ok(()));
        assert_eq!(c.emulate(), Ok(()));
        assert_eq!(a.registers(), b.registers());
        assert_eq!(a.registers(), c.registers());
        assert_eq!((a.pc(), a.i(), a.sp()), (b.pc(), b.i(), b.sp()));
        assert_eq!((a.pc(), a.i(), a.sp()), (c.pc(), c.i(), c.sp()));
    }
}

#[test]
fn timers_are_set_read_and_ticked() {
    let mut state = loaded(&[0x61, 0x02, 0xf1, 0x15, 0xf1, 0x18, 0xf2, 0x07, 0xf3, 0x07]);
    run(&mut state, 3);
    assert_eq!(state.delay(), 2);
    assert_eq!(state.sound(), 2);
    state.tick_delay_timer();
    assert_eq!(state.delay(), 1);
    assert_eq!(state.sound(), 2);
    run(&mut state, 1);
    assert_eq!(state.registers()[2], 1);
    state.tick_delay_timer();
    state.tick_delay_timer();
    state.tick_delay_timer();
    assert_eq!(state.delay(), 0);
    run(&mut state, 1);
    assert_eq!(state.registers()[3], 0);
}

#[test]
fn key_skips_test_the_key_named_by_the_register() {
    let rom = [0x61, 0x07, 0xe1, 0x9e, 0xe1, 0xa1, 0x00, 0x00, 0xe1, 0x9e];
    let mut state = loaded(&rom);
    run(&mut state, 2); // key 7 is up: no skip
    assert_eq!(state.pc(), 0x204);
    run(&mut state, 1); // key 7 is up: skip
    assert_eq!(state.pc(), 0x208);
    let mut keys = [false; 16];
    keys[7] = true;
    state.set_keypad(keys);
    assert_eq!(state.keyboard(), &keys);
    run(&mut state, 1); // key 7 is down: skip
    assert_eq!(state.pc(), 0x20c);

    let mut state = loaded(&[0x61, 0x07, 0xe1, 0xa1]);
    state.set_keypad(keys);
    run(&mut state, 2); // key 7 is down: no skip
    assert_eq!(state.pc(), 0x204);
}

#[test]
fn key_test_on_a_value_that_names_no_key_is_a_fault() {
    let fault = Err(ExecutionError::Fault(MachineFault::KeyOutOfRange));
    let mut state = loaded(&[0x61, 0x10, 0xe1, 0x9e]);
    run(&mut state, 1);
    assert_eq!(state.emulate(), fault);
    assert_eq!(state.pc(), 0x202);
    let mut state = loaded(&[0x61, 0xff, 0xe1, 0xa1]);
    run(&mut state, 1);
    assert_eq!(state.emulate(), fault);
    assert_eq!(state.pc(), 0x202);
}

#[test]
fn index_register_arithmetic() {
    // I = ffe; V1 = ff; I += V1
    let mut state = loaded(&[0xaf, 0xfe, 0x61, 0xff, 0xf1, 0x1e, 0x62, 0x0a, 0xf2, 0x29, 0x63, 0xff, 0xf3, 0x29]);
    run(&mut state, 3);
    assert_eq!(state.i(), 0x10fd);
    run(&mut state, 2); // glyph of digit a
    assert_eq!(state.i(), 50);
    assert_eq!(&state.memory()[50..55], &[0xf0, 0x90, 0xf0, 0x90, 0x90]);
    run(&mut state, 2); // no masking: ff * 5
    assert_eq!(state.i(), 1275);
}

#[test]
fn index_register_wraps_at_sixteen_bits() {
    // I = fff; V1 = ff; then I += V1 over and over
    let mut rom = vec![0xaf, 0xff, 0x61, 0xff];
    for _ in 0..241 {
        rom.extend_from_slice(&[0xf1, 0x1e]);
    }
    let mut state = loaded(&rom);
    run(&mut state, 2 + 240);
    assert_eq!(state.i(), 0x0fff + 240 * 255);
    run(&mut state, 1);
    assert_eq!(u32::from(state.i()), 0x0fff + 241 * 255 - 0x10000);
}

#[test]
fn registers_are_dumped_and_loaded_inclusive() {
    let mut state = loaded(&[
        0x60, 0x11, 0x61, 0x22, 0x62, 0x33, 0x63, 0x44, // V0..V3
        0xa3, 0x00, // I = 300
        0xf2, 0x55, // dump V0..V2
        0x60, 0x00, 0x61, 0x00, 0x62, 0x00, 0x63, 0x00, // clear
        0xf1, 0x65, // load V0..V1
    ]);
    run(&mut state, 6);
    assert_eq!(&state.memory()[0x300..0x304], &[0x11, 0x22, 0x33, 0x00]);
    assert_eq!(state.i(), 0x300);
    run(&mut state, 5);
    assert_eq!(&state.registers()[0..4], &[0x11, 0x22, 0x00, 0x00]);
    assert_eq!(state.i(), 0x300);
    assert_eq!(state.pc(), 0x216);
}

#[test]
fn all_sixteen_registers_are_dumped_by_vf() {
    let mut rom = Vec::new();
    for r in 0..16u8 {
        rom.extend_from_slice(&[0x60 | r, 0xa0 + r]);
    }
    rom.extend_from_slice(&[0xaf, 0xf0, 0xff, 0x55]);
    let mut state = loaded(&rom);
    run(&mut state, 18);
    let expected: Vec<u8> = (0..16u8).map(|r| 0xa0 + r).collect();
    assert_eq!(&state.memory()[0xff0..0x1000], &expected[..]);
}

#[test]
fn memory_operands_past_the_end_are_faults() {
    let fault = MEMORY_FAULT;
    // I = ffe: three digits do not fit
    let mut state = loaded(&[0xaf, 0xfe, 0xf1, 0x33]);
    run(&mut state, 1);
    let before = *state.memory();
    assert_eq!(state.emulate(), fault);
    assert_eq!(*state.memory(), before);
    assert_eq!(state.pc(), 0x202);
    // I = ffd: they do
    let mut state = loaded(&[0xaf, 0xfd, 0xf1, 0x33]);
    run(&mut state, 2);
    // I = ff1: sixteen registers do not fit, fifteen do
    let mut state = loaded(&[0xaf, 0xf1, 0xff, 0x55, 0xff, 0x65, 0xfe, 0x55, 0xfe, 0x65]);
    run(&mut state, 1);
    assert_eq!(state.emulate_with(0), fault);
    assert_eq!(state.pc(), 0x202);
    let mut state = loaded(&[0xaf, 0xf1, 0xff, 0x65]);
    run(&mut state, 1);
    assert_eq!(state.emulate(), fault);
    let mut state = loaded(&[0xaf, 0xf1, 0xfe, 0x55, 0xfe, 0x65]);
    run(&mut state, 3);
    // a sprite of two rows at fff
    let mut state = loaded(&[0xaf, 0xff, 0xd0, 0x02]);
    run(&mut state, 1);
    assert_eq!(state.emulate(), fault);
    assert_eq!(state.registers()[0xf], 0);
    let mut state = loaded(&[0xaf, 0xff, 0xd0, 0x01]);
    run(&mut state, 2);
}

#[test]
fn sprite_without_rows_reads_nothing() {
    // I = fff + ff: far outside, but a sprite of no rows is never read
    let mut state = loaded(&[0xaf, 0xff, 0x61, 0xff, 0xf1, 0x1e, 0x6f, 0x07, 0xd0, 0x00]);
    run(&mut state, 5);
    assert_eq!(state.registers()[0xf], 0);
    assert_eq!(state.pc(), 0x20a);
    assert!(lit_pixels(&state).is_empty());
}

#[test]
fn draw_plots_a_glyph() {
    // V1 = 0; I = glyph of V1; V2 = 3; V3 = 2; draw 5 rows at (3, 2)
    let mut state = loaded(&[0x61, 0x00, 0xf1, 0x29, 0x62, 0x03, 0x63, 0x02, 0xd2, 0x35]);
    run(&mut state, 5);
    assert_eq!(state.registers()[0xf], 0);
    let mut expected = Vec::new();
    // f0 90 90 90 f0
    for (row, columns) in [(0, vec![0, 1, 2, 3]), (1, vec![0, 3]), (2, vec![0, 3]), (3, vec![0, 3]), (4, vec![0, 1, 2, 3])] {
        for column in columns {
            expected.push((3 + column, 2 + row));
        }
    }
    assert_eq!(lit_pixels(&state), expected);
    // row 2 of the display starts at byte 16 of the framebuffer
    assert_eq!(state.framebuffer().len(), 256);
    assert_eq!(state.framebuffer()[16], 0b0001_1110);
    assert_eq!(state.framebuffer()[24], 0b0001_0010);
    assert_eq!(state.memory()[0xf00 + 16], 0b0001_1110);
    assert_eq!(state.pc(), 0x20a);
}

#[test]
fn draw_wraps_around_the_edges() {
    // a solid 8x2 block at (60, 31)
    let mut rom = vec![0xa3, 0x00, 0x61, 60, 0x62, 31, 0xd1, 0x22];
    rom.resize(0x100, 0);
    rom.extend_from_slice(&[0xff, 0xff]);
    let mut state = loaded(&rom);
    run(&mut state, 4);
    let mut expected = vec![];
    for x in [0, 1, 2, 3, 60, 61, 62, 63] {
        expected.push((x, 0));
    }
    for x in [0, 1, 2, 3, 60, 61, 62, 63] {
        expected.push((x, 31));
    }
    assert_eq!(lit_pixels(&state), expected);
    assert_eq!(state.registers()[0xf], 0);
}

#[test]
fn draw_takes_coordinates_modulo_the_display() {
    // (64 + 5, 32 + 6) is (5, 6)
    let mut rom = vec![0xa3, 0x00, 0x61, 69, 0x62, 38, 0xd1, 0x21];
    rom.resize(0x100, 0);
    rom.push(0x80);
    let mut state = loaded(&rom);
    run(&mut state, 4);
    assert_eq!(lit_pixels(&state), vec![(5, 6)]);
    // (255 + 7) mod 64 = 6 and 255 mod 32 = 31
    let mut rom = vec![0xa3, 0x00, 0x61, 255, 0x62, 255, 0xd1, 0x21];
    rom.resize(0x100, 0);
    rom.push(0x01);
    let mut state = loaded(&rom);
    run(&mut state, 4);
    assert_eq!(lit_pixels(&state), vec![(6, 31)]);
}

#[test]
fn drawing_twice_restores_the_display_and_collides_once() {
    // a solid block of 8x4 at (10, 20), drawn twice
    let mut rom = vec![0xa3, 0x00, 0x61, 10, 0x62, 20, 0xd1, 0x24, 0xd1, 0x24];
    rom.resize(0x100, 0);
    rom.extend_from_slice(&[0xff, 0xff, 0xff, 0xff]);
    let mut state = loaded(&rom);
    run(&mut state, 3);
    let before = *state.memory();
    run(&mut state, 1);
    assert_eq!(state.registers()[0xf], 0);
    assert_eq!(lit_pixels(&state).len(), 32);
    assert!(pixel(&state, 10, 20));
    assert!(pixel(&state, 17, 23));
    assert!(!pixel(&state, 18, 23));
    assert!(!pixel(&state, 10, 24));
    run(&mut state, 1);
    assert_eq!(state.registers()[0xf], 1);
    assert_eq!(*state.memory(), before);
    assert!(lit_pixels(&state).is_empty());
}

#[test]
fn overlapping_sprites_collide_where_both_are_set() {
    // 0xf0 at (0, 0), then 0x18 at (0, 0): pixel 3 goes out, pixel 4 comes on
    let mut rom = vec![0xa3, 0x00, 0xd0, 0x01, 0xa3, 0x01, 0xd0, 0x01, 0xa3, 0x02, 0xd0, 0x01];
    rom.resize(0x100, 0);
    rom.extend_from_slice(&[0xf0, 0x18, 0x40]);
    let mut state = loaded(&rom);
    run(&mut state, 2);
    assert_eq!(state.registers()[0xf], 0);
    assert_eq!(state.framebuffer()[0], 0xf0);
    run(&mut state, 2);
    assert_eq!(state.registers()[0xf], 1);
    assert_eq!(state.framebuffer()[0], 0xe8);
    // 0x40 at (0, 0) takes pixel 1 out again; then VF is the x coordinate
    run(&mut state, 2);
    assert_eq!(state.registers()[0xf], 1);
    assert_eq!(state.framebuffer()[0], 0xa8);
}

#[test]
fn flag_is_cleared_by_a_draw_without_collision() {
    let mut rom = vec![0x6f, 0x01, 0x61, 0x08, 0xa3, 0x00, 0xd1, 0x11];
    rom.resize(0x100, 0);
    rom.push(0xff);
    let mut state = loaded(&rom);
    run(&mut state, 4);
    assert_eq!(state.registers()[0xf], 0);
    assert_eq!(state.framebuffer()[8 * 8 + 1], 0xff);
}

#[test]
fn sprite_inside_the_framebuffer_sees_what_was_drawn() {
    // the sprite is the first two bytes of display row 0 and row 1 (bytes
    // f00 and f01 are one row): row 0 of the sprite is ff, drawn at (8, 0)
    // it sets byte f01, which is then read as row 1 of the sprite
    let mut rom = vec![0xa3, 0x00, 0xd0, 0x01, 0xaf, 0x00, 0x61, 0x08, 0xd1, 0x02];
    rom.resize(0x100, 0);
    rom.push(0xff);
    let mut state = loaded(&rom);
    run(&mut state, 5);
    assert_eq!(state.framebuffer()[0], 0xff);
    assert_eq!(state.framebuffer()[1], 0xff);
    // row 1 of the sprite was read after row 0 had been drawn
    assert_eq!(state.framebuffer()[9], 0xff);
    assert_eq!(state.registers()[0xf], 0);
}

#[test]
fn clear_screen_puts_out_every_pixel_and_nothing_else() {
    let mut rom = vec![0xa0, 0x00, 0xd0, 0x05, 0xa3, 0x00, 0x60, 0x07, 0xf0, 0x55, 0x00, 0xe0];
    rom.resize(0x100, 0);
    let mut state = loaded(&rom);
    run(&mut state, 5);
    assert!(!lit_pixels(&state).is_empty());
    let mut expected = *state.memory();
    run(&mut state, 1);
    for byte in expected[0xf00..].iter_mut() {
        *byte = 0;
    }
    assert_eq!(*state.memory(), expected);
    assert!(state.framebuffer().iter().all(|byte| *byte == 0));
    assert_eq!(state.memory()[0x300], 0x07);
    assert_eq!(state.pc(), 0x20c);
}

#[test]
fn register_dump_into_the_framebuffer_shows_on_the_display() {
    let mut state = loaded(&[0x60, 0x81, 0xaf, 0x00, 0xf0, 0x55]);
    run(&mut state, 3);
    assert_eq!(lit_pixels(&state), vec![(0, 0), (7, 0)]);
}

#[test]
fn frame_grayscale_follows_the_framebuffer_bit_by_bit() {
    // dump sixteen registers with a pattern into the middle of the display
    let mut rom = Vec::new();
    for r in 0..16u8 {
        rom.extend_from_slice(&[0x60 | r, r.wrapping_mul(37) ^ 0x5a]);
    }
    rom.extend_from_slice(&[0xaf, 0x80, 0xff, 0x55]);
    let mut state = loaded(&rom);
    run(&mut state, 18);
    let frame = state.frame_grayscale();
    assert_eq!(frame.len(), 64 * 32);
    for (k, value) in frame.iter().enumerate() {
        let byte = state.memory()[0xf00 + k / 8];
        let lit = byte & (0x80 >> (k % 8)) != 0;
        assert_eq!(*value, if lit { 0xff } else { 0x00 });
    }
    assert_eq!(frame.iter().filter(|value| **value == 0xff).count(), {
        let mut ones = 0;
        for byte in state.framebuffer() {
            ones += byte.count_ones() as usize;
        }
        ones
    });
}

#[test]
fn any_program_runs_without_leaving_memory() {
    // programs of scrambled bytes: every step either executes or reports
    let mut seed: u32 = 0x2545_f491;
    for _ in 0..40 {
        let mut rom = vec![0u8; 3584];
        for byte in rom.iter_mut() {
            seed ^= seed << 13;
            seed ^= seed >> 17;
            seed ^= seed << 5;
            *byte = (seed >> 11) as u8;
        }
        let mut state = loaded(&rom);
        let mut keys = [false; 16];
        keys[(seed % 16) as usize] = true;
        state.set_keypad(keys);
        for _ in 0..2000 {
            let pc = state.pc();
            let sp = state.sp();
            let registers = *state.registers();
            match state.emulate() {
                Ok(()) => {}
                Err(_) => {
                    assert_eq!(state.pc(), pc);
                    assert_eq!(state.sp(), sp);
                    assert_eq!(*state.registers(), registers);
                    // skip the instruction, as a host may decide to
                    let next = if pc >= 0xffe { 0x200 } else { pc + 2 };
                    let mut image = state.memory().to_vec();
                    image[0x200] = 0x10 | (next >> 8) as u8;
                    image[0x201] = next as u8;
                    let rest = image[0x200..].to_vec();
                    state.load_rom(&rest);
                }
            }
            assert!(state.sp() <= 16);
            assert_eq!(state.stack().len(), state.sp() as usize);
            assert_eq!(state.memory().len(), 4096);
        }
    }
}
