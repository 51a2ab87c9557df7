use chip_8_emu::emulator::{ChipEmulator, ChipEmulatorConfig};
use chip_8_emu::keypad::ChipKey;
use chip_8_emu::state::{ChipFault, StepOutcome};

fn fresh() -> ChipEmulator {
    ChipEmulator::initialize(ChipEmulatorConfig::default())
}

fn fresh_with(rom: &[u8]) -> ChipEmulator {
    let mut emulator = fresh();
    emulator.load_rom(&rom.to_vec());
    emulator
}

#[test]
fn initialize_state() {
    let mut emulator = fresh();
    assert_eq!(emulator.get_program_counter(), 0x200);
    assert_eq!(emulator.get_index_pointer(), 0);
    assert_eq!(emulator.get_delay_timer(), 0);
    assert!(!emulator.get_bell_status());
    for x in 0..16 {
        assert_eq!(emulator.get_register(x), 0);
    }
    // The font's first glyph sits at the reserved low region.
    assert_eq!(emulator.get_memory_byte(0x50), 0xF0);
    assert_eq!(emulator.get_memory_byte(0x51), 0x90);
    assert_eq!(emulator.get_memory_byte(0x54), 0xF0);
    // The last glyph ends at 0x9F; around the region memory is zero.
    assert_eq!(emulator.get_memory_byte(0x9F), 0x80);
    assert_eq!(emulator.get_memory_byte(0x4F), 0x00);
    assert_eq!(emulator.get_memory_byte(0xA0), 0x00);
    // The framebuffer starts zeroed and counts as updated once.
    let (buffer, updated) = emulator.get_video_buffer();
    assert_eq!(buffer.len(), 64 * 32);
    assert!(buffer.iter().all(|&p| p == 0));
    assert!(updated);
    let (_, updated_again) = emulator.get_video_buffer();
    assert!(!updated_again);
}

#[test]
fn load_rom_places_bytes_and_resets_pc() {
    let mut emulator = fresh();
    emulator.load_rom(&vec![0xAA, 0xBB, 0xCC]);
    assert_eq!(emulator.get_memory_byte(0x200), 0xAA);
    assert_eq!(emulator.get_memory_byte(0x201), 0xBB);
    assert_eq!(emulator.get_memory_byte(0x202), 0xCC);
    assert_eq!(emulator.get_memory_byte(0x203), 0x00);
    assert_eq!(emulator.get_program_counter(), 0x200);
}

#[test]
fn cycle_duration_from_rate() {
    let emulator = fresh();
    // 700 instructions per second -> 1_428_571 ns per instruction.
    assert_eq!(emulator.get_cycle_duration(), 1_000_000_000 / 700);
}

#[test]
fn clear_screen_scenario() {
    // Load the two-byte clear-screen program; after one step the
    // framebuffer is all zero, the dirty flag is set, and the program
    // counter has advanced to 0x202.
    let mut emulator = fresh_with(&[0x00, 0xE0]);
    let _ = emulator.get_video_buffer();  // drain the initial dirty flag
    let outcome = emulator.step_at(0, 0);
    assert_eq!(outcome, Ok(StepOutcome::Executed));
    let (buffer, updated) = emulator.get_video_buffer();
    assert!(buffer.iter().all(|&p| p == 0));
    assert!(updated);
    assert_eq!(emulator.get_program_counter(), 0x202);
}

#[test]
fn alu_sub_no_borrow_scenario() {
    // Register 5 holds 0x05, its partner register 6 holds 0x03; the
    // subtract leaves 0x02 in register 5 and 1 (no borrow) in the flag.
    let mut emulator = fresh_with(&[0x85, 0x65]);
    emulator.set_register(5, 0x05);
    emulator.set_register(6, 0x03);
    assert_eq!(emulator.step_at(0, 0), Ok(StepOutcome::Executed));
    assert_eq!(emulator.get_register(5), 0x02);
    assert_eq!(emulator.get_register(15), 1);
}

#[test]
fn alu_sub_borrow() {
    let mut emulator = fresh_with(&[0x85, 0x65]);
    emulator.set_register(5, 3);
    emulator.set_register(6, 5);
    assert_eq!(emulator.step_at(0, 0), Ok(StepOutcome::Executed));
    assert_eq!(emulator.get_register(5), 254);
    assert_eq!(emulator.get_register(15), 0);
}

#[test]
fn await_key_rewinds_pc() {
    // With no key latched the await-key instruction leaves the program
    // counter where it was: fetch advanced it by 2, execute rewound it.
    let mut emulator = fresh_with(&[0xF5, 0x0A]);
    emulator.update_key(None);
    assert_eq!(emulator.step_at(0, 0), Ok(StepOutcome::Executed));
    assert_eq!(emulator.get_program_counter(), 0x200);
    // Once a key is latched, its code lands in the register and the
    // program counter moves on.
    emulator.update_key(Some(ChipKey::Key7));
    assert_eq!(emulator.step_at(0, 0), Ok(StepOutcome::Executed));
    assert_eq!(emulator.get_register(5), 0x07);
    assert_eq!(emulator.get_program_counter(), 0x202);
}

#[test]
fn timer_decrements_once_across_two_close_steps() {
    // Two steps a thirtieth of a second apart: the delay timer falls by at
    // least one but not by two, since a tick is due only when a sixtieth
    // of a second has passed since the previous tick.
    let mut emulator = fresh_with(&[0x12, 0x00]);  // jump-to-self
    emulator.set_delay_timer(10);
    assert_eq!(emulator.step_at(0, 0), Ok(StepOutcome::Executed));
    assert_eq!(emulator.step_at(33_333_333, 0), Ok(StepOutcome::Executed));
    assert_eq!(emulator.get_delay_timer(), 9);
}

#[test]
fn timer_ticks_when_interval_elapsed() {
    let mut emulator = fresh_with(&[0x12, 0x00]);
    emulator.set_delay_timer(2);
    assert_eq!(emulator.step_at(16_666_667, 0), Ok(StepOutcome::Executed));
    assert_eq!(emulator.get_delay_timer(), 1);
    // A step just short of the next interval does not tick again.
    assert_eq!(emulator.step_at(16_666_667 + 16_666_666, 0), Ok(StepOutcome::Executed));
    assert_eq!(emulator.get_delay_timer(), 1);
    // Timers floor at zero.
    assert_eq!(emulator.step_at(2 * 16_666_667, 0), Ok(StepOutcome::Executed));
    assert_eq!(emulator.step_at(4 * 16_666_667, 0), Ok(StepOutcome::Executed));
    assert_eq!(emulator.step_at(6 * 16_666_667, 0), Ok(StepOutcome::Executed));
    assert_eq!(emulator.get_delay_timer(), 0);
}

#[test]
fn add_imm_wraps_and_leaves_flag_alone() {
    // 0x75 0xFF: add 0xFF to register 5; 3 + 255 = 258 = 2 mod 256, and
    // the flag register is not written.
    let mut emulator = fresh_with(&[0x75, 0xFF]);
    emulator.set_register(5, 3);
    emulator.set_register(15, 0x5A);
    assert_eq!(emulator.step_at(0, 0), Ok(StepOutcome::Executed));
    assert_eq!(emulator.get_register(5), 2);
    assert_eq!(emulator.get_register(15), 0x5A);
}

#[test]
fn shift_right_flag_is_shifted_out_bit() {
    // Copy-on-shift is disabled by default: register 5 becomes its old
    // value shifted right, the flag the bit shifted out.
    let mut emulator = fresh_with(&[0x85, 0x66]);
    emulator.set_register(5, 0b0000_1011);
    emulator.set_register(6, 0xEE);
    assert_eq!(emulator.step_at(0, 0), Ok(StepOutcome::Executed));
    assert_eq!(emulator.get_register(5), 0b0000_0101);
    assert_eq!(emulator.get_register(15), 1);
}

#[test]
fn shift_right_copies_partner_when_configured() {
    let config = ChipEmulatorConfig { copy_y_on_shift: true, ..Default::default() };
    let mut emulator = ChipEmulator::initialize(config);
    emulator.load_rom(&vec![0x85, 0x66]);
    emulator.set_register(5, 0xFF);
    emulator.set_register(6, 9);
    assert_eq!(emulator.step_at(0, 0), Ok(StepOutcome::Executed));
    assert_eq!(emulator.get_register(5), 4);
    assert_eq!(emulator.get_register(15), 1);
}

#[test]
fn shift_left_flag_is_high_bit() {
    let mut emulator = fresh_with(&[0x85, 0x6E]);
    emulator.set_register(5, 0b1100_0001);
    assert_eq!(emulator.step_at(0, 0), Ok(StepOutcome::Executed));
    assert_eq!(emulator.get_register(5), 0b1000_0010);
    assert_eq!(emulator.get_register(15), 1);
}

#[test]
fn alu_add_sets_carry() {
    let mut emulator = fresh_with(&[0x85, 0x64]);
    emulator.set_register(5, 200);
    emulator.set_register(6, 100);
    assert_eq!(emulator.step_at(0, 0), Ok(StepOutcome::Executed));
    assert_eq!(emulator.get_register(5), 44);
    assert_eq!(emulator.get_register(15), 1);
}

#[test]
fn alu_bitwise_ops() {
    let mut emulator = fresh_with(&[0x85, 0x61, 0x85, 0x62, 0x85, 0x63, 0x85, 0x60]);
    emulator.set_register(5, 0b1010);
    emulator.set_register(6, 0b0110);
    assert_eq!(emulator.step_at(0, 0), Ok(StepOutcome::Executed));
    assert_eq!(emulator.get_register(5), 0b1110);  // or
    emulator.set_register(5, 0b1010);
    assert_eq!(emulator.step_at(0, 0), Ok(StepOutcome::Executed));
    assert_eq!(emulator.get_register(5), 0b0010);  // and
    emulator.set_register(5, 0b1010);
    assert_eq!(emulator.step_at(0, 0), Ok(StepOutcome::Executed));
    assert_eq!(emulator.get_register(5), 0b1100);  // xor
    emulator.set_register(5, 0b1010);
    assert_eq!(emulator.step_at(0, 0), Ok(StepOutcome::Executed));
    assert_eq!(emulator.get_register(5), 0b0110);  // assign
}

#[test]
fn random_and_masks_the_drawn_byte() {
    let mut emulator = fresh_with(&[0xC5, 0x0F]);
    assert_eq!(emulator.step_at(0, 0xAB), Ok(StepOutcome::Executed));
    assert_eq!(emulator.get_register(5), 0x0B);
}

#[test]
fn jump_and_call_and_return() {
    // 0x200: call 0x204; 0x204: return; then 0x202: jump 0x208.
    let mut emulator = fresh_with(&[0x22, 0x04, 0x12, 0x08, 0x00, 0xEE]);
    assert_eq!(emulator.step_at(0, 0), Ok(StepOutcome::Executed));
    assert_eq!(emulator.get_program_counter(), 0x204);
    assert_eq!(emulator.step_at(0, 0), Ok(StepOutcome::Executed));
    assert_eq!(emulator.get_program_counter(), 0x202);
    assert_eq!(emulator.step_at(0, 0), Ok(StepOutcome::Executed));
    assert_eq!(emulator.get_program_counter(), 0x208);
}

#[test]
fn return_on_empty_stack_is_fatal() {
    let mut emulator = fresh_with(&[0x00, 0xEE]);
    assert_eq!(emulator.step_at(0, 0), Err(ChipFault::StackUnderflow));
}

#[test]
fn fetch_outside_memory_is_fatal() {
    // Jump to 0xFFF: the next fetch would read bytes 0xFFF and 0x1000.
    let mut emulator = fresh_with(&[0x1F, 0xFF]);
    assert_eq!(emulator.step_at(0, 0), Ok(StepOutcome::Executed));
    assert_eq!(emulator.step_at(0, 0), Err(ChipFault::MemoryOutOfBounds));
}

#[test]
fn store_registers_outside_memory_is_fatal() {
    // Set the index register to 0xFFF, then store registers 0..=5 there.
    let mut emulator = fresh_with(&[0xAF, 0xFF, 0xF5, 0x55]);
    assert_eq!(emulator.step_at(0, 0), Ok(StepOutcome::Executed));
    assert_eq!(emulator.step_at(0, 0), Err(ChipFault::MemoryOutOfBounds));
}

#[test]
fn skip_instructions() {
    let mut emulator = fresh_with(&[0x35, 0x07]);
    emulator.set_register(5, 0x07);
    assert_eq!(emulator.step_at(0, 0), Ok(StepOutcome::Executed));
    assert_eq!(emulator.get_program_counter(), 0x204);

    let mut emulator = fresh_with(&[0x35, 0x07]);
    emulator.set_register(5, 0x08);
    assert_eq!(emulator.step_at(0, 0), Ok(StepOutcome::Executed));
    assert_eq!(emulator.get_program_counter(), 0x202);

    let mut emulator = fresh_with(&[0x45, 0x07]);
    emulator.set_register(5, 0x08);
    assert_eq!(emulator.step_at(0, 0), Ok(StepOutcome::Executed));
    assert_eq!(emulator.get_program_counter(), 0x204);

    let mut emulator = fresh_with(&[0x55, 0x60]);
    emulator.set_register(5, 9);
    emulator.set_register(6, 9);
    assert_eq!(emulator.step_at(0, 0), Ok(StepOutcome::Executed));
    assert_eq!(emulator.get_program_counter(), 0x204);

    let mut emulator = fresh_with(&[0x95, 0x60]);
    emulator.set_register(5, 9);
    emulator.set_register(6, 8);
    assert_eq!(emulator.step_at(0, 0), Ok(StepOutcome::Executed));
    assert_eq!(emulator.get_program_counter(), 0x204);
}

#[test]
fn jump_with_offset_compatibility() {
    // By default the offset comes from register 0.
    let mut emulator = fresh_with(&[0xB3, 0x00]);
    emulator.set_register(0, 0x10);
    emulator.set_register(3, 0x40);
    assert_eq!(emulator.step_at(0, 0), Ok(StepOutcome::Executed));
    assert_eq!(emulator.get_program_counter(), 0x310);

    // With the compatibility setting, the register named by the address's
    // high nibble supplies the offset.
    let config = ChipEmulatorConfig { offset_jump_vx: true, ..Default::default() };
    let mut emulator = ChipEmulator::initialize(config);
    emulator.load_rom(&vec![0xB3, 0x00]);
    emulator.set_register(0, 0x10);
    emulator.set_register(3, 0x40);
    assert_eq!(emulator.step_at(0, 0), Ok(StepOutcome::Executed));
    assert_eq!(emulator.get_program_counter(), 0x340);
}

#[test]
fn set_imm_and_set_index() {
    let mut emulator = fresh_with(&[0x65, 0x42, 0xA1, 0x23]);
    assert_eq!(emulator.step_at(0, 0), Ok(StepOutcome::Executed));
    assert_eq!(emulator.get_register(5), 0x42);
    assert_eq!(emulator.step_at(0, 0), Ok(StepOutcome::Executed));
    assert_eq!(emulator.get_index_pointer(), 0x123);
}

#[test]
fn timers_move_through_registers() {
    let mut emulator = fresh_with(&[0xF5, 0x15, 0xF6, 0x07, 0xF5, 0x18]);
    emulator.set_register(5, 42);
    assert_eq!(emulator.step_at(0, 0), Ok(StepOutcome::Executed));
    assert_eq!(emulator.get_delay_timer(), 42);
    assert_eq!(emulator.step_at(0, 0), Ok(StepOutcome::Executed));
    assert_eq!(emulator.get_register(6), 42);
    assert!(!emulator.get_bell_status());
    assert_eq!(emulator.step_at(0, 0), Ok(StepOutcome::Executed));
    assert!(emulator.get_bell_status());
}

#[test]
fn add_to_index_reports_range_overflow() {
    let mut emulator = fresh_with(&[0xF5, 0x1E, 0xF5, 0x1E]);
    emulator.set_index_pointer(0xFF0);
    emulator.set_register(5, 0x08);
    assert_eq!(emulator.step_at(0, 0), Ok(StepOutcome::Executed));
    assert_eq!(emulator.get_index_pointer(), 0xFF8);
    assert_eq!(emulator.get_register(15), 0);
    emulator.set_register(5, 0x20);
    assert_eq!(emulator.step_at(0, 0), Ok(StepOutcome::Executed));
    assert_eq!(emulator.get_index_pointer(), 0x1018);
    assert_eq!(emulator.get_register(15), 1);
}

#[test]
fn font_char_addresses_glyph() {
    let mut emulator = fresh_with(&[0xF5, 0x29]);
    emulator.set_register(5, 0x0A);
    assert_eq!(emulator.step_at(0, 0), Ok(StepOutcome::Executed));
    assert_eq!(emulator.get_index_pointer(), 0x50 + 10 * 5);
    // The glyph's first row is the sprite byte of the digit A.
    assert_eq!(emulator.get_memory_byte(emulator.get_index_pointer()), 0xF0);
}

#[test]
fn store_bcd_writes_three_digits() {
    let mut emulator = fresh_with(&[0xF7, 0x33]);
    emulator.set_register(7, 234);
    emulator.set_index_pointer(0x300);
    assert_eq!(emulator.step_at(0, 0), Ok(StepOutcome::Executed));
    assert_eq!(emulator.get_memory_byte(0x300), 2);
    assert_eq!(emulator.get_memory_byte(0x301), 3);
    assert_eq!(emulator.get_memory_byte(0x302), 4);
}

#[test]
fn store_and_load_registers_round_trip() {
    let mut emulator = fresh_with(&[0xF3, 0x55, 0xF3, 0x65]);
    emulator.set_index_pointer(0x400);
    for x in 0..4 {
        emulator.set_register(x, 0x10 + x);
    }
    assert_eq!(emulator.step_at(0, 0), Ok(StepOutcome::Executed));
    for x in 0..4u16 {
        assert_eq!(emulator.get_memory_byte(0x400 + x), 0x10 + x as u8);
    }
    for x in 0..4 {
        emulator.set_register(x, 0);
    }
    assert_eq!(emulator.step_at(0, 0), Ok(StepOutcome::Executed));
    for x in 0..4 {
        assert_eq!(emulator.get_register(x), 0x10 + x);
    }
    // Registers past X are untouched by the load.
    assert_eq!(emulator.get_register(4), 0);
}

#[test]
fn skip_if_key_pressed_and_not_pressed() {
    let mut emulator = fresh_with(&[0xE5, 0x9E]);
    emulator.set_register(5, 0x07);
    emulator.update_key(Some(ChipKey::Key7));
    assert_eq!(emulator.step_at(0, 0), Ok(StepOutcome::Executed));
    assert_eq!(emulator.get_program_counter(), 0x204);

    let mut emulator = fresh_with(&[0xE5, 0x9E]);
    emulator.set_register(5, 0x07);
    emulator.update_key(None);
    assert_eq!(emulator.step_at(0, 0), Ok(StepOutcome::Executed));
    assert_eq!(emulator.get_program_counter(), 0x202);

    // skip-if-not-pressed also skips when no key is latched at all.
    let mut emulator = fresh_with(&[0xE5, 0xA1]);
    emulator.set_register(5, 0x07);
    emulator.update_key(None);
    assert_eq!(emulator.step_at(0, 0), Ok(StepOutcome::Executed));
    assert_eq!(emulator.get_program_counter(), 0x204);

    let mut emulator = fresh_with(&[0xE5, 0xA1]);
    emulator.set_register(5, 0x07);
    emulator.update_key(Some(ChipKey::Key7));
    assert_eq!(emulator.step_at(0, 0), Ok(StepOutcome::Executed));
    assert_eq!(emulator.get_program_counter(), 0x202);
}

#[test]
fn unrecognized_opcode_is_reported_and_skipped() {
    let mut emulator = fresh_with(&[0xFF, 0xFF, 0x65, 0x01]);
    emulator.set_register(5, 0);
    assert_eq!(emulator.step_at(0, 0), Ok(StepOutcome::Unrecognized));
    assert_eq!(emulator.get_program_counter(), 0x202);
    assert_eq!(emulator.get_register(5), 0);
    // Execution continues at the next instruction.
    assert_eq!(emulator.step_at(0, 0), Ok(StepOutcome::Executed));
    assert_eq!(emulator.get_register(5), 1);
}

#[test]
fn unrecognized_alu_selector_is_reported() {
    let mut emulator = fresh_with(&[0x85, 0x68]);
    emulator.set_register(5, 9);
    assert_eq!(emulator.step_at(0, 0), Ok(StepOutcome::Unrecognized));
    assert_eq!(emulator.get_register(5), 9);
    assert_eq!(emulator.get_program_counter(), 0x202);
}
