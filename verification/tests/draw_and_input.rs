use chip_8_emu::emulator::{ChipEmulator, ChipEmulatorConfig};
use chip_8_emu::display::ConsoleDisplay;
use chip_8_emu::instruction::ChipInstruction;
use chip_8_emu::keypad::{ChipKey, SdlKeypad};
use chip_8_emu::state::StepOutcome;
use chip_8_emu::{SCREEN_HEIGHT, SCREEN_WIDTH};

fn fresh_with(rom: &[u8]) -> ChipEmulator {
    let mut emulator = ChipEmulator::initialize(ChipEmulatorConfig::default());
    emulator.load_rom(&rom.to_vec());
    emulator
}

fn pixel(buffer: &[u8], col: usize, row: usize) -> u8 {
    buffer[row * SCREEN_WIDTH + col]
}

#[test]
fn draw_glyph_and_collision_flag() {
    // Draw the 5-row glyph 0 at (0, 0): its top row 0xF0 lights the four
    // leftmost pixels; the screen was dark, so no collision.
    let mut emulator = fresh_with(&[0xD0, 0x15]);
    emulator.set_index_pointer(0x50);
    assert_eq!(emulator.step_at(0, 0), Ok(StepOutcome::Executed));
    let (buffer, updated) = emulator.get_video_buffer();
    assert!(updated);
    for col in 0..4 {
        assert_eq!(pixel(&buffer, col, 0), 1);
    }
    for col in 4..8 {
        assert_eq!(pixel(&buffer, col, 0), 0);
    }
    // Row 1 of the glyph is 0x90.
    assert_eq!(pixel(&buffer, 0, 1), 1);
    assert_eq!(pixel(&buffer, 1, 1), 0);
    assert_eq!(pixel(&buffer, 2, 1), 0);
    assert_eq!(pixel(&buffer, 3, 1), 1);
    assert_eq!(emulator.get_register(15), 0);
}

#[test]
fn draw_twice_restores_screen() {
    // Drawing the same sprite at the same position twice in succession
    // restores the framebuffer, and the second draw collides with the
    // pixels its first pass lit.
    let mut emulator = fresh_with(&[0xD0, 0x15, 0xD0, 0x15]);
    emulator.set_index_pointer(0x50);
    assert_eq!(emulator.step_at(0, 0), Ok(StepOutcome::Executed));
    assert_eq!(emulator.get_register(15), 0);
    assert_eq!(emulator.step_at(0, 0), Ok(StepOutcome::Executed));
    assert_eq!(emulator.get_register(15), 1);
    let (buffer, _) = emulator.get_video_buffer();
    assert!(buffer.iter().all(|&p| p == 0));
}

#[test]
fn draw_wraps_start_position_and_columns() {
    // The start position wraps into range: (64+2, 32+1) behaves as (2, 1).
    let mut emulator = fresh_with(&[0xD0, 0x11]);
    emulator.set_register(0, 66);
    emulator.set_register(1, 33);
    emulator.set_index_pointer(0x50);
    assert_eq!(emulator.step_at(0, 0), Ok(StepOutcome::Executed));
    let (buffer, _) = emulator.get_video_buffer();
    for col in 2..6 {
        assert_eq!(pixel(&buffer, col, 1), 1);
    }

    // A sprite starting near the right edge wraps its columns around.
    let mut emulator = fresh_with(&[0xD0, 0x11]);
    emulator.set_register(0, 62);
    emulator.set_register(1, 0);
    emulator.set_index_pointer(0x50);
    assert_eq!(emulator.step_at(0, 0), Ok(StepOutcome::Executed));
    let (buffer, _) = emulator.get_video_buffer();
    assert_eq!(pixel(&buffer, 62, 0), 1);
    assert_eq!(pixel(&buffer, 63, 0), 1);
    assert_eq!(pixel(&buffer, 0, 0), 1);
    assert_eq!(pixel(&buffer, 1, 0), 1);
    assert_eq!(pixel(&buffer, 2, 0), 0);
}

#[test]
fn draw_clips_at_bottom() {
    // A 5-row sprite drawn at row 30 only draws rows 30 and 31: no
    // vertical wrap.
    let mut emulator = fresh_with(&[0xD0, 0x15]);
    emulator.set_register(1, 30);
    emulator.set_index_pointer(0x50);
    assert_eq!(emulator.step_at(0, 0), Ok(StepOutcome::Executed));
    let (buffer, _) = emulator.get_video_buffer();
    assert_eq!(pixel(&buffer, 0, 30), 1);
    assert_eq!(pixel(&buffer, 0, 31), 1);
    // Nothing wrapped to the top rows.
    for row in 0..3 {
        for col in 0..8 {
            assert_eq!(pixel(&buffer, col, row), 0);
        }
    }
    assert_eq!(SCREEN_HEIGHT, 32);
}

#[test]
fn draw_partial_collision() {
    // Light one pixel, then draw a glyph over it: the overlapping pixel
    // goes dark, the rest light up, and the flag reports the collision.
    let mut emulator = fresh_with(&[0xD0, 0x11, 0xD2, 0x31]);
    emulator.set_index_pointer(0x50);
    // First draw a one-row sprite at (0,0): pixels 0..4 on row 0.
    assert_eq!(emulator.step_at(0, 0), Ok(StepOutcome::Executed));
    // Now draw the same row at (2, 0) via registers 2 and 3.
    emulator.set_register(2, 2);
    emulator.set_register(3, 0);
    assert_eq!(emulator.step_at(0, 0), Ok(StepOutcome::Executed));
    assert_eq!(emulator.get_register(15), 1);
    let (buffer, _) = emulator.get_video_buffer();
    // Columns 0,1 keep the first sprite; 2,3 collided and went dark;
    // 4,5 were lit by the second sprite.
    assert_eq!(pixel(&buffer, 0, 0), 1);
    assert_eq!(pixel(&buffer, 1, 0), 1);
    assert_eq!(pixel(&buffer, 2, 0), 0);
    assert_eq!(pixel(&buffer, 3, 0), 0);
    assert_eq!(pixel(&buffer, 4, 0), 1);
    assert_eq!(pixel(&buffer, 5, 0), 1);
}

#[test]
fn console_render_draws_block_cells() {
    let mut emulator = fresh_with(&[0xD0, 0x11]);
    emulator.set_register(0, 5);
    emulator.set_register(1, 2);
    emulator.set_index_pointer(0x50);
    assert_eq!(emulator.step_at(0, 0), Ok(StepOutcome::Executed));
    let (buffer, _) = emulator.get_video_buffer();
    let text = ConsoleDisplay.render(&buffer);
    // 32 rows of a line break plus 128 cell characters, then a final break.
    assert_eq!(text.len(), 32 * (1 + 2 * SCREEN_WIDTH) + 1);
    assert_eq!(text[0], '\n');
    // The glyph row 0xF0 drawn at (5, 2) lights columns 5..9 of row 2.
    let row_start = 2 * (1 + 2 * SCREEN_WIDTH) + 1;
    assert_eq!(text[row_start + 2 * 4], ' ');
    assert_eq!(text[row_start + 2 * 5], '▓');
    assert_eq!(text[row_start + 2 * 5 + 1], '▓');
    assert_eq!(text[row_start + 2 * 8], '▓');
    assert_eq!(text[row_start + 2 * 9], ' ');
}

#[test]
fn instruction_decodes_nibbles() {
    let instruction = ChipInstruction::new([0xD2, 0x35]);
    assert_eq!(instruction.op_code, 0x0D);
    assert_eq!(instruction.parameter, [0x02, 0x03, 0x05]);
    assert_eq!(instruction.raw, [0xD2, 0x35]);
}

#[test]
fn step_and_decode_execute_with_live_sources() {
    // Drive the emulator through the clock- and randomness-drawing entry
    // points. The jump-to-self program keeps the counter in place, and a
    // random byte masked by zero is zero whatever was drawn.
    let mut emulator = fresh_with(&[0x12, 0x00]);
    assert_eq!(emulator.step(), Ok(StepOutcome::Executed));
    assert_eq!(emulator.get_program_counter(), 0x200);
    let instruction = ChipInstruction::new([0xC5, 0x00]);
    emulator.set_register(5, 7);
    assert_eq!(emulator.decode_execute(instruction), Ok(StepOutcome::Executed));
    assert_eq!(emulator.get_register(5), 0);
}

#[test]
fn keypad_latches_and_releases() {
    let mut keypad = SdlKeypad::new();
    assert!(keypad.get_key().is_none());
    // 'w' is the key 5 of the classic layout.
    assert!(keypad.process_key_event('w', true));
    assert!(matches!(keypad.get_key(), Some(ChipKey::Key5)));
    assert!(keypad.process_key_event('w', false));
    assert!(keypad.get_key().is_none());
    // An unmapped character is not a keypad event and changes nothing.
    assert!(keypad.process_key_event('w', true));
    assert!(!keypad.process_key_event('p', false));
    assert!(matches!(keypad.get_key(), Some(ChipKey::Key5)));
}

#[test]
fn keypad_character_map() {
    let expected: [(char, u8); 16] = [
        ('1', 0x1),
        ('2', 0x2),
        ('3', 0x3),
        ('4', 0xC),
        ('q', 0x4),
        ('w', 0x5),
        ('e', 0x6),
        ('r', 0xD),
        ('a', 0x7),
        ('s', 0x8),
        ('d', 0x9),
        ('f', 0xE),
        ('z', 0xA),
        ('x', 0x0),
        ('c', 0xB),
        ('v', 0xF),
    ];
    for (c, code) in expected {
        let key = ChipKey::for_char(c).unwrap();
        assert_eq!(key.code(), code);
    }
    assert!(ChipKey::for_char('g').is_none());
    assert_eq!(SCREEN_WIDTH, 64);
}
