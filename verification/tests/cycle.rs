use chip8::machine::Chip8;
use chip8::state::{CycleReport, Fault};

const QUIET: CycleReport = CycleReport { unknown: false, beep: false };

fn loaded(program: &[u8]) -> Chip8 {
    let mut chip = Chip8::init();
    assert_eq!(chip.load_rom(program), Ok(()));
    chip
}

#[test]
fn clear_load_load_draw() {
    let mut chip = loaded(&[0x00, 0xE0, 0x60, 0x0A, 0x61, 0x05, 0xD0, 0x15]);
    for _ in 0..4 {
        assert_eq!(chip.cycle_with(0), Ok(QUIET));
    }
    assert_eq!(chip.pc(), 0x208);
    assert_eq!(chip.registers()[0], 0x0A);
    assert_eq!(chip.registers()[1], 0x05);
    assert_eq!(chip.registers()[0xF], 0);
    assert_eq!(chip.index(), 0);
    // The sprite is the bytes at address 0, which are all zero: row 5 shows
    // the bits of memory[0] from column 10 on, and nothing else is lit.
    let first = chip.memory()[0];
    for col in 0..8 {
        assert_eq!(chip.pixel(10 + col, 5), first & (0x80 >> col) != 0);
    }
    assert!(chip.display().iter().all(|lit| !lit));
}

#[test]
fn clear_load_load_draw_with_a_visible_sprite() {
    // As above, with I pointed at the glyph "0" first.
    let mut chip = loaded(&[0xA0, 0x50, 0x00, 0xE0, 0x60, 0x0A, 0x61, 0x05, 0xD0, 0x11]);
    for _ in 0..5 {
        assert_eq!(chip.cycle_with(0), Ok(QUIET));
    }
    assert_eq!(chip.registers()[0xF], 0);
    for y in 0..32 {
        for x in 0..64 {
            // Glyph "0" starts with 0xF0: four pixels from column 10.
            assert_eq!(chip.pixel(x, y), y == 5 && (10..14).contains(&x));
        }
    }
}

#[test]
fn fetch_is_big_endian_and_latches_the_word() {
    let mut chip = loaded(&[0x6A, 0xBC]);
    assert_eq!(chip.cycle_with(0), Ok(QUIET));
    assert_eq!(chip.opcode(), 0x6ABC);
    assert_eq!(chip.registers()[0xA], 0xBC);
    assert_eq!(chip.pc(), 0x202);
}

#[test]
fn unknown_word_is_reported_and_skipped() {
    let mut chip = loaded(&[0x01, 0x23, 0x81, 0x2F, 0xE0, 0x00, 0xF0, 0xFF, 0x60, 0x01]);
    chip.op_6xkk(3, 2);
    chip.op_fx15(3);
    let registers = *chip.registers();
    let memory = *chip.memory();
    for (i, word) in [0x0123u16, 0x812F, 0xE000, 0xF0FF].into_iter().enumerate() {
        assert_eq!(chip.cycle_with(0), Ok(CycleReport { unknown: true, beep: false }));
        assert_eq!(chip.opcode(), word);
        assert_eq!(usize::from(chip.pc()), 0x202 + 2 * i);
        assert_eq!(*chip.registers(), registers);
        assert_eq!(*chip.memory(), memory);
    }
    // The timers kept running through the no-ops.
    assert_eq!(chip.delay_timer(), 0);
    assert_eq!(chip.cycle_with(0), Ok(QUIET));
    assert_eq!(chip.registers()[0], 1);
}

#[test]
fn empty_memory_runs_as_unknown_words() {
    let mut chip = Chip8::init();
    assert_eq!(chip.cycle_with(0), Ok(CycleReport { unknown: true, beep: false }));
    assert_eq!(chip.pc(), 0x202);
}

#[test]
fn program_counter_past_memory_is_a_fault() {
    let mut chip = Chip8::init();
    chip.op_1nnn(0xFFE);
    assert_eq!(chip.cycle_with(0), Ok(CycleReport { unknown: true, beep: false }));
    assert_eq!(chip.pc(), 0x1000);
    assert_eq!(chip.cycle_with(0), Err(Fault::ProgramCounterOutOfRange));
    assert_eq!(chip.pc(), 0x1000);
    chip.op_1nnn(0xFFF);
    assert_eq!(chip.cycle_with(0), Err(Fault::ProgramCounterOutOfRange));
    assert_eq!(chip.pc(), 0xFFF);
    assert_eq!(chip.cycle(), Err(Fault::ProgramCounterOutOfRange));
}

#[test]
fn a_fault_leaves_the_machine_as_it_was() {
    // V0 = 9, delay = V0, sound = V0, I = 0xFFF, store V0..=V1: fault.
    let mut chip = loaded(&[0x60, 0x09, 0xF0, 0x15, 0xF0, 0x18, 0xAF, 0xFF, 0xF1, 0x55]);
    for _ in 0..4 {
        assert_eq!(chip.cycle_with(0), Ok(QUIET));
    }
    let registers = *chip.registers();
    let memory = *chip.memory();
    let display = *chip.display();
    for _ in 0..3 {
        assert_eq!(chip.cycle_with(0), Err(Fault::MemoryOutOfRange));
        assert_eq!(chip.pc(), 0x208);
        assert_eq!(chip.opcode(), 0xAFFF);
        assert_eq!(chip.index(), 0xFFF);
        assert_eq!(chip.delay_timer(), 6);
        assert_eq!(chip.sound_timer(), 7);
        assert_eq!(chip.sp(), 0);
        assert_eq!(*chip.registers(), registers);
        assert_eq!(*chip.memory(), memory);
        assert_eq!(*chip.display(), display);
    }
}

#[test]
fn cycle_with_uses_the_byte_it_is_given() {
    let mut chip = loaded(&[0xC1, 0xFF, 0xC2, 0x0F, 0xC3, 0x00, 0x64, 0x11]);
    assert_eq!(chip.cycle_with(0xA7), Ok(QUIET));
    assert_eq!(chip.registers()[1], 0xA7);
    assert_eq!(chip.cycle_with(0xA7), Ok(QUIET));
    assert_eq!(chip.registers()[2], 0x07);
    assert_eq!(chip.cycle_with(0xA7), Ok(QUIET));
    assert_eq!(chip.registers()[3], 0x00);
    assert_eq!(chip.cycle_with(0xA7), Ok(QUIET));
    assert_eq!(chip.registers()[4], 0x11);
}

#[test]
fn cycle_masks_the_random_byte() {
    // V1 = random & 0x0F, then jump back, many times over.
    let mut chip = loaded(&[0xC1, 0x0F, 0xC2, 0x00, 0x12, 0x00]);
    for _ in 0..200 {
        assert_eq!(chip.cycle(), Ok(QUIET));
        assert!(chip.registers()[1] <= 0x0F);
        assert_eq!(chip.cycle(), Ok(QUIET));
        assert_eq!(chip.registers()[2], 0);
        assert_eq!(chip.cycle(), Ok(QUIET));
        assert_eq!(chip.pc(), 0x200);
    }
}

#[test]
fn cycle_draws_different_random_bytes() {
    let mut chip = loaded(&[0xC1, 0xFF, 0x12, 0x00]);
    let mut seen = [false; 256];
    for _ in 0..2000 {
        assert_eq!(chip.cycle(), Ok(QUIET));
        seen[usize::from(chip.registers()[1])] = true;
        assert_eq!(chip.cycle(), Ok(QUIET));
    }
    assert!(seen.iter().filter(|hit| **hit).count() > 1);
}

#[test]
fn cycle_without_random_instruction_agrees_with_cycle_with() {
    let program = [0x60, 0xC8, 0x61, 0x64, 0x80, 0x14, 0xF0, 0x33, 0x22, 0x0C, 0x00, 0x00, 0x00, 0xEE];
    let mut left = loaded(&program);
    let mut right = loaded(&program);
    for _ in 0..8 {
        assert_eq!(left.cycle(), right.cycle_with(0x5A));
        assert_eq!(left.pc(), right.pc());
        assert_eq!(left.sp(), right.sp());
        assert_eq!(left.opcode(), right.opcode());
        assert_eq!(left.registers(), right.registers());
        assert_eq!(left.memory(), right.memory());
    }
    assert_eq!(left.registers()[0], 44);
    assert_eq!(left.registers()[0xF], 1);
}
