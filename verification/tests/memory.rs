use chip8::font::FONT_SET;
use chip8::machine::{Chip8, LoadError};
use chip8::state::Fault;

#[test]
fn power_on_state() {
    let chip = Chip8::init();
    assert_eq!(chip.registers(), &[0u8; 16]);
    assert_eq!(chip.index(), 0);
    assert_eq!(chip.pc(), 0x200);
    assert_eq!(chip.sp(), 0);
    assert_eq!(chip.delay_timer(), 0);
    assert_eq!(chip.sound_timer(), 0);
    assert_eq!(chip.opcode(), 0);
    assert_eq!(chip.keypad(), &[false; 16]);
    assert!(chip.display().iter().all(|lit| !lit));
}

#[test]
fn power_on_memory_holds_the_font_and_nothing_else() {
    let chip = Chip8::init();
    let memory = chip.memory();
    assert!(memory[..0x50].iter().all(|byte| *byte == 0));
    assert_eq!(&memory[0x50..0xA0], &FONT_SET[..]);
    assert!(memory[0xA0..].iter().all(|byte| *byte == 0));
    assert_eq!(&memory[0x50..0x55], &[0xF0, 0x90, 0x90, 0x90, 0xF0]);
    assert_eq!(&memory[0x9B..0xA0], &[0xF0, 0x80, 0xF0, 0x80, 0x80]);
}

#[test]
fn load_copies_the_image_to_the_program_area() {
    let mut chip = Chip8::init();
    let before = *chip.memory();
    assert_eq!(chip.load_rom(&[0x12, 0x34, 0x56]), Ok(()));
    let memory = chip.memory();
    assert_eq!(&memory[..0x200], &before[..0x200]);
    assert_eq!(&memory[0x200..0x203], &[0x12, 0x34, 0x56]);
    assert!(memory[0x203..].iter().all(|byte| *byte == 0));
    assert_eq!(chip.pc(), 0x200);
}

#[test]
fn load_accepts_an_empty_image() {
    let mut chip = Chip8::init();
    let before = *chip.memory();
    assert_eq!(chip.load_rom(&[]), Ok(()));
    assert_eq!(*chip.memory(), before);
}

#[test]
fn load_accepts_an_image_that_fills_memory() {
    let mut chip = Chip8::init();
    let image: Vec<u8> = (0..3584u32).map(|i| (i % 251) as u8 + 1).collect();
    assert_eq!(chip.load_rom(&image), Ok(()));
    assert_eq!(&chip.memory()[0x200..], &image[..]);
    assert_eq!(chip.memory()[0xFFF], (3583 % 251) as u8 + 1);
    assert_eq!(chip.memory()[0x50], 0xF0);
}

#[test]
fn load_refuses_an_image_that_is_too_large() {
    let mut chip = Chip8::init();
    assert_eq!(chip.load_rom(&[0xAA; 4]), Ok(()));
    let before = *chip.memory();
    assert_eq!(chip.load_rom(&vec![0x55; 3585]), Err(LoadError::ProgramTooLarge));
    assert_eq!(*chip.memory(), before);
    assert_eq!(chip.load_rom(&vec![0x55; 5000]), Err(LoadError::ProgramTooLarge));
    assert_eq!(*chip.memory(), before);
}

#[test]
fn load_index_and_add_index() {
    let mut chip = Chip8::init();
    chip.op_annn(0xABC);
    assert_eq!(chip.index(), 0xABC);
    chip.op_6xkk(4, 0xFF);
    chip.op_fx1e(4);
    assert_eq!(chip.index(), 0xBBB);
    assert_eq!(chip.registers()[0xF], 0);
}

#[test]
fn add_index_wraps_at_sixteen_bits() {
    let mut chip = Chip8::init();
    chip.op_annn(0xFFF);
    chip.op_6xkk(4, 0xFF);
    for _ in 0..240 {
        chip.op_fx1e(4);
    }
    assert_eq!(chip.index(), 0xFFF + 240 * 0xFF);
    chip.op_fx1e(4);
    assert_eq!(u32::from(chip.index()), (0xFFF + 241 * 0xFF) % 0x10000);
    assert_eq!(chip.index(), 0x000E);
}

#[test]
fn font_glyph_address_uses_the_low_nibble() {
    let mut chip = Chip8::init();
    for digit in 0..16u8 {
        chip.op_6xkk(1, digit);
        chip.op_fx29(1);
        assert_eq!(chip.index(), 0x50 + 5 * u16::from(digit));
        chip.op_6xkk(1, 0xA0 | digit);
        chip.op_fx29(1);
        assert_eq!(chip.index(), 0x50 + 5 * u16::from(digit));
    }
    chip.op_6xkk(1, 0x0F);
    chip.op_fx29(1);
    assert_eq!(chip.index(), 0x9B);
}

fn bcd_of(value: u8) -> [u8; 3] {
    let mut chip = Chip8::init();
    chip.op_6xkk(7, value);
    chip.op_annn(0x400);
    assert_eq!(chip.op_fx33(7), Ok(()));
    assert_eq!(chip.index(), 0x400);
    let memory = chip.memory();
    assert_eq!(memory[0x3FF], 0);
    assert_eq!(memory[0x403], 0);
    [memory[0x400], memory[0x401], memory[0x402]]
}

#[test]
fn bcd_of_157() {
    assert_eq!(bcd_of(157), [1, 5, 7]);
}

#[test]
fn bcd_of_0() {
    assert_eq!(bcd_of(0), [0, 0, 0]);
}

#[test]
fn bcd_of_255() {
    assert_eq!(bcd_of(255), [2, 5, 5]);
}

#[test]
fn bcd_digits_spell_every_byte() {
    for value in 0..=255u8 {
        let [hundreds, tens, ones] = bcd_of(value);
        assert!(hundreds < 10 && tens < 10 && ones < 10);
        assert_eq!(
            100 * u16::from(hundreds) + 10 * u16::from(tens) + u16::from(ones),
            u16::from(value)
        );
    }
}

#[test]
fn bcd_past_the_end_of_memory_is_a_fault() {
    let mut chip = Chip8::init();
    chip.op_6xkk(7, 123);
    chip.op_annn(0xFFD);
    assert_eq!(chip.op_fx33(7), Ok(()));
    assert_eq!(&chip.memory()[0xFFD..], &[1, 2, 3]);
    chip.op_annn(0xFFE);
    let before = *chip.memory();
    assert_eq!(chip.op_fx33(7), Err(Fault::MemoryOutOfRange));
    assert_eq!(*chip.memory(), before);
}

fn counting_registers() -> Chip8 {
    let mut chip = Chip8::init();
    for x in 0..16u8 {
        chip.op_6xkk(x, 0x10 + x);
    }
    chip
}

#[test]
fn store_registers_is_inclusive_and_leaves_the_index() {
    let mut chip = counting_registers();
    chip.op_annn(0x300);
    assert_eq!(chip.op_fx55(3), Ok(()));
    assert_eq!(&chip.memory()[0x2FF..0x305], &[0, 0x10, 0x11, 0x12, 0x13, 0]);
    assert_eq!(chip.index(), 0x300);
}

#[test]
fn store_registers_with_operand_zero_stores_one() {
    let mut chip = counting_registers();
    chip.op_annn(0x300);
    assert_eq!(chip.op_fx55(0), Ok(()));
    assert_eq!(&chip.memory()[0x300..0x302], &[0x10, 0]);
}

#[test]
fn store_all_registers() {
    let mut chip = counting_registers();
    chip.op_annn(0xFF0);
    assert_eq!(chip.op_fx55(0xF), Ok(()));
    let expected: Vec<u8> = (0x10..0x20).collect();
    assert_eq!(&chip.memory()[0xFF0..], &expected[..]);
}

#[test]
fn load_registers_is_inclusive_and_leaves_the_index() {
    let mut chip = counting_registers();
    assert_eq!(chip.load_rom(&[0xA1, 0xA2, 0xA3, 0xA4, 0xA5]), Ok(()));
    chip.op_annn(0x201);
    assert_eq!(chip.op_fx66(2), Ok(()));
    let registers = chip.registers();
    assert_eq!(&registers[..4], &[0xA2, 0xA3, 0xA4, 0x13]);
    assert_eq!(&registers[4..], &[0x14, 0x15, 0x16, 0x17, 0x18, 0x19, 0x1A, 0x1B, 0x1C, 0x1D, 0x1E, 0x1F]);
    assert_eq!(chip.index(), 0x201);
}

#[test]
fn store_then_load_gives_the_registers_back() {
    let mut chip = counting_registers();
    chip.op_annn(0x400);
    assert_eq!(chip.op_fx55(0xF), Ok(()));
    let saved = *chip.registers();
    for x in 0..16u8 {
        chip.op_6xkk(x, 0);
    }
    assert_eq!(chip.op_fx66(0xF), Ok(()));
    assert_eq!(*chip.registers(), saved);
}

#[test]
fn block_transfer_past_the_end_of_memory_is_a_fault() {
    let mut chip = counting_registers();
    chip.op_annn(0xFFD);
    assert_eq!(chip.op_fx55(2), Ok(()));
    assert_eq!(chip.op_fx66(2), Ok(()));
    let memory = *chip.memory();
    let registers = *chip.registers();
    assert_eq!(chip.op_fx55(3), Err(Fault::MemoryOutOfRange));
    assert_eq!(chip.op_fx66(3), Err(Fault::MemoryOutOfRange));
    assert_eq!(*chip.memory(), memory);
    assert_eq!(*chip.registers(), registers);
}
