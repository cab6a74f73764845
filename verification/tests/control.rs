use chip8::instruction::Instruction;
use chip8::machine::Chip8;
use chip8::state::{CycleReport, Fault};

const QUIET: CycleReport = CycleReport { unknown: false, beep: false };

fn loaded(program: &[u8]) -> Chip8 {
    let mut chip = Chip8::init();
    assert_eq!(chip.load_rom(program), Ok(()));
    chip
}

#[test]
fn jump_sets_the_program_counter() {
    let mut chip = loaded(&[0x1A, 0xBC]);
    assert_eq!(chip.cycle_with(0), Ok(QUIET));
    assert_eq!(chip.pc(), 0xABC);
    assert_eq!(chip.opcode(), 0x1ABC);
}

#[test]
fn jump_offset_adds_register_zero() {
    let mut chip = loaded(&[0x60, 0x34, 0xB3, 0x00]);
    assert_eq!(chip.cycle_with(0), Ok(QUIET));
    assert_eq!(chip.cycle_with(0), Ok(QUIET));
    assert_eq!(chip.pc(), 0x334);
    let mut chip = Chip8::init();
    chip.op_6xkk(0, 0xFF);
    chip.op_bnnn(0xFFF);
    assert_eq!(chip.pc(), 0x10FE);
}

#[test]
fn call_then_return() {
    let mut chip = loaded(&[0x22, 0x04, 0x00, 0x00, 0x00, 0xEE]);
    let depth = chip.sp();
    assert_eq!(chip.cycle_with(0), Ok(QUIET));
    assert_eq!(chip.pc(), 0x204);
    assert_eq!(chip.sp(), depth + 1);
    assert_eq!(chip.cycle_with(0), Ok(QUIET));
    assert_eq!(chip.pc(), 0x202);
    assert_eq!(chip.sp(), depth);
}

#[test]
fn nested_calls_return_in_reverse_order() {
    let mut chip = Chip8::init();
    chip.op_1nnn(0x300);
    assert_eq!(chip.op_2nnn(0x400), Ok(()));
    assert_eq!(chip.op_2nnn(0x500), Ok(()));
    assert_eq!(chip.sp(), 2);
    assert_eq!(chip.pc(), 0x500);
    assert_eq!(chip.op_00ee(), Ok(()));
    assert_eq!(chip.pc(), 0x400);
    assert_eq!(chip.op_00ee(), Ok(()));
    assert_eq!(chip.pc(), 0x300);
    assert_eq!(chip.sp(), 0);
}

#[test]
fn return_on_an_empty_stack_is_a_fault() {
    let mut chip = loaded(&[0x00, 0xEE]);
    assert_eq!(chip.cycle_with(0), Err(Fault::StackUnderflow));
    assert_eq!(chip.pc(), 0x200);
    assert_eq!(chip.sp(), 0);
    assert_eq!(chip.opcode(), 0);
    assert_eq!(chip.cycle_with(0), Err(Fault::StackUnderflow));
}

#[test]
fn seventeenth_nested_call_is_a_fault() {
    // 0x200: call 0x200, over and over.
    let mut chip = loaded(&[0x22, 0x00]);
    for depth in 0..16u8 {
        assert_eq!(chip.sp(), depth);
        assert_eq!(chip.cycle_with(0), Ok(QUIET));
    }
    assert_eq!(chip.sp(), 16);
    assert_eq!(chip.cycle_with(0), Err(Fault::StackOverflow));
    assert_eq!(chip.sp(), 16);
    assert_eq!(chip.pc(), 0x200);
    assert_eq!(chip.op_2nnn(0x300), Err(Fault::StackOverflow));
    assert_eq!(chip.pc(), 0x200);
}

#[test]
fn skip_if_equal_to_byte() {
    let mut chip = loaded(&[0x60, 0x42, 0x30, 0x42, 0x00, 0x00, 0x30, 0x43]);
    assert_eq!(chip.cycle_with(0), Ok(QUIET));
    assert_eq!(chip.pc(), 0x202);
    assert_eq!(chip.cycle_with(0), Ok(QUIET));
    assert_eq!(chip.pc(), 0x206);
    assert_eq!(chip.cycle_with(0), Ok(QUIET));
    assert_eq!(chip.pc(), 0x208);
}

#[test]
fn skip_if_not_equal_to_byte() {
    let mut chip = loaded(&[0x60, 0x42, 0x40, 0x43, 0x00, 0x00, 0x40, 0x42]);
    assert_eq!(chip.cycle_with(0), Ok(QUIET));
    assert_eq!(chip.cycle_with(0), Ok(QUIET));
    assert_eq!(chip.pc(), 0x206);
    assert_eq!(chip.cycle_with(0), Ok(QUIET));
    assert_eq!(chip.pc(), 0x208);
}

#[test]
fn skip_on_register_comparison() {
    // V1 = 7, V2 = 7, V3 = 8
    let mut chip = loaded(&[
        0x61, 0x07, 0x62, 0x07, 0x63, 0x08, // 0x200..0x206
        0x51, 0x20, 0x00, 0x00, // 0x206: equal, skips to 0x20A
        0x51, 0x30, // 0x20A: not equal, goes to 0x20C
        0x91, 0x30, 0x00, 0x00, // 0x20C: differ, skips to 0x210
        0x91, 0x20, // 0x210: same, goes to 0x212
    ]);
    for _ in 0..3 {
        assert_eq!(chip.cycle_with(0), Ok(QUIET));
    }
    assert_eq!(chip.pc(), 0x206);
    assert_eq!(chip.cycle_with(0), Ok(QUIET));
    assert_eq!(chip.pc(), 0x20A);
    assert_eq!(chip.cycle_with(0), Ok(QUIET));
    assert_eq!(chip.pc(), 0x20C);
    assert_eq!(chip.cycle_with(0), Ok(QUIET));
    assert_eq!(chip.pc(), 0x210);
    assert_eq!(chip.cycle_with(0), Ok(QUIET));
    assert_eq!(chip.pc(), 0x212);
}

#[test]
fn skip_instructions_called_directly() {
    let mut chip = Chip8::init();
    chip.op_6xkk(1, 5);
    chip.op_6xkk(2, 5);
    chip.op_3xkk(1, 5);
    assert_eq!(chip.pc(), 0x202);
    chip.op_3xkk(1, 6);
    assert_eq!(chip.pc(), 0x202);
    chip.op_4xkk(1, 6);
    assert_eq!(chip.pc(), 0x204);
    chip.op_4xkk(1, 5);
    assert_eq!(chip.pc(), 0x204);
    chip.op_5xy0(1, 2);
    assert_eq!(chip.pc(), 0x206);
    chip.op_9xy0(1, 2);
    assert_eq!(chip.pc(), 0x206);
    chip.op_6xkk(2, 9);
    chip.op_5xy0(1, 2);
    assert_eq!(chip.pc(), 0x206);
    chip.op_9xy0(1, 2);
    assert_eq!(chip.pc(), 0x208);
}

#[test]
fn run_opcode_dispatches_on_the_instruction() {
    let mut chip = Chip8::init();
    assert_eq!(chip.run_opcode(Instruction::LoadByte { x: 4, kk: 9 }, 0), Ok(()));
    assert_eq!(chip.registers()[4], 9);
    assert_eq!(chip.run_opcode(Instruction::Random { x: 5, kk: 0x3C }, 0xFF), Ok(()));
    assert_eq!(chip.registers()[5], 0x3C);
    assert_eq!(chip.run_opcode(Instruction::Jump { addr: 0x456 }, 0), Ok(()));
    assert_eq!(chip.pc(), 0x456);
    assert_eq!(chip.run_opcode(Instruction::Return, 0), Err(Fault::StackUnderflow));
    assert_eq!(chip.run_opcode(Instruction::Unknown, 0), Ok(()));
    assert_eq!(chip.pc(), 0x456);
    assert_eq!(chip.registers()[4], 9);
}
