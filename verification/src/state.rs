//! The mathematical model of the machine.
//!
//! [`State`] holds what the machine holds, as sequences and integers. Every
//! instruction is a function from states to states; [`State::fault`] says
//! when an instruction cannot run, [`State::execute`] what it does when it
//! can, and [`State::step`] what one whole cycle does.

use vstd::prelude::*;
use crate::font::{glyph_address, FONT_SET, FONT_START};
use crate::instruction::{decode_spec, Instruction};
use crate::sprite::{blit, collides};

verus! {

/// Number of bytes of memory.
pub const MEMORY_SIZE: usize = 4096;

/// Address at which programs are loaded and execution starts.
pub const PROGRAM_START: u16 = 0x200;

/// Largest program that fits between `PROGRAM_START` and the end of memory.
pub const MAX_PROGRAM_SIZE: usize = 3584;

/// Number of return addresses the call stack can hold.
pub const STACK_DEPTH: u8 = 16;

/// Why an instruction could not be executed. A fault is fatal: the machine
/// is left as it was before the cycle and cannot make progress.
#[derive(Clone, Copy, Debug, PartialEq, Eq, Structural)]
pub enum Fault {
    /// The program counter does not leave room to fetch two bytes.
    ProgramCounterOutOfRange,
    /// A call with sixteen return addresses already on the stack.
    StackOverflow,
    /// A return with no return address on the stack.
    StackUnderflow,
    /// An instruction addresses memory past the last byte.
    MemoryOutOfRange,
    /// A key instruction names a key above `F`.
    KeyOutOfRange,
}

/// What one cycle tells the driver besides the new machine state.
#[derive(Clone, Copy, Debug, PartialEq, Eq, Structural)]
pub struct CycleReport {
    /// The fetched word encodes no instruction and was treated as a no-op.
    pub unknown: bool,
    /// The sound timer stood at 1 when the timers were counted down: the
    /// driver should sound the tone for this cycle.
    pub beep: bool,
}

/// The state of the machine.
pub ghost struct State {
    /// The sixteen registers `V0`-`VF`.
    pub registers: Seq<u8>,
    /// The 4096 bytes of memory.
    pub memory: Seq<u8>,
    /// The address register `I`.
    pub index: u16,
    /// The program counter.
    pub pc: u16,
    /// The return addresses, innermost call last.
    pub stack: Seq<u16>,
    /// The delay timer.
    pub delay_timer: u8,
    /// The sound timer.
    pub sound_timer: u8,
    /// For each of the sixteen keys, whether it is held down.
    pub keypad: Seq<bool>,
    /// The 64x32 pixels, row by row.
    pub display: Seq<bool>,
    /// The instruction word fetched last.
    pub opcode: u16,
}

/// A timer after one cycle: one less, but never below zero.
pub open spec fn countdown(timer: u8) -> u8 {
    if timer > 0 {
        (timer - 1) as u8
    } else {
        0
    }
}

/// The flag value for a condition.
pub open spec fn flag(set: bool) -> u8 {
    if set {
        1
    } else {
        0
    }
}

/// Memory after `bytes` is copied to `start` and the addresses after it.
pub open spec fn write_bytes(memory: Seq<u8>, start: int, bytes: Seq<u8>) -> Seq<u8> {
    Seq::new(
        memory.len(),
        |a: int|
            if start <= a < start + bytes.len() {
                bytes[a - start]
            } else {
                memory[a]
            },
    )
}

/// Registers after the first `count` of them are loaded from `start` and
/// the addresses after it.
pub open spec fn read_bytes(registers: Seq<u8>, memory: Seq<u8>, start: int, count: int) -> Seq<
    u8,
> {
    Seq::new(
        registers.len(),
        |i: int|
            if i < count {
                memory[start + i]
            } else {
                registers[i]
            },
    )
}

/// Whether `k` is the lowest key that is held down.
pub open spec fn is_lowest_key_down(keypad: Seq<bool>, k: int) -> bool {
    &&& 0 <= k < keypad.len()
    &&& keypad[k]
    &&& forall|j: int| 0 <= j < k ==> !keypad[j]
}

/// The lowest key that is held down, if any is.
pub open spec fn lowest_key_down(keypad: Seq<bool>) -> Option<int> {
    if exists|k: int| is_lowest_key_down(keypad, k) {
        Some(choose|k: int| is_lowest_key_down(keypad, k))
    } else {
        None
    }
}

/// The lowest key that is down is unique, so `lowest_key_down` names it.
pub proof fn lemma_lowest_key_down(keypad: Seq<bool>, k: int)
    requires
        is_lowest_key_down(keypad, k),
    ensures
        lowest_key_down(keypad) == Some(k),
{
    let c = choose|c: int| is_lowest_key_down(keypad, c);
    assert(c == k);
}

impl State {
    /// Every component has its fixed size, and the stack is within its
    /// depth.
    pub open spec fn wf(self) -> bool {
        &&& self.registers.len() == 16
        &&& self.memory.len() == 4096
        &&& self.stack.len() <= 16
        &&& self.keypad.len() == 16
        &&& self.display.len() == 2048
    }

    /// The machine at power-on: the font in place, the program counter at
    /// `PROGRAM_START`, everything else zero.
    pub open spec fn initial() -> State {
        State {
            registers: Seq::new(16, |i: int| 0u8),
            memory: write_bytes(Seq::new(4096, |a: int| 0u8), FONT_START as int, FONT_SET@),
            index: 0,
            pc: PROGRAM_START,
            stack: Seq::empty(),
            delay_timer: 0,
            sound_timer: 0,
            keypad: Seq::new(16, |k: int| false),
            display: Seq::new(2048, |p: int| false),
            opcode: 0,
        }
    }

    /// The state after a program image is copied to `PROGRAM_START`.
    pub open spec fn load(self, program: Seq<u8>) -> State {
        State { memory: write_bytes(self.memory, PROGRAM_START as int, program), ..self }
    }

    /// The state after the driver sets key `key` down or up.
    pub open spec fn with_key(self, key: int, down: bool) -> State {
        State { keypad: self.keypad.update(key, down), ..self }
    }

    /// The value of register `Vx`.
    pub open spec fn reg(self, x: u8) -> u8 {
        self.registers[x as int]
    }

    /// The state with `Vx` set to `value`.
    pub open spec fn with_reg(self, x: u8, value: u8) -> State {
        State { registers: self.registers.update(x as int, value), ..self }
    }

    /// The state with `VF` set to 1 or 0.
    pub open spec fn with_flag(self, set: bool) -> State {
        self.with_reg(0xF, flag(set))
    }

    /// The state with the program counter moved past one more instruction
    /// if `condition` holds.
    pub open spec fn skip_if(self, condition: bool) -> State {
        if condition {
            State { pc: (self.pc + 2) as u16, ..self }
        } else {
            self
        }
    }

    /// `00E0`: every pixel off.
    pub open spec fn clear_screen(self) -> State {
        State { display: Seq::new(2048, |p: int| false), ..self }
    }

    /// `00EE`: the program counter is popped off the stack.
    pub open spec fn ret(self) -> State {
        State { pc: self.stack.last(), stack: self.stack.drop_last(), ..self }
    }

    /// `1nnn`: the program counter is `addr`.
    pub open spec fn jump(self, addr: u16) -> State {
        State { pc: addr, ..self }
    }

    /// `2nnn`: the program counter is pushed, then set to `addr`.
    pub open spec fn call(self, addr: u16) -> State {
        State { pc: addr, stack: self.stack.push(self.pc), ..self }
    }

    /// `7xkk`: `Vx` is `Vx + kk` modulo 256; `VF` is untouched.
    pub open spec fn add_byte(self, x: u8, kk: u8) -> State {
        self.with_reg(x, ((self.reg(x) + kk) % 256) as u8)
    }

    /// `8xy1`: `Vx` is `Vx | Vy`.
    pub open spec fn or(self, x: u8, y: u8) -> State {
        self.with_reg(x, self.reg(x) | self.reg(y))
    }

    /// `8xy2`: `Vx` is `Vx & Vy`.
    pub open spec fn and(self, x: u8, y: u8) -> State {
        self.with_reg(x, self.reg(x) & self.reg(y))
    }

    /// `8xy3`: `Vx` is `Vx ^ Vy`.
    pub open spec fn xor(self, x: u8, y: u8) -> State {
        self.with_reg(x, self.reg(x) ^ self.reg(y))
    }

    /// `8xy4`: `Vx` is `Vx + Vy` modulo 256, then `VF` is the carry.
    pub open spec fn add_reg(self, x: u8, y: u8) -> State {
        let sum = self.reg(x) + self.reg(y);
        self.with_reg(x, (sum % 256) as u8).with_flag(sum > 255)
    }

    /// `8xy5`: `Vx` is `Vx - Vy` modulo 256, then `VF` is the borrow.
    pub open spec fn sub_reg(self, x: u8, y: u8) -> State {
        let difference = self.reg(x) - self.reg(y);
        self.with_reg(x, (difference % 256) as u8).with_flag(difference < 0)
    }

    /// `8xy6`: `Vx` is halved, then `VF` is the bit that fell off.
    pub open spec fn shift_right(self, x: u8) -> State {
        let value = self.reg(x);
        self.with_reg(x, value / 2).with_flag(value % 2 == 1)
    }

    /// `8xy7`: `Vy` is `Vy - Vx` modulo 256, then `VF` is the borrow.
    pub open spec fn sub_from(self, x: u8, y: u8) -> State {
        let difference = self.reg(y) - self.reg(x);
        self.with_reg(y, (difference % 256) as u8).with_flag(difference < 0)
    }

    /// `8xyE`: `Vx` is doubled modulo 256, then `VF` is the bit that fell
    /// off.
    pub open spec fn shift_left(self, x: u8) -> State {
        let value = self.reg(x);
        self.with_reg(x, ((value * 2) % 256) as u8).with_flag(value >= 128)
    }

    /// `Annn`: `I` is `addr`.
    pub open spec fn load_index(self, addr: u16) -> State {
        State { index: addr, ..self }
    }

    /// `Bnnn`: the program counter is `addr + V0`.
    pub open spec fn jump_offset(self, addr: u16) -> State {
        State { pc: (addr + self.reg(0)) as u16, ..self }
    }

    /// `Cxkk`: `Vx` is the random byte masked by `kk`.
    pub open spec fn random(self, x: u8, kk: u8, random: u8) -> State {
        self.with_reg(x, random & kk)
    }

    /// The bytes of the `n`-row sprite that `I` points at.
    pub open spec fn sprite(self, n: u8) -> Seq<u8> {
        self.memory.subrange(self.index as int, self.index + n)
    }

    /// The screen column at which `Dxyn` draws: `Vx` modulo the width.
    pub open spec fn origin_x(self, x: u8) -> int {
        self.reg(x) as int % 64
    }

    /// The screen row at which `Dxyn` draws: `Vy` modulo the height.
    pub open spec fn origin_y(self, y: u8) -> int {
        self.reg(y) as int % 32
    }

    /// `Dxyn`: the sprite is drawn at `(Vx % 64, Vy % 32)`, then `VF` is
    /// the collision flag.
    pub open spec fn draw(self, x: u8, y: u8, n: u8) -> State {
        let ox = self.origin_x(x);
        let oy = self.origin_y(y);
        State { display: blit(self.display, self.sprite(n), ox, oy), ..self }.with_flag(
            collides(self.display, self.sprite(n), ox, oy),
        )
    }

    /// Whether the key whose number is in `Vx` is held down.
    pub open spec fn key_down(self, x: u8) -> bool {
        self.keypad[self.reg(x) as int]
    }

    /// `Fx0A`: with a key down, `Vx` is the number of the lowest such key;
    /// with none, the program counter goes back to this instruction.
    pub open spec fn wait_key(self, x: u8) -> State {
        match lowest_key_down(self.keypad) {
            Some(k) => self.with_reg(x, k as u8),
            None => State { pc: (self.pc - 2) as u16, ..self },
        }
    }

    /// `Fx1E`: `I` is `I + Vx` modulo 65536.
    pub open spec fn add_index(self, x: u8) -> State {
        State { index: ((self.index + self.reg(x)) % 0x10000) as u16, ..self }
    }

    /// `Fx29`: `I` is the address of the glyph for the low nibble of `Vx`.
    pub open spec fn font_glyph(self, x: u8) -> State {
        State { index: glyph_address(self.reg(x) as int % 16) as u16, ..self }
    }

    /// `Fx33`: the hundreds, tens and ones of `Vx` are stored at `I`,
    /// `I + 1` and `I + 2`.
    pub open spec fn bcd(self, x: u8) -> State {
        let value = self.reg(x);
        let i = self.index as int;
        State {
            memory: self.memory.update(i, value / 100).update(i + 1, (value / 10) % 10).update(
                i + 2,
                value % 10,
            ),
            ..self
        }
    }

    /// `Fx55`: `V0..=Vx` are stored at `I..=I + x`.
    pub open spec fn store_registers(self, x: u8) -> State {
        State {
            memory: write_bytes(self.memory, self.index as int, self.registers.take(x + 1)),
            ..self
        }
    }

    /// `Fx66`: `V0..=Vx` are loaded from `I..=I + x`.
    pub open spec fn load_registers(self, x: u8) -> State {
        State {
            registers: read_bytes(self.registers, self.memory, self.index as int, x + 1),
            ..self
        }
    }

    /// The fault that `instr` runs into in this state, if any.
    pub open spec fn fault(self, instr: Instruction) -> Option<Fault> {
        match instr {
            Instruction::Call { .. } => if self.stack.len() >= 16 {
                Some(Fault::StackOverflow)
            } else {
                None
            },
            Instruction::Return => if self.stack.len() == 0 {
                Some(Fault::StackUnderflow)
            } else {
                None
            },
            Instruction::Draw { n, .. } => if self.index + n > 4096 {
                Some(Fault::MemoryOutOfRange)
            } else {
                None
            },
            Instruction::Bcd { .. } => if self.index + 2 >= 4096 {
                Some(Fault::MemoryOutOfRange)
            } else {
                None
            },
            Instruction::StoreRegisters { x } | Instruction::LoadRegisters { x } => if self.index
                + x >= 4096 {
                Some(Fault::MemoryOutOfRange)
            } else {
                None
            },
            Instruction::SkipKeyDown { x } | Instruction::SkipKeyUp { x } => if self.reg(x)
                >= 16 {
                Some(Fault::KeyOutOfRange)
            } else {
                None
            },
            _ => None,
        }
    }

    /// How an instruction ends: with the fault it ran into, or normally.
    pub open spec fn outcome(fault: Option<Fault>) -> Result<(), Fault> {
        match fault {
            Some(fault) => Err(fault),
            None => Ok(()),
        }
    }

    /// The condition that a skip instruction tests; false for every other
    /// instruction.
    pub open spec fn condition(self, instr: Instruction) -> bool {
        match instr {
            Instruction::SkipEqByte { x, kk } => self.reg(x) == kk,
            Instruction::SkipNeByte { x, kk } => self.reg(x) != kk,
            Instruction::SkipEqReg { x, y } => self.reg(x) == self.reg(y),
            Instruction::SkipNeReg { x, y } => self.reg(x) != self.reg(y),
            Instruction::SkipKeyDown { x } => self.key_down(x),
            Instruction::SkipKeyUp { x } => !self.key_down(x),
            _ => false,
        }
    }

    /// The state after `instr`, for an instruction that does not fault.
    /// `random` is the byte that `Cxkk` draws.
    pub open spec fn execute(self, instr: Instruction, random: u8) -> State {
        match instr {
            Instruction::ClearScreen => self.clear_screen(),
            Instruction::Return => self.ret(),
            Instruction::Jump { addr } => self.jump(addr),
            Instruction::Call { addr } => self.call(addr),
            Instruction::SkipEqByte { .. } => self.skip_if(self.condition(instr)),
            Instruction::SkipNeByte { .. } => self.skip_if(self.condition(instr)),
            Instruction::SkipEqReg { .. } => self.skip_if(self.condition(instr)),
            Instruction::LoadByte { x, kk } => self.with_reg(x, kk),
            Instruction::AddByte { x, kk } => self.add_byte(x, kk),
            Instruction::Move { x, y } => self.with_reg(x, self.reg(y)),
            Instruction::Or { x, y } => self.or(x, y),
            Instruction::And { x, y } => self.and(x, y),
            Instruction::Xor { x, y } => self.xor(x, y),
            Instruction::AddReg { x, y } => self.add_reg(x, y),
            Instruction::SubReg { x, y } => self.sub_reg(x, y),
            Instruction::ShiftRight { x } => self.shift_right(x),
            Instruction::SubFrom { x, y } => self.sub_from(x, y),
            Instruction::ShiftLeft { x } => self.shift_left(x),
            Instruction::SkipNeReg { .. } => self.skip_if(self.condition(instr)),
            Instruction::LoadIndex { addr } => self.load_index(addr),
            Instruction::JumpOffset { addr } => self.jump_offset(addr),
            Instruction::Random { x, kk } => self.random(x, kk, random),
            Instruction::Draw { x, y, n } => self.draw(x, y, n),
            Instruction::SkipKeyDown { .. } => self.skip_if(self.condition(instr)),
            Instruction::SkipKeyUp { .. } => self.skip_if(self.condition(instr)),
            Instruction::ReadDelay { x } => self.with_reg(x, self.delay_timer),
            Instruction::WaitKey { x } => self.wait_key(x),
            Instruction::SetDelay { x } => State { delay_timer: self.reg(x), ..self },
            Instruction::SetSound { x } => State { sound_timer: self.reg(x), ..self },
            Instruction::AddIndex { x } => self.add_index(x),
            Instruction::FontGlyph { x } => self.font_glyph(x),
            Instruction::Bcd { x } => self.bcd(x),
            Instruction::StoreRegisters { x } => self.store_registers(x),
            Instruction::LoadRegisters { x } => self.load_registers(x),
            Instruction::Unknown => self,
        }
    }

    /// Whether the two bytes at the program counter lie inside memory.
    pub open spec fn can_fetch(self) -> bool {
        self.pc + 1 < 4096
    }

    /// The instruction word at the program counter, high byte first.
    pub open spec fn next_word(self) -> u16 {
        (self.memory[self.pc as int] * 256 + self.memory[self.pc + 1]) as u16
    }

    /// The instruction at the program counter.
    pub open spec fn next_instruction(self) -> Instruction {
        decode_spec(self.next_word())
    }

    /// The state after the fetch: the word is latched and the program
    /// counter points past it.
    pub open spec fn fetch(self) -> State {
        State { opcode: self.next_word(), pc: (self.pc + 2) as u16, ..self }
    }

    /// The state after both timers have counted down once.
    pub open spec fn tick(self) -> State {
        State {
            delay_timer: countdown(self.delay_timer),
            sound_timer: countdown(self.sound_timer),
            ..self
        }
    }

    /// The fault that the next cycle runs into, if any.
    pub open spec fn step_fault(self) -> Option<Fault> {
        if !self.can_fetch() {
            Some(Fault::ProgramCounterOutOfRange)
        } else {
            self.fetch().fault(self.next_instruction())
        }
    }

    /// The state just before the timers count down in the next cycle: the
    /// instruction has been fetched and executed.
    pub open spec fn executed(self, random: u8) -> State {
        self.fetch().execute(self.next_instruction(), random)
    }

    /// The state after one whole cycle that does not fault: fetch, execute,
    /// count the timers down.
    pub open spec fn step(self, random: u8) -> State {
        self.executed(random).tick()
    }

    /// What a cycle that does not fault reports to the driver.
    pub open spec fn step_report(self, random: u8) -> CycleReport {
        CycleReport {
            unknown: self.next_instruction() is Unknown,
            beep: self.executed(random).sound_timer == 1,
        }
    }

    /// The relation between the state before a cycle, the random byte
    /// offered to it, the state after it and its result.
    pub open spec fn cycles_to(self, random: u8, after: State, result: Result<CycleReport, Fault>) -> bool {
        match result {
            Ok(report) => {
                &&& self.step_fault() is None
                &&& after == self.step(random)
                &&& report == self.step_report(random)
            },
            Err(fault) => {
                &&& self.step_fault() == Some(fault)
                &&& after == self
            },
        }
    }
}

} // verus!
