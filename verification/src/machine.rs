//! The executable machine.
//!
//! [`Chip8`] stores the machine in fixed-size arrays. Its view is the
//! [`State`] it stands for, and every method says how it moves that state.

use vstd::prelude::*;
use crate::entropy::random_byte;
use crate::font::{FONT_SET, FONT_SIZE, FONT_START, GLYPH_ROWS};
use crate::instruction::{decode, Instruction};
use crate::sprite::{draw_sprite, SCREEN_HEIGHT, SCREEN_WIDTH};
use crate::state::{
    lemma_lowest_key_down, lowest_key_down, read_bytes, write_bytes, CycleReport, Fault, State,
    MAX_PROGRAM_SIZE, MEMORY_SIZE, PROGRAM_START, STACK_DEPTH,
};

verus! {

/// Why a program image was not loaded.
#[derive(Clone, Copy, Debug, PartialEq, Eq, Structural)]
pub enum LoadError {
    /// The image is longer than the memory from `PROGRAM_START` on.
    ProgramTooLarge,
}

/// The machine: registers, memory, call stack, timers, keypad and screen.
pub struct Chip8 {
    registers: [u8; 16],
    memory: [u8; 4096],
    index: u16,
    pc: u16,
    stack: [u16; 16],
    sp: u8,
    delay_timer: u8,
    sound_timer: u8,
    keypad: [bool; 16],
    display: [bool; 2048],
    opcode: u16,
}

impl View for Chip8 {
    type V = State;

    /// The state that the machine stands for. Of the stack array, only the
    /// entries below the stack pointer count.
    closed spec fn view(&self) -> State {
        State {
            registers: self.registers@,
            memory: self.memory@,
            index: self.index,
            pc: self.pc,
            stack: self.stack@.take(self.sp as int),
            delay_timer: self.delay_timer,
            sound_timer: self.sound_timer,
            keypad: self.keypad@,
            display: self.display@,
            opcode: self.opcode,
        }
    }
}

/// Copies the first `count` bytes of `source` to `memory[start..]`.
fn copy_bytes(memory: &mut [u8; 4096], start: usize, source: &[u8], count: usize)
    requires
        count <= source@.len(),
        start + count <= 4096,
    ensures
        final(memory)@ == write_bytes(old(memory)@, start as int, source@.take(count as int)),
    no_unwind
{
    let ghost before = memory@;
    let mut i: usize = 0;
    while i < count
        invariant
            i <= count <= source@.len(),
            start + count <= 4096,
            before.len() == 4096,
            memory@ == write_bytes(before, start as int, source@.take(i as int)),
        decreases count - i,
    {
        memory[start + i] = source[i];
        i = i + 1;
        assert(memory@ =~= write_bytes(before, start as int, source@.take(i as int)));
    }
}

/// Loads the first `count` registers from `memory[start..]`.
fn load_bytes(registers: &mut [u8; 16], memory: &[u8; 4096], start: usize, count: usize)
    requires
        count <= 16,
        start + count <= 4096,
    ensures
        final(registers)@ == read_bytes(old(registers)@, memory@, start as int, count as int),
    no_unwind
{
    let ghost before = registers@;
    let mut i: usize = 0;
    while i < count
        invariant
            i <= count <= 16,
            start + count <= 4096,
            before.len() == 16,
            registers@ == read_bytes(before, memory@, start as int, i as int),
        decreases count - i,
    {
        registers[i] = memory[start + i];
        i = i + 1;
        assert(registers@ =~= read_bytes(before, memory@, start as int, i as int));
    }
    assert(registers@ =~= read_bytes(before, memory@, start as int, count as int));
}

impl Chip8 {
    /// The stack pointer stays within the stack.
    #[verifier::type_invariant]
    pub closed spec fn inv(&self) -> bool {
        self.sp <= STACK_DEPTH
    }

    /// A machine at power-on.
    pub fn init() -> (chip: Chip8)
        ensures
            chip@ == State::initial(),
            chip@.wf(),
    {
        let mut memory: [u8; 4096] = [0; 4096];
        assert(memory@ =~= Seq::new(4096, |a: int| 0u8));
        copy_bytes(&mut memory, FONT_START as usize, &FONT_SET, FONT_SIZE);
        assert(FONT_SET@.take(FONT_SIZE as int) =~= FONT_SET@);
        let chip = Chip8 {
            registers: [0; 16],
            memory,
            index: 0,
            pc: PROGRAM_START,
            stack: [0; 16],
            sp: 0,
            delay_timer: 0,
            sound_timer: 0,
            keypad: [false; 16],
            display: [false; 2048],
            opcode: 0,
        };
        assert(chip@.registers =~= State::initial().registers);
        assert(chip@.stack =~= State::initial().stack);
        assert(chip@.keypad =~= State::initial().keypad);
        assert(chip@.display =~= State::initial().display);
        chip
    }

    /// Copies a program image into memory at `PROGRAM_START`, or refuses an
    /// image that does not fit and leaves the machine as it was.
    pub fn load_rom(&mut self, rom: &[u8]) -> (result: Result<(), LoadError>)
        ensures
            result is Ok <==> rom@.len() <= MAX_PROGRAM_SIZE,
            result is Ok ==> final(self)@ == old(self)@.load(rom@),
            result is Err ==> final(self)@ == old(self)@,
            result is Err ==> result == Err::<(), LoadError>(LoadError::ProgramTooLarge),
    {
        proof {
            use_type_invariant(&*self);
        }
        if rom.len() > MAX_PROGRAM_SIZE {
            return Err(LoadError::ProgramTooLarge);
        }
        copy_bytes(&mut self.memory, PROGRAM_START as usize, rom, rom.len());
        assert(rom@.take(rom@.len() as int) =~= rom@);
        Ok(())
    }

    /// `00E0`: clears the screen.
    pub fn op_00e0(&mut self)
        ensures
            final(self)@ == old(self)@.clear_screen(),
    {
        proof {
            use_type_invariant(&*self);
        }
        self.display = [false; 2048];
        assert(self@.display =~= old(self)@.clear_screen().display);
    }

    /// `00EE`: returns from a subroutine, or faults on an empty stack.
    pub fn op_00ee(&mut self) -> (result: Result<(), Fault>)
        ensures
            result == State::outcome(old(self)@.fault(Instruction::Return)),
            final(self)@ == if result is Ok {
                old(self)@.ret()
            } else {
                old(self)@
            },
    {
        proof {
            use_type_invariant(&*self);
        }
        if self.sp == 0 {
            return Err(Fault::StackUnderflow);
        }
        self.sp = self.sp - 1;
        self.pc = self.stack[self.sp as usize];
        assert(self@.stack =~= old(self)@.stack.drop_last());
        Ok(())
    }

    /// `1nnn`: jumps to `addr`.
    pub fn op_1nnn(&mut self, addr: u16)
        ensures
            final(self)@ == old(self)@.jump(addr),
    {
        proof {
            use_type_invariant(&*self);
        }
        self.pc = addr;
    }

    /// `2nnn`: calls the subroutine at `addr`, or faults on a full stack.
    pub fn op_2nnn(&mut self, addr: u16) -> (result: Result<(), Fault>)
        ensures
            result == State::outcome(old(self)@.fault(Instruction::Call { addr })),
            final(self)@ == if result is Ok {
                old(self)@.call(addr)
            } else {
                old(self)@
            },
    {
        proof {
            use_type_invariant(&*self);
        }
        if self.sp >= STACK_DEPTH {
            return Err(Fault::StackOverflow);
        }
        self.stack[self.sp as usize] = self.pc;
        self.sp = self.sp + 1;
        self.pc = addr;
        assert(self@.stack =~= old(self)@.stack.push(old(self)@.pc));
        Ok(())
    }

    /// Moves the program counter past the next instruction if `condition`
    /// holds.
    fn skip_if(&mut self, condition: bool)
        requires
            old(self)@.pc <= 0xFFFD,
        ensures
            final(self)@ == old(self)@.skip_if(condition),
    {
        proof {
            use_type_invariant(&*self);
        }
        if condition {
            self.pc = self.pc + 2;
        }
    }

    /// `3xkk`: skips the next instruction if `Vx == kk`.
    pub fn op_3xkk(&mut self, x: u8, kk: u8)
        requires
            x < 16,
            old(self)@.pc <= 0xFFFD,
        ensures
            final(self)@ == old(self)@.skip_if(old(self)@.reg(x) == kk),
    {
        let equal = self.registers[x as usize] == kk;
        self.skip_if(equal);
    }

    /// `4xkk`: skips the next instruction if `Vx != kk`.
    pub fn op_4xkk(&mut self, x: u8, kk: u8)
        requires
            x < 16,
            old(self)@.pc <= 0xFFFD,
        ensures
            final(self)@ == old(self)@.skip_if(old(self)@.reg(x) != kk),
    {
        let differ = self.registers[x as usize] != kk;
        self.skip_if(differ);
    }

    /// `5xy_`: skips the next instruction if `Vx == Vy`.
    pub fn op_5xy0(&mut self, x: u8, y: u8)
        requires
            x < 16,
            y < 16,
            old(self)@.pc <= 0xFFFD,
        ensures
            final(self)@ == old(self)@.skip_if(old(self)@.reg(x) == old(self)@.reg(y)),
    {
        let equal = self.registers[x as usize] == self.registers[y as usize];
        self.skip_if(equal);
    }

    /// `6xkk`: sets `Vx` to `kk`.
    pub fn op_6xkk(&mut self, x: u8, kk: u8)
        requires
            x < 16,
        ensures
            final(self)@ == old(self)@.with_reg(x, kk),
    {
        proof {
            use_type_invariant(&*self);
        }
        self.registers[x as usize] = kk;
    }

    /// `7xkk`: adds `kk` to `Vx`, wrapping, without touching `VF`.
    pub fn op_7xkk(&mut self, x: u8, kk: u8)
        requires
            x < 16,
        ensures
            final(self)@ == old(self)@.add_byte(x, kk),
    {
        proof {
            use_type_invariant(&*self);
        }
        self.registers[x as usize] = self.registers[x as usize].wrapping_add(kk);
    }

    /// `8xy0`: sets `Vx` to `Vy`.
    pub fn op_8xy0(&mut self, x: u8, y: u8)
        requires
            x < 16,
            y < 16,
        ensures
            final(self)@ == old(self)@.with_reg(x, old(self)@.reg(y)),
    {
        proof {
            use_type_invariant(&*self);
        }
        self.registers[x as usize] = self.registers[y as usize];
    }

    /// `8xy1`: sets `Vx` to `Vx | Vy`.
    pub fn op_8xy1(&mut self, x: u8, y: u8)
        requires
            x < 16,
            y < 16,
        ensures
            final(self)@ == old(self)@.or(x, y),
    {
        proof {
            use_type_invariant(&*self);
        }
        self.registers[x as usize] = self.registers[x as usize] | self.registers[y as usize];
    }

    /// `8xy2`: sets `Vx` to `Vx & Vy`.
    pub fn op_8xy2(&mut self, x: u8, y: u8)
        requires
            x < 16,
            y < 16,
        ensures
            final(self)@ == old(self)@.and(x, y),
    {
        proof {
            use_type_invariant(&*self);
        }
        self.registers[x as usize] = self.registers[x as usize] & self.registers[y as usize];
    }

    /// `8xy3`: sets `Vx` to `Vx ^ Vy`.
    pub fn op_8xy3(&mut self, x: u8, y: u8)
        requires
            x < 16,
            y < 16,
        ensures
            final(self)@ == old(self)@.xor(x, y),
    {
        proof {
            use_type_invariant(&*self);
        }
        self.registers[x as usize] = self.registers[x as usize] ^ self.registers[y as usize];
    }

    /// `8xy4`: adds `Vy` to `Vx`, wrapping, then sets `VF` to the carry.
    pub fn op_8xy4(&mut self, x: u8, y: u8)
        requires
            x < 16,
            y < 16,
        ensures
            final(self)@ == old(self)@.add_reg(x, y),
    {
        proof {
            use_type_invariant(&*self);
        }
        let vx: u8 = self.registers[x as usize];
        let vy: u8 = self.registers[y as usize];
        let carry: bool = vx as u16 + vy as u16 > 0xFF;
        self.registers[x as usize] = vx.wrapping_add(vy);
        self.registers[0xF] = if carry {
            1
        } else {
            0
        };
    }

    /// `8xy5`: subtracts `Vy` from `Vx`, wrapping, then sets `VF` to the
    /// borrow.
    pub fn op_8xy5(&mut self, x: u8, y: u8)
        requires
            x < 16,
            y < 16,
        ensures
            final(self)@ == old(self)@.sub_reg(x, y),
    {
        proof {
            use_type_invariant(&*self);
        }
        let vx: u8 = self.registers[x as usize];
        let vy: u8 = self.registers[y as usize];
        self.registers[x as usize] = vx.wrapping_sub(vy);
        self.registers[0xF] = if vx < vy {
            1
        } else {
            0
        };
    }

    /// `8xy6`: shifts `Vx` right by one, then sets `VF` to the bit shifted
    /// out.
    pub fn op_8xy6(&mut self, x: u8)
        requires
            x < 16,
        ensures
            final(self)@ == old(self)@.shift_right(x),
    {
        proof {
            use_type_invariant(&*self);
        }
        let vx: u8 = self.registers[x as usize];
        assert(vx >> 1 == vx / 2 && vx & 0x1 == vx % 2) by (bit_vector);
        self.registers[x as usize] = vx >> 1;
        self.registers[0xF] = vx & 0x1;
    }

    /// `8xy7`: subtracts `Vx` from `Vy`, wrapping, then sets `VF` to the
    /// borrow.
    pub fn op_8xy7(&mut self, x: u8, y: u8)
        requires
            x < 16,
            y < 16,
        ensures
            final(self)@ == old(self)@.sub_from(x, y),
    {
        proof {
            use_type_invariant(&*self);
        }
        let vx: u8 = self.registers[x as usize];
        let vy: u8 = self.registers[y as usize];
        self.registers[y as usize] = vy.wrapping_sub(vx);
        self.registers[0xF] = if vy < vx {
            1
        } else {
            0
        };
    }

    /// `8xyE`: shifts `Vx` left by one, then sets `VF` to the bit shifted
    /// out.
    pub fn op_8xye(&mut self, x: u8)
        requires
            x < 16,
        ensures
            final(self)@ == old(self)@.shift_left(x),
    {
        proof {
            use_type_invariant(&*self);
        }
        let vx: u8 = self.registers[x as usize];
        assert(vx << 1 == (vx * 2) % 256 && (vx & 0x80) >> 7 == (if vx >= 128 {
            1u8
        } else {
            0u8
        })) by (bit_vector);
        self.registers[x as usize] = vx << 1;
        self.registers[0xF] = (vx & 0x80) >> 7;
    }

    /// `9xy_`: skips the next instruction if `Vx != Vy`.
    pub fn op_9xy0(&mut self, x: u8, y: u8)
        requires
            x < 16,
            y < 16,
            old(self)@.pc <= 0xFFFD,
        ensures
            final(self)@ == old(self)@.skip_if(old(self)@.reg(x) != old(self)@.reg(y)),
    {
        let differ = self.registers[x as usize] != self.registers[y as usize];
        self.skip_if(differ);
    }

    /// `Annn`: sets `I` to `addr`.
    pub fn op_annn(&mut self, addr: u16)
        ensures
            final(self)@ == old(self)@.load_index(addr),
    {
        proof {
            use_type_invariant(&*self);
        }
        self.index = addr;
    }

    /// `Bnnn`: jumps to `addr + V0`.
    pub fn op_bnnn(&mut self, addr: u16)
        requires
            addr < 0x1000,
        ensures
            final(self)@ == old(self)@.jump_offset(addr),
    {
        proof {
            use_type_invariant(&*self);
        }
        self.pc = addr + self.registers[0] as u16;
    }

    /// `Cxkk`: sets `Vx` to `random & kk`.
    pub fn op_cxkk(&mut self, x: u8, kk: u8, random: u8)
        requires
            x < 16,
        ensures
            final(self)@ == old(self)@.random(x, kk, random),
    {
        proof {
            use_type_invariant(&*self);
        }
        self.registers[x as usize] = random & kk;
    }

    /// `Dxyn`: draws the `n`-row sprite at `I` at `(Vx % 64, Vy % 32)`,
    /// then sets `VF` to the collision flag; faults if the sprite reaches
    /// past the end of memory.
    pub fn op_dxyn(&mut self, x: u8, y: u8, n: u8) -> (result: Result<(), Fault>)
        requires
            x < 16,
            y < 16,
            n < 16,
        ensures
            result == State::outcome(old(self)@.fault(Instruction::Draw { x, y, n })),
            final(self)@ == if result is Ok {
                old(self)@.draw(x, y, n)
            } else {
                old(self)@
            },
    {
        proof {
            use_type_invariant(&*self);
        }
        if self.index as usize + n as usize > MEMORY_SIZE {
            return Err(Fault::MemoryOutOfRange);
        }
        let ox: u8 = (self.registers[x as usize] as usize % SCREEN_WIDTH) as u8;
        let oy: u8 = (self.registers[y as usize] as usize % SCREEN_HEIGHT) as u8;
        let collision = draw_sprite(
            &mut self.display,
            &self.memory,
            self.index as usize,
            n as usize,
            ox,
            oy,
        );
        self.registers[0xF] = if collision {
            1
        } else {
            0
        };
        Ok(())
    }

    /// `Ex9E`: skips the next instruction if the key numbered `Vx` is
    /// down; faults if `Vx` is no key number.
    pub fn op_ex9e(&mut self, x: u8) -> (result: Result<(), Fault>)
        requires
            x < 16,
            old(self)@.pc <= 0xFFFD,
        ensures
            result == State::outcome(old(self)@.fault(Instruction::SkipKeyDown { x })),
            final(self)@ == if result is Ok {
                old(self)@.skip_if(old(self)@.key_down(x))
            } else {
                old(self)@
            },
    {
        let key: u8 = self.registers[x as usize];
        if key >= 16 {
            return Err(Fault::KeyOutOfRange);
        }
        let down = self.keypad[key as usize];
        self.skip_if(down);
        Ok(())
    }

    /// `ExA1`: skips the next instruction if the key numbered `Vx` is up;
    /// faults if `Vx` is no key number.
    pub fn op_exa1(&mut self, x: u8) -> (result: Result<(), Fault>)
        requires
            x < 16,
            old(self)@.pc <= 0xFFFD,
        ensures
            result == State::outcome(old(self)@.fault(Instruction::SkipKeyUp { x })),
            final(self)@ == if result is Ok {
                old(self)@.skip_if(!old(self)@.key_down(x))
            } else {
                old(self)@
            },
    {
        let key: u8 = self.registers[x as usize];
        if key >= 16 {
            return Err(Fault::KeyOutOfRange);
        }
        let up = !self.keypad[key as usize];
        self.skip_if(up);
        Ok(())
    }

    /// `Fx07`: sets `Vx` to the delay timer.
    pub fn op_fx07(&mut self, x: u8)
        requires
            x < 16,
        ensures
            final(self)@ == old(self)@.with_reg(x, old(self)@.delay_timer),
    {
        proof {
            use_type_invariant(&*self);
        }
        self.registers[x as usize] = self.delay_timer;
    }

    /// The number of the lowest key that is held down, if any is.
    pub fn first_key_down(&self) -> (key: Option<u8>)
        ensures
            match key {
                Some(k) => lowest_key_down(self@.keypad) == Some(k as int),
                None => lowest_key_down(self@.keypad) is None,
            },
    {
        let mut k: u8 = 0;
        while k < 16
            invariant
                k <= 16,
                forall|j: int| 0 <= j < k ==> !self.keypad@[j],
            decreases 16 - k,
        {
            if self.keypad[k as usize] {
                proof {
                    lemma_lowest_key_down(self.keypad@, k as int);
                }
                return Some(k);
            }
            k = k + 1;
        }
        None
    }

    /// `Fx0A`: with a key down, sets `Vx` to the number of the lowest such
    /// key; with none, moves the program counter back onto this
    /// instruction so that the next cycle runs it again.
    pub fn op_fx0a(&mut self, x: u8)
        requires
            x < 16,
            old(self)@.pc >= 2,
        ensures
            final(self)@ == old(self)@.wait_key(x),
    {
        proof {
            use_type_invariant(&*self);
        }
        match self.first_key_down() {
            Some(k) => {
                self.registers[x as usize] = k;
            },
            None => {
                self.pc = self.pc - 2;
            },
        }
    }

    /// `Fx15`: sets the delay timer to `Vx`.
    pub fn op_fx15(&mut self, x: u8)
        requires
            x < 16,
        ensures
            final(self)@ == (State { delay_timer: old(self)@.reg(x), ..old(self)@ }),
    {
        proof {
            use_type_invariant(&*self);
        }
        self.delay_timer = self.registers[x as usize];
    }

    /// `Fx18`: sets the sound timer to `Vx`.
    pub fn op_fx18(&mut self, x: u8)
        requires
            x < 16,
        ensures
            final(self)@ == (State { sound_timer: old(self)@.reg(x), ..old(self)@ }),
    {
        proof {
            use_type_invariant(&*self);
        }
        self.sound_timer = self.registers[x as usize];
    }

    /// `Fx1E`: adds `Vx` to `I`, wrapping at 16 bits.
    pub fn op_fx1e(&mut self, x: u8)
        requires
            x < 16,
        ensures
            final(self)@ == old(self)@.add_index(x),
    {
        proof {
            use_type_invariant(&*self);
        }
        self.index = self.index.wrapping_add(self.registers[x as usize] as u16);
    }

    /// `Fx29`: sets `I` to the address of the glyph for the low nibble of
    /// `Vx`.
    pub fn op_fx29(&mut self, x: u8)
        requires
            x < 16,
        ensures
            final(self)@ == old(self)@.font_glyph(x),
    {
        proof {
            use_type_invariant(&*self);
        }
        let vx: u8 = self.registers[x as usize];
        assert(vx & 0x0F == vx % 16) by (bit_vector);
        let digit: u8 = vx & 0x0F;
        self.index = FONT_START + digit as u16 * GLYPH_ROWS;
    }

    /// `Fx33`: stores the hundreds, tens and ones of `Vx` at `I`, `I + 1`
    /// and `I + 2`; faults if `I + 2` is past the end of memory.
    pub fn op_fx33(&mut self, x: u8) -> (result: Result<(), Fault>)
        requires
            x < 16,
        ensures
            result == State::outcome(old(self)@.fault(Instruction::Bcd { x })),
            final(self)@ == if result is Ok {
                old(self)@.bcd(x)
            } else {
                old(self)@
            },
    {
        proof {
            use_type_invariant(&*self);
        }
        let i: usize = self.index as usize;
        if i + 2 >= MEMORY_SIZE {
            return Err(Fault::MemoryOutOfRange);
        }
        let value: u8 = self.registers[x as usize];
        self.memory[i] = value / 100;
        self.memory[i + 1] = (value / 10) % 10;
        self.memory[i + 2] = value % 10;
        Ok(())
    }

    /// `Fx55`: stores `V0..=Vx` at `I..=I + x` and leaves `I` alone; faults
    /// if `I + x` is past the end of memory.
    pub fn op_fx55(&mut self, x: u8) -> (result: Result<(), Fault>)
        requires
            x < 16,
        ensures
            result == State::outcome(old(self)@.fault(Instruction::StoreRegisters { x })),
            final(self)@ == if result is Ok {
                old(self)@.store_registers(x)
            } else {
                old(self)@
            },
    {
        proof {
            use_type_invariant(&*self);
        }
        let i: usize = self.index as usize;
        if i + x as usize >= MEMORY_SIZE {
            return Err(Fault::MemoryOutOfRange);
        }
        copy_bytes(&mut self.memory, i, &self.registers, x as usize + 1);
        Ok(())
    }

    /// `Fx66`: loads `V0..=Vx` from `I..=I + x` and leaves `I` alone;
    /// faults if `I + x` is past the end of memory.
    pub fn op_fx66(&mut self, x: u8) -> (result: Result<(), Fault>)
        requires
            x < 16,
        ensures
            result == State::outcome(old(self)@.fault(Instruction::LoadRegisters { x })),
            final(self)@ == if result is Ok {
                old(self)@.load_registers(x)
            } else {
                old(self)@
            },
    {
        proof {
            use_type_invariant(&*self);
        }
        let i: usize = self.index as usize;
        if i + x as usize >= MEMORY_SIZE {
            return Err(Fault::MemoryOutOfRange);
        }
        load_bytes(&mut self.registers, &self.memory, i, x as usize + 1);
        Ok(())
    }

    /// Executes one decoded instruction. `random` is the byte that `Cxkk`
    /// uses; no other instruction looks at it. On a fault the machine is
    /// left as it was.
    pub fn run_opcode(&mut self, instr: Instruction, random: u8) -> (result: Result<(), Fault>)
        requires
            instr.wf(),
            2 <= old(self)@.pc <= 0xFFFD,
        ensures
            result == State::outcome(old(self)@.fault(instr)),
            final(self)@ == if result is Ok {
                old(self)@.execute(instr, random)
            } else {
                old(self)@
            },
    {
        match instr {
            Instruction::ClearScreen => {
                self.op_00e0();
                Ok(())
            },
            Instruction::Return => self.op_00ee(),
            Instruction::Jump { addr } => {
                self.op_1nnn(addr);
                Ok(())
            },
            Instruction::Call { addr } => self.op_2nnn(addr),
            Instruction::SkipEqByte { x, kk } => {
                self.op_3xkk(x, kk);
                Ok(())
            },
            Instruction::SkipNeByte { x, kk } => {
                self.op_4xkk(x, kk);
                Ok(())
            },
            Instruction::SkipEqReg { x, y } => {
                self.op_5xy0(x, y);
                Ok(())
            },
            Instruction::LoadByte { x, kk } => {
                self.op_6xkk(x, kk);
                Ok(())
            },
            Instruction::AddByte { x, kk } => {
                self.op_7xkk(x, kk);
                Ok(())
            },
            Instruction::Move { x, y } => {
                self.op_8xy0(x, y);
                Ok(())
            },
            Instruction::Or { x, y } => {
                self.op_8xy1(x, y);
                Ok(())
            },
            Instruction::And { x, y } => {
                self.op_8xy2(x, y);
                Ok(())
            },
            Instruction::Xor { x, y } => {
                self.op_8xy3(x, y);
                Ok(())
            },
            Instruction::AddReg { x, y } => {
                self.op_8xy4(x, y);
                Ok(())
            },
            Instruction::SubReg { x, y } => {
                self.op_8xy5(x, y);
                Ok(())
            },
            Instruction::ShiftRight { x } => {
                self.op_8xy6(x);
                Ok(())
            },
            Instruction::SubFrom { x, y } => {
                self.op_8xy7(x, y);
                Ok(())
            },
            Instruction::ShiftLeft { x } => {
                self.op_8xye(x);
                Ok(())
            },
            Instruction::SkipNeReg { x, y } => {
                self.op_9xy0(x, y);
                Ok(())
            },
            Instruction::LoadIndex { addr } => {
                self.op_annn(addr);
                Ok(())
            },
            Instruction::JumpOffset { addr } => {
                self.op_bnnn(addr);
                Ok(())
            },
            Instruction::Random { x, kk } => {
                self.op_cxkk(x, kk, random);
                Ok(())
            },
            Instruction::Draw { x, y, n } => self.op_dxyn(x, y, n),
            Instruction::SkipKeyDown { x } => self.op_ex9e(x),
            Instruction::SkipKeyUp { x } => self.op_exa1(x),
            Instruction::ReadDelay { x } => {
                self.op_fx07(x);
                Ok(())
            },
            Instruction::WaitKey { x } => {
                self.op_fx0a(x);
                Ok(())
            },
            Instruction::SetDelay { x } => {
                self.op_fx15(x);
                Ok(())
            },
            Instruction::SetSound { x } => {
                self.op_fx18(x);
                Ok(())
            },
            Instruction::AddIndex { x } => {
                self.op_fx1e(x);
                Ok(())
            },
            Instruction::FontGlyph { x } => {
                self.op_fx29(x);
                Ok(())
            },
            Instruction::Bcd { x } => self.op_fx33(x),
            Instruction::StoreRegisters { x } => self.op_fx55(x),
            Instruction::LoadRegisters { x } => self.op_fx66(x),
            Instruction::Unknown => Ok(()),
        }
    }

    /// Counts both timers down by one, stopping at zero, and reports
    /// whether the sound timer stood at 1.
    pub fn tick_timers(&mut self) -> (beep: bool)
        ensures
            final(self)@ == old(self)@.tick(),
            beep == (old(self)@.sound_timer == 1),
    {
        proof {
            use_type_invariant(&*self);
        }
        if self.delay_timer > 0 {
            self.delay_timer = self.delay_timer - 1;
        }
        let beep = self.sound_timer == 1;
        if self.sound_timer > 0 {
            self.sound_timer = self.sound_timer - 1;
        }
        beep
    }

    /// Reads the instruction word at the program counter, high byte first.
    fn fetch_word(&self) -> (word: Result<u16, Fault>)
        ensures
            match word {
                Ok(w) => self@.can_fetch() && w == self@.next_word(),
                Err(fault) => !self@.can_fetch() && fault == Fault::ProgramCounterOutOfRange,
            },
    {
        let pc: usize = self.pc as usize;
        if pc + 1 >= MEMORY_SIZE {
            return Err(Fault::ProgramCounterOutOfRange);
        }
        let high: u8 = self.memory[pc];
        let low: u8 = self.memory[pc + 1];
        assert((high as u16) << 8 | (low as u16) == high * 256 + low) by (bit_vector);
        Ok((high as u16) << 8 | (low as u16))
    }

    /// The rest of a cycle once the word at the program counter has been
    /// read and decoded: latch the word, move the program counter past it,
    /// execute, count the timers down. A fault undoes the first two.
    fn finish_cycle(&mut self, word: u16, instr: Instruction, random: u8) -> (result: Result<
        CycleReport,
        Fault,
    >)
        requires
            old(self)@.can_fetch(),
            word == old(self)@.next_word(),
            instr == old(self)@.next_instruction(),
            instr.wf(),
        ensures
            old(self)@.cycles_to(random, final(self)@, result),
    {
        proof {
            use_type_invariant(&*self);
        }
        let pc: u16 = self.pc;
        let opcode: u16 = self.opcode;
        self.opcode = word;
        self.pc = pc + 2;
        match self.run_opcode(instr, random) {
            Ok(()) => {
                let beep = self.tick_timers();
                Ok(CycleReport { unknown: matches!(instr, Instruction::Unknown), beep })
            },
            Err(fault) => {
                proof {
                    use_type_invariant(&*self);
                }
                self.pc = pc;
                self.opcode = opcode;
                Err(fault)
            },
        }
    }

    /// Runs one cycle with `random` as the byte that a `Cxkk` instruction
    /// would draw: fetch the word at the program counter, move the program
    /// counter past it, execute the instruction, count both timers down.
    ///
    /// A fault is fatal: it is returned, and the machine is left exactly as
    /// it was, so that every later cycle faults in the same way.
    pub fn cycle_with(&mut self, random: u8) -> (result: Result<CycleReport, Fault>)
        ensures
            old(self)@.cycles_to(random, final(self)@, result),
    {
        match self.fetch_word() {
            Ok(word) => {
                let instr = decode(word);
                self.finish_cycle(word, instr, random)
            },
            Err(fault) => Err(fault),
        }
    }

    /// Runs one cycle, drawing the byte for a `Cxkk` instruction from the
    /// random generator. The cycle is `cycle_with` for some byte.
    pub fn cycle(&mut self) -> (result: Result<CycleReport, Fault>)
        ensures
            exists|random: u8| old(self)@.cycles_to(random, final(self)@, result),
    {
        match self.fetch_word() {
            Ok(word) => {
                let instr = decode(word);
                let random: u8 = match instr {
                    Instruction::Random { .. } => random_byte(),
                    _ => 0,
                };
                let result = self.finish_cycle(word, instr, random);
                assert(old(self)@.cycles_to(random, self@, result));
                result
            },
            Err(fault) => {
                assert(old(self)@.cycles_to(0, self@, Err(fault)));
                Err(fault)
            },
        }
    }

    /// Sets key `key` down or up. The driver calls this between cycles.
    pub fn set_key(&mut self, key: u8, down: bool)
        requires
            key < 16,
        ensures
            final(self)@ == old(self)@.with_key(key as int, down),
    {
        proof {
            use_type_invariant(&*self);
        }
        self.keypad[key as usize] = down;
    }

    /// The sixteen registers.
    pub fn registers(&self) -> (registers: &[u8; 16])
        ensures
            registers@ == self@.registers,
    {
        &self.registers
    }

    /// The 4096 bytes of memory.
    pub fn memory(&self) -> (memory: &[u8; 4096])
        ensures
            memory@ == self@.memory,
    {
        &self.memory
    }

    /// The address register `I`.
    pub fn index(&self) -> (index: u16)
        ensures
            index == self@.index,
    {
        self.index
    }

    /// The program counter.
    pub fn pc(&self) -> (pc: u16)
        ensures
            pc == self@.pc,
    {
        self.pc
    }

    /// The stack pointer: the number of return addresses on the stack.
    pub fn sp(&self) -> (sp: u8)
        ensures
            sp == self@.stack.len(),
    {
        proof {
            use_type_invariant(self);
        }
        self.sp
    }

    /// The delay timer.
    pub fn delay_timer(&self) -> (timer: u8)
        ensures
            timer == self@.delay_timer,
    {
        self.delay_timer
    }

    /// The sound timer.
    pub fn sound_timer(&self) -> (timer: u8)
        ensures
            timer == self@.sound_timer,
    {
        self.sound_timer
    }

    /// For each key, whether it is held down.
    pub fn keypad(&self) -> (keypad: &[bool; 16])
        ensures
            keypad@ == self@.keypad,
    {
        &self.keypad
    }

    /// The frame buffer, row by row: pixel `(x, y)` is element
    /// `y * 64 + x`.
    pub fn display(&self) -> (display: &[bool; 2048])
        ensures
            display@ == self@.display,
    {
        &self.display
    }

    /// Whether the pixel in column `x` of row `y` is lit.
    pub fn pixel(&self, x: usize, y: usize) -> (lit: bool)
        requires
            x < 64,
            y < 32,
        ensures
            lit == self@.display[y * 64 + x],
    {
        self.display[y * SCREEN_WIDTH + x]
    }

    /// The instruction word fetched last.
    pub fn opcode(&self) -> (opcode: u16)
        ensures
            opcode == self@.opcode,
    {
        self.opcode
    }

    /// Every machine stands for a well-formed state, so the laws of the
    /// model apply to its view.
    pub proof fn lemma_view_wf(self)
        requires
            self.inv(),
        ensures
            self@.wf(),
    {
    }
}

} // verus!
