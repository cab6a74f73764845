//! Laws of the machine, proved of the model in [`crate::state`].
//!
//! Each law is stated for every well-formed state and every operand in
//! range. The executable machine inherits them through the contracts of
//! [`crate::machine::Chip8`], which say that its methods move its view as
//! the model prescribes.

use vstd::prelude::*;
use crate::instruction::{lemma_decode_wf, Instruction};
use crate::sprite::{blit, collides, covers};
use crate::state::{countdown, flag, lemma_lowest_key_down, lowest_key_down, State};

verus! {

/// Adding an immediate wraps modulo 256 and leaves every other register,
/// `VF` included, as it was.
pub proof fn law_add_byte_wraps(s: State, x: u8, kk: u8)
    requires
        s.wf(),
        x < 16,
    ensures
        s.add_byte(x, kk).reg(x) == (s.reg(x) + kk) % 256,
        forall|r: u8| r < 16 && r != x ==> s.add_byte(x, kk).reg(r) == s.reg(r),
{
}

/// Register addition wraps modulo 256 and sets `VF` to the carry: `VF` is 0
/// or 1, it is 1 exactly when the sum does not fit in a byte, and the
/// result with the carry as its ninth bit is the true sum. The flag is
/// written last, so it wins when `VF` is itself the destination.
pub proof fn law_add_reg_carries(s: State, x: u8, y: u8)
    requires
        s.wf(),
        x < 16,
        y < 16,
    ensures
        ({
            let t = s.add_reg(x, y);
            let sum = s.reg(x) + s.reg(y);
            &&& t.reg(0xF) == 0 || t.reg(0xF) == 1
            &&& t.reg(0xF) == 1 <==> sum > 255
            &&& x != 0xF ==> t.reg(x) == sum % 256
            &&& x != 0xF ==> t.reg(x) + 256 * t.reg(0xF) == sum
            &&& forall|r: u8| r < 16 && r != x && r != 0xF ==> t.reg(r) == s.reg(r)
        }),
{
}

/// Register subtraction `Vx - Vy` wraps modulo 256 and sets `VF` to the
/// borrow: `VF` is 0 or 1, it is 1 exactly when `Vx < Vy`, and the result
/// less 256 times the borrow is the true difference.
pub proof fn law_sub_reg_borrows(s: State, x: u8, y: u8)
    requires
        s.wf(),
        x < 16,
        y < 16,
    ensures
        ({
            let t = s.sub_reg(x, y);
            let difference = s.reg(x) - s.reg(y);
            &&& t.reg(0xF) == 0 || t.reg(0xF) == 1
            &&& t.reg(0xF) == 1 <==> s.reg(x) < s.reg(y)
            &&& x != 0xF ==> t.reg(x) == difference % 256
            &&& x != 0xF ==> t.reg(x) - 256 * t.reg(0xF) == difference
            &&& forall|r: u8| r < 16 && r != x && r != 0xF ==> t.reg(r) == s.reg(r)
        }),
{
}

/// Reversed subtraction `Vy - Vx` wraps modulo 256 into `Vy` and sets `VF`
/// to the borrow, in the same way.
pub proof fn law_sub_from_borrows(s: State, x: u8, y: u8)
    requires
        s.wf(),
        x < 16,
        y < 16,
    ensures
        ({
            let t = s.sub_from(x, y);
            let difference = s.reg(y) - s.reg(x);
            &&& t.reg(0xF) == 0 || t.reg(0xF) == 1
            &&& t.reg(0xF) == 1 <==> s.reg(y) < s.reg(x)
            &&& y != 0xF ==> t.reg(y) == difference % 256
            &&& y != 0xF ==> t.reg(y) - 256 * t.reg(0xF) == difference
            &&& forall|r: u8| r < 16 && r != y && r != 0xF ==> t.reg(r) == s.reg(r)
        }),
{
}

/// The shifts lose nothing: the result together with the bit in `VF` gives
/// the old value back, and `VF` is 0 or 1.
pub proof fn law_shifts_keep_the_bit(s: State, x: u8)
    requires
        s.wf(),
        x < 0xF,
    ensures
        s.shift_right(x).reg(0xF) <= 1,
        s.shift_right(x).reg(x) * 2 + s.shift_right(x).reg(0xF) == s.reg(x),
        s.shift_left(x).reg(0xF) <= 1,
        s.shift_left(x).reg(x) + 256 * s.shift_left(x).reg(0xF) == 2 * s.reg(x),
{
}

/// The three bytes that `Fx33` stores are decimal digits, and they spell
/// the value of `Vx`; no other byte of memory changes.
pub proof fn law_bcd_digits(s: State, x: u8)
    requires
        s.wf(),
        x < 16,
        s.index + 2 < 4096,
    ensures
        ({
            let m = s.bcd(x).memory;
            let i = s.index as int;
            &&& m[i] < 10 && m[i + 1] < 10 && m[i + 2] < 10
            &&& 100 * m[i] + 10 * m[i + 1] + m[i + 2] == s.reg(x)
            &&& forall|a: int| 0 <= a < 4096 && !(i <= a <= i + 2) ==> m[a] == s.memory[a]
        }),
{
}

/// Drawing is its own inverse on the screen: the same sprite drawn twice
/// at the same place leaves every pixel as it was.
pub proof fn law_blit_twice(display: Seq<bool>, rows: Seq<u8>, ox: int, oy: int)
    ensures
        blit(blit(display, rows, ox, oy), rows, ox, oy) == display,
{
    assert(blit(blit(display, rows, ox, oy), rows, ox, oy) =~= display);
}

/// The second of two identical draws collides exactly when the first one
/// lit a pixel, that is, when some pixel under the sprite was dark before
/// the first draw.
pub proof fn law_second_collision(display: Seq<bool>, rows: Seq<u8>, ox: int, oy: int)
    ensures
        collides(blit(display, rows, ox, oy), rows, ox, oy) <==> exists|p: int|
            0 <= p < display.len() && !display[p] && #[trigger] covers(rows, ox, oy, p),
{
    let once = blit(display, rows, ox, oy);
    if collides(once, rows, ox, oy) {
        let p = choose|p: int| 0 <= p < once.len() && once[p] && #[trigger] covers(rows, ox, oy, p);
        assert(0 <= p < display.len() && !display[p] && covers(rows, ox, oy, p));
    }
    if exists|p: int| 0 <= p < display.len() && !display[p] && #[trigger] covers(rows, ox, oy, p) {
        let p = choose|p: int|
            0 <= p < display.len() && !display[p] && #[trigger] covers(rows, ox, oy, p);
        assert(0 <= p < once.len() && once[p] && covers(rows, ox, oy, p));
    }
}

/// `Dxyn` twice in succession, at the same place, restores the screen, and
/// the second draw sets `VF` exactly when the first one lit a pixel.
///
/// The place is the same whenever neither `x` nor `y` is `F`; otherwise the
/// first draw's flag may move the sprite, and the law asks that it does
/// not.
pub proof fn law_draw_twice(s: State, x: u8, y: u8, n: u8)
    requires
        s.wf(),
        x < 16,
        y < 16,
        s.draw(x, y, n).origin_x(x) == s.origin_x(x),
        s.draw(x, y, n).origin_y(y) == s.origin_y(y),
    ensures
        s.draw(x, y, n).draw(x, y, n).display == s.display,
        s.draw(x, y, n).draw(x, y, n).reg(0xF) == flag(
            exists|p: int|
                0 <= p < 2048 && !s.display[p] && #[trigger] covers(
                    s.sprite(n),
                    s.origin_x(x),
                    s.origin_y(y),
                    p,
                ),
        ),
        s.draw(x, y, n).draw(x, y, n).memory == s.memory,
        s.draw(x, y, n).draw(x, y, n).index == s.index,
{
    let ox = s.origin_x(x);
    let oy = s.origin_y(y);
    let once = s.draw(x, y, n);
    assert(once.sprite(n) == s.sprite(n));
    law_blit_twice(s.display, s.sprite(n), ox, oy);
    law_second_collision(s.display, s.sprite(n), ox, oy);
}

/// A cycle whose instruction is a skip moves the program counter by 4 when
/// the condition holds and by 2 when it does not, latches the word, counts
/// the timers down and changes nothing else.
pub proof fn law_skip_advances(s: State, random: u8)
    requires
        s.wf(),
        s.step_fault() is None,
        s.next_instruction().is_skip(),
    ensures
        s.step(random).pc == s.pc + if s.condition(s.next_instruction()) {
            4int
        } else {
            2int
        },
        s.step(random) == (State {
            pc: s.step(random).pc,
            opcode: s.next_word(),
            delay_timer: countdown(s.delay_timer),
            sound_timer: countdown(s.sound_timer),
            ..s
        }),
{
    let instr = s.next_instruction();
    assert(s.fetch().condition(instr) == s.condition(instr));
}

/// Every cycle that does not fault counts each timer down by exactly one
/// while it is positive and holds it at zero, whatever instruction ran. The
/// timer counted is the one that the instruction left: the old value,
/// unless the instruction was the one that sets this timer from `Vx`.
pub proof fn law_timers_count_down(s: State, random: u8)
    requires
        s.wf(),
        s.step_fault() is None,
    ensures
        ({
            let instr = s.next_instruction();
            let delay = match instr {
                Instruction::SetDelay { x } => s.reg(x),
                _ => s.delay_timer,
            };
            let sound = match instr {
                Instruction::SetSound { x } => s.reg(x),
                _ => s.sound_timer,
            };
            &&& delay > 0 ==> s.step(random).delay_timer == delay - 1
            &&& delay == 0 ==> s.step(random).delay_timer == 0
            &&& sound > 0 ==> s.step(random).sound_timer == sound - 1
            &&& sound == 0 ==> s.step(random).sound_timer == 0
            &&& s.step_report(random).beep <==> sound == 1
        }),
{
    lemma_decode_wf(s.next_word());
}

/// A call followed at once by a return gives back the program counter and
/// the stack, and changes nothing else.
pub proof fn law_call_then_return(s: State, addr: u16)
    requires
        s.wf(),
        s.stack.len() < 16,
    ensures
        s.call(addr).stack.len() == s.stack.len() + 1,
        s.call(addr).fault(Instruction::Return) is None,
        s.call(addr).ret() == s,
{
    assert(s.stack.push(s.pc).drop_last() =~= s.stack);
}

/// While no key is down, a cycle on `Fx0A` leaves the program counter on
/// that instruction and every register as it was.
pub proof fn law_wait_key_stalls(s: State, random: u8)
    requires
        s.wf(),
        s.can_fetch(),
        s.next_instruction() is WaitKey,
        forall|k: int| 0 <= k < 16 ==> !s.keypad[k],
    ensures
        s.step_fault() is None,
        s.step(random).pc == s.pc,
        s.step(random).registers == s.registers,
{
    assert(lowest_key_down(s.keypad) is None);
}

/// With a key down, a cycle on `Fx0A` stores the number of the lowest key
/// that is down in `Vx` and moves the program counter on by 2.
pub proof fn law_wait_key_latches(s: State, random: u8, key: int)
    requires
        s.wf(),
        s.can_fetch(),
        s.next_instruction() is WaitKey,
        0 <= key < 16,
        s.keypad[key],
        forall|k: int| 0 <= k < key ==> !s.keypad[k],
    ensures
        s.step_fault() is None,
        s.step(random).pc == s.pc + 2,
        s.step(random).reg(s.next_instruction()->WaitKey_x) == key,
{
    lemma_decode_wf(s.next_word());
    lemma_lowest_key_down(s.keypad, key);
}

/// A cycle that does not fault takes well-formed states to well-formed
/// states: in particular the stack never grows past sixteen entries.
pub proof fn law_step_keeps_wf(s: State, random: u8)
    requires
        s.wf(),
        s.step_fault() is None,
    ensures
        s.step(random).wf(),
{
    lemma_decode_wf(s.next_word());
}

} // verus!
