//! The frame buffer and sprite drawing.
//!
//! The screen is 64 pixels wide and 32 high, stored row by row: pixel
//! `(px, py)` is element `py * 64 + px`. A sprite is a run of bytes, one per
//! row, whose bits are eight pixels with the most significant bit leftmost.
//! Drawing toggles every screen pixel under a set sprite bit; sprite pixels
//! that fall off the right or bottom edge are dropped.

use vstd::prelude::*;

verus! {

/// Screen width in pixels.
pub const SCREEN_WIDTH: usize = 64;

/// Screen height in pixels.
pub const SCREEN_HEIGHT: usize = 32;

/// Whether pixel `col` of a sprite row is set, `col` 0 being the leftmost.
pub open spec fn sprite_bit(row: u8, col: int) -> bool
    recommends
        0 <= col < 8,
{
    row & (0x80u8 >> (col as u8)) != 0
}

/// Whether the sprite `rows`, placed with its top-left corner at
/// `(ox, oy)`, has a set bit on the screen pixel with index `p`.
pub open spec fn covers(rows: Seq<u8>, ox: int, oy: int, p: int) -> bool {
    let px = p % 64;
    let py = p / 64;
    &&& ox <= px < ox + 8
    &&& oy <= py < oy + rows.len()
    &&& sprite_bit(rows[py - oy], px - ox)
}

/// The screen after drawing: each covered pixel is toggled, every other
/// pixel is kept.
pub open spec fn blit(display: Seq<bool>, rows: Seq<u8>, ox: int, oy: int) -> Seq<bool> {
    Seq::new(display.len(), |p: int| display[p] != covers(rows, ox, oy, p))
}

/// Whether drawing switches off at least one pixel that was on.
pub open spec fn collides(display: Seq<bool>, rows: Seq<u8>, ox: int, oy: int) -> bool {
    exists|p: int| 0 <= p < display.len() && display[p] && #[trigger] covers(rows, ox, oy, p)
}

/// `covers`, restricted to the sprite pixels that come before column `col`
/// of sprite row `row` in drawing order.
spec fn covers_before(rows: Seq<u8>, ox: int, oy: int, p: int, row: int, col: int) -> bool {
    &&& covers(rows, ox, oy, p)
    &&& (p / 64 - oy < row || (p / 64 - oy == row && p % 64 - ox < col))
}

/// The collision flag after the sprite pixels before `(row, col)`.
spec fn collides_before(
    display: Seq<bool>,
    rows: Seq<u8>,
    ox: int,
    oy: int,
    row: int,
    col: int,
) -> bool {
    exists|p: int|
        0 <= p < display.len() && display[p] && #[trigger] covers_before(rows, ox, oy, p, row, col)
}

/// Draws the `n`-row sprite stored at `memory[index..index + n]` with its
/// top-left corner at `(ox, oy)` and reports whether any lit pixel was
/// switched off.
pub fn draw_sprite(
    display: &mut [bool; 2048],
    memory: &[u8; 4096],
    index: usize,
    n: usize,
    ox: u8,
    oy: u8,
) -> (collision: bool)
    requires
        index + n <= 4096,
        n <= 15,
        ox < 64,
        oy < 32,
    ensures
        final(display)@ == blit(
            old(display)@,
            memory@.subrange(index as int, index + n),
            ox as int,
            oy as int,
        ),
        collision == collides(
            old(display)@,
            memory@.subrange(index as int, index + n),
            ox as int,
            oy as int,
        ),
    no_unwind
{
    let ghost before = display@;
    let ghost rows = memory@.subrange(index as int, index + n);
    let mut collision = false;
    let mut row: usize = 0;
    while row < n
        invariant
            row <= n <= 15,
            index + n <= 4096,
            ox < 64,
            oy < 32,
            before.len() == 2048,
            rows == memory@.subrange(index as int, index + n),
            forall|p: int|
                0 <= p < 2048 ==> display@[p] == (before[p] != covers_before(
                    rows,
                    ox as int,
                    oy as int,
                    p,
                    row as int,
                    0,
                )),
            collision == collides_before(before, rows, ox as int, oy as int, row as int, 0),
        decreases n - row,
    {
        let bits: u8 = memory[index + row];
        let py: usize = oy as usize + row;
        let mut col: u8 = 0;
        while col < 8
            invariant
                col <= 8,
                row < n <= 15,
                index + n <= 4096,
                ox < 64,
                oy < 32,
                py == oy + row,
                before.len() == 2048,
                rows == memory@.subrange(index as int, index + n),
                bits == rows[row as int],
                forall|p: int|
                    0 <= p < 2048 ==> display@[p] == (before[p] != covers_before(
                        rows,
                        ox as int,
                        oy as int,
                        p,
                        row as int,
                        col as int,
                    )),
                collision == collides_before(
                    before,
                    rows,
                    ox as int,
                    oy as int,
                    row as int,
                    col as int,
                ),
            decreases 8 - col,
        {
            let px: usize = ox as usize + col as usize;
            let ghost shown = display@;
            let ghost was = collision;
            if py < SCREEN_HEIGHT && px < SCREEN_WIDTH && bits & (0x80u8 >> col) != 0 {
                let p: usize = py * SCREEN_WIDTH + px;
                if display[p] {
                    collision = true;
                }
                display[p] = !display[p];
                proof {
                    let lit = p as int;
                    assert(lit % 64 == px && lit / 64 == py);
                    assert(covers_before(rows, ox as int, oy as int, lit, row as int, col + 1));
                    assert(!covers_before(rows, ox as int, oy as int, lit, row as int, col as int));
                    assert forall|q: int| 0 <= q < 2048 && q != lit implies covers_before(
                        rows,
                        ox as int,
                        oy as int,
                        q,
                        row as int,
                        col + 1,
                    ) == covers_before(rows, ox as int, oy as int, q, row as int, col as int) by {
                        assert(q == 64 * (q / 64) + q % 64);
                    }
                    if shown[lit] {
                        assert(before[lit]);
                    } else if was {
                        let w = choose|w: int|
                            0 <= w < 2048 && before[w] && #[trigger] covers_before(
                                rows,
                                ox as int,
                                oy as int,
                                w,
                                row as int,
                                col as int,
                            );
                        assert(covers_before(rows, ox as int, oy as int, w, row as int, col + 1));
                    }
                }
            } else {
                proof {
                    assert forall|q: int| 0 <= q < 2048 implies covers_before(
                        rows,
                        ox as int,
                        oy as int,
                        q,
                        row as int,
                        col + 1,
                    ) == covers_before(rows, ox as int, oy as int, q, row as int, col as int) by {
                        assert(q == 64 * (q / 64) + q % 64);
                    }
                    if was {
                        let w = choose|w: int|
                            0 <= w < 2048 && before[w] && #[trigger] covers_before(
                                rows,
                                ox as int,
                                oy as int,
                                w,
                                row as int,
                                col as int,
                            );
                        assert(covers_before(rows, ox as int, oy as int, w, row as int, col + 1));
                    }
                }
            }
            col = col + 1;
        }
        proof {
            assert forall|q: int| 0 <= q < 2048 implies covers_before(
                rows,
                ox as int,
                oy as int,
                q,
                row + 1,
                0,
            ) == covers_before(rows, ox as int, oy as int, q, row as int, 8) by {}
            if collision {
                let w = choose|w: int|
                    0 <= w < 2048 && before[w] && #[trigger] covers_before(
                        rows,
                        ox as int,
                        oy as int,
                        w,
                        row as int,
                        8,
                    );
                assert(covers_before(rows, ox as int, oy as int, w, row + 1, 0));
            }
        }
        row = row + 1;
    }
    proof {
        assert forall|q: int| 0 <= q < 2048 implies covers_before(
            rows,
            ox as int,
            oy as int,
            q,
            n as int,
            0,
        ) == covers(rows, ox as int, oy as int, q) by {}
        assert(display@ =~= blit(before, rows, ox as int, oy as int));
        if collision {
            let w = choose|w: int|
                0 <= w < 2048 && before[w] && #[trigger] covers_before(
                    rows,
                    ox as int,
                    oy as int,
                    w,
                    n as int,
                    0,
                );
            assert(covers(rows, ox as int, oy as int, w));
        }
    }
    collision
}

} // verus!
