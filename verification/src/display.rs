//! The display as rows of pixels: what a sprite row covers, and when a draw
//! erases.

use vstd::prelude::*;

verus! {

/// Whether the pixel in column `column` of a display row is lit. Column 0 is
/// the highest bit of the row.
pub open spec fn pixel(row: u64, column: u64) -> bool {
    (row >> (63 - column) as u64) & 1 == 1
}

/// Whether bit `k` of a sprite byte is set, counted from the left: bit 0 is
/// the leftmost pixel of the sprite row.
pub open spec fn sprite_pixel(byte: u8, k: u64) -> bool {
    ((byte as u64) >> (7 - k) as u64) & 1 == 1
}

/// A sprite byte laid on a display row with its leftmost pixel in column
/// `x`. What would fall right of the last column is dropped.
pub open spec fn sprite_row(byte: u8, x: u64) -> u64 {
    ((byte as u64) << 56) >> x
}

/// Whether a row that changes from `before` to `after` loses a lit pixel.
pub open spec fn erases(before: u64, after: u64) -> bool {
    before & !after != 0
}

/// A sprite row lights exactly the columns `x` to `x + 7` that exist, each
/// from its own bit of the byte: nothing wraps round to the left edge.
pub proof fn lemma_sprite_row_pixels(byte: u8, x: u64, column: u64)
    requires
        x < 64,
        column < 64,
    ensures
        pixel(sprite_row(byte, x), column) == (x <= column && column - x < 8 && sprite_pixel(
            byte,
            (column - x) as u64,
        )),
{
    let b = byte as u64;
    assert(b < 256);
    assert(x < 64 && column < 64 && b < 256 ==> ((((b << 56) >> x) >> ((63 - column) as u64)) & 1
        == 1) == (x <= column && column - x < 8 && ((b >> ((7 - (column - x)) as u64)) & 1 == 1)))
        by (bit_vector);
}

/// Drawing flips exactly the pixels that the sprite row lights.
pub proof fn lemma_xor_pixel(row: u64, sprite: u64, column: u64)
    requires
        column < 64,
    ensures
        pixel(row ^ sprite, column) == (pixel(row, column) != pixel(sprite, column)),
{
    assert(column < 64 ==> ((((row ^ sprite) >> ((63 - column) as u64)) & 1 == 1) == (((row >> ((63
        - column) as u64)) & 1 == 1) != ((sprite >> ((63 - column) as u64)) & 1 == 1))))
        by (bit_vector);
}

/// A pixel that was lit and is dark afterwards makes the row an erasing one.
pub proof fn lemma_erased_pixel(before: u64, after: u64, column: u64)
    requires
        column < 64,
        pixel(before, column),
        !pixel(after, column),
    ensures
        erases(before, after),
{
    assert(column < 64 && ((before >> ((63 - column) as u64)) & 1 == 1) && !((after >> ((63
        - column) as u64)) & 1 == 1) ==> before & !after != 0) by (bit_vector);
}

/// A row with a lit pixel somewhere from column `from` on has a lit pixel
/// that can be named.
proof fn lemma_lit_pixel(row: u64, from: u64)
    requires
        from < 64,
        row & (0xFFFF_FFFF_FFFF_FFFFu64 >> from) != 0,
    ensures
        exists|column: u64| from <= column < 64 && pixel(row, column),
    decreases 64 - from,
{
    if pixel(row, from) {
    } else {
        assert(from < 64 && row & (0xFFFF_FFFF_FFFF_FFFFu64 >> from) != 0 && !((row >> ((63
            - from) as u64)) & 1 == 1) ==> from < 63 && row & (0xFFFF_FFFF_FFFF_FFFFu64 >> ((from
            + 1) as u64)) != 0) by (bit_vector);
        lemma_lit_pixel(row, (from + 1) as u64);
        let column = choose|column: u64| from + 1 <= column < 64 && pixel(row, column);
        assert(from <= column < 64 && pixel(row, column));
    }
}

/// A row erases exactly where one of its pixels was lit before and is dark
/// afterwards.
pub proof fn lemma_erases_some_pixel(before: u64, after: u64)
    ensures
        erases(before, after) <==> exists|column: u64|
            column < 64 && pixel(before, column) && !pixel(after, column),
{
    let lost = before & !after;
    assert forall|column: u64| column < 64 implies pixel(lost, column) == (pixel(before, column)
        && !pixel(after, column)) by {
        assert(column < 64 ==> ((((before & !after) >> ((63 - column) as u64)) & 1 == 1) == (((
        before >> ((63 - column) as u64)) & 1 == 1) && !((after >> ((63 - column) as u64)) & 1
            == 1)))) by (bit_vector);
    }
    if erases(before, after) {
        assert(lost & (0xFFFF_FFFF_FFFF_FFFFu64 >> 0u64) != 0) by (bit_vector)
            requires
                lost != 0,
        ;
        lemma_lit_pixel(lost, 0);
        let column = choose|column: u64| 0 <= column < 64 && pixel(lost, column);
        assert(column < 64 && pixel(before, column) && !pixel(after, column));
    }
    if exists|column: u64| column < 64 && pixel(before, column) && !pixel(after, column) {
        let column = choose|column: u64|
            column < 64 && pixel(before, column) && !pixel(after, column);
        lemma_erased_pixel(before, after, column);
    }
}

/// A row that is XORed with a sprite row erases exactly when the two have a
/// lit pixel in common.
pub proof fn lemma_erases_overlap(row: u64, sprite: u64)
    ensures
        erases(row, row ^ sprite) == (row & sprite != 0),
        erases(row, row ^ sprite) == ((row & (row ^ sprite)) < row),
{
    assert((row & !(row ^ sprite) != 0) == (row & sprite != 0)) by (bit_vector);
    assert((row & !(row ^ sprite) != 0) == ((row & (row ^ sprite)) < row)) by (bit_vector);
}

/// Drawing the same sprite row twice gives the row back.
pub proof fn lemma_xor_twice(row: u64, sprite: u64)
    ensures
        (row ^ sprite) ^ sprite == row,
{
    assert((row ^ sprite) ^ sprite == row) by (bit_vector);
}

/// Paints the display into a buffer of 64 x 32 colours, row after row from
/// the top, each row from the left: `on` for a lit pixel, `off` for a dark
/// one.
pub fn render(rows: &[u64; 32], off: u32, on: u32) -> (buffer: Vec<u32>)
    ensures
        buffer@.len() == 64 * 32,
        forall|k: int|
            0 <= k < 64 * 32 ==> buffer@[k] == if pixel(rows@[k / 64], (k % 64) as u64) {
                on
            } else {
                off
            },
{
    let mut buffer: Vec<u32> = Vec::new();
    let mut y: usize = 0;
    while y < 32
        invariant
            y <= 32,
            buffer@.len() == 64 * y,
            forall|k: int|
                0 <= k < 64 * y ==> buffer@[k] == if pixel(rows@[k / 64], (k % 64) as u64) {
                    on
                } else {
                    off
                },
        decreases 32 - y,
    {
        let mut x: usize = 0;
        while x < 64
            invariant
                y < 32,
                x <= 64,
                buffer@.len() == 64 * y + x,
                forall|k: int|
                    0 <= k < 64 * y + x ==> buffer@[k] == if pixel(
                        rows@[k / 64],
                        (k % 64) as u64,
                    ) {
                        on
                    } else {
                        off
                    },
            decreases 64 - x,
        {
            let lit = (rows[y] >> (63 - x as u64)) & 1 == 1;
            buffer.push(
                if lit {
                    on
                } else {
                    off
                },
            );
            x += 1;
        }
        y += 1;
    }
    buffer
}

} // verus!
