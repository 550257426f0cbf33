//! The built-in glyphs: the sixteen hexadecimal digits, each four pixels wide
//! and five rows tall, at the bottom of memory.

use vstd::prelude::*;

verus! {

/// The rows of the glyph for `digit`, top to bottom, each row in the high
/// four bits of its byte.
pub open spec fn glyph(digit: int) -> Seq<u8> {
    if digit == 0x0 {
        seq![0xF0u8, 0x90u8, 0x90u8, 0x90u8, 0xF0u8]
    } else if digit == 0x1 {
        seq![0x20u8, 0x60u8, 0x20u8, 0x20u8, 0x70u8]
    } else if digit == 0x2 {
        seq![0xF0u8, 0x10u8, 0xF0u8, 0x80u8, 0xF0u8]
    } else if digit == 0x3 {
        seq![0xF0u8, 0x10u8, 0xF0u8, 0x10u8, 0xF0u8]
    } else if digit == 0x4 {
        seq![0x90u8, 0x90u8, 0xF0u8, 0x10u8, 0x10u8]
    } else if digit == 0x5 {
        seq![0xF0u8, 0x80u8, 0xF0u8, 0x10u8, 0xF0u8]
    } else if digit == 0x6 {
        seq![0xF0u8, 0x80u8, 0xF0u8, 0x90u8, 0xF0u8]
    } else if digit == 0x7 {
        seq![0xF0u8, 0x10u8, 0x20u8, 0x40u8, 0x40u8]
    } else if digit == 0x8 {
        seq![0xF0u8, 0x90u8, 0xF0u8, 0x90u8, 0xF0u8]
    } else if digit == 0x9 {
        seq![0xF0u8, 0x90u8, 0xF0u8, 0x10u8, 0xF0u8]
    } else if digit == 0xA {
        seq![0xF0u8, 0x90u8, 0xF0u8, 0x90u8, 0x90u8]
    } else if digit == 0xB {
        seq![0xE0u8, 0x90u8, 0xE0u8, 0x90u8, 0xE0u8]
    } else if digit == 0xC {
        seq![0xF0u8, 0x80u8, 0x80u8, 0x80u8, 0xF0u8]
    } else if digit == 0xD {
        seq![0xE0u8, 0x90u8, 0x90u8, 0x90u8, 0xE0u8]
    } else if digit == 0xE {
        seq![0xF0u8, 0x80u8, 0xF0u8, 0x80u8, 0xF0u8]
    } else {
        seq![0xF0u8, 0x80u8, 0xF0u8, 0x80u8, 0x80u8]
    }
}

/// The byte of the glyphs that lies at `address`: glyph `address / 5`, row
/// `address % 5`.
pub open spec fn glyph_byte(address: int) -> u8 {
    glyph(address / 5)[address % 5]
}

/// Whether the first `5 * digits` bytes of `ram` are the glyphs for the
/// digits below `digits`.
pub open spec fn holds_glyphs(ram: Seq<u8>, digits: int) -> bool {
    forall|address: int| 0 <= address < 5 * digits ==> ram[address] == glyph_byte(address)
}

/// Writes the five rows of one glyph at address `5 * digit`.
fn put_glyph(ram: &mut [u8; 0x1000], digit: usize, rows: [u8; 5])
    requires
        digit < 16,
        rows@ == glyph(digit as int),
        holds_glyphs(old(ram)@, digit as int),
    ensures
        holds_glyphs(final(ram)@, digit + 1),
        forall|address: int|
            5 * (digit + 1) <= address < 0x1000 ==> final(ram)@[address] == old(ram)@[address],
{
    let base = 5 * digit;
    ram[base] = rows[0];
    ram[base + 1] = rows[1];
    ram[base + 2] = rows[2];
    ram[base + 3] = rows[3];
    ram[base + 4] = rows[4];
    proof {
        assert forall|address: int| 0 <= address < 5 * (digit + 1) implies ram@[address]
            == glyph_byte(address) by {
            if address >= base {
                assert(address / 5 == digit as int);
                assert(address % 5 == address - base);
            }
        }
    }
}

/// Writes the glyphs into the first 80 bytes of `ram` and leaves the rest.
pub fn init_ram(ram: [u8; 0x1000]) -> (out: [u8; 0x1000])
    ensures
        forall|address: int| 0 <= address < 80 ==> out@[address] == glyph_byte(address),
        forall|address: int| 80 <= address < 0x1000 ==> out@[address] == ram@[address],
{
    let mut ram = ram;
    put_glyph(&mut ram, 0x0, [0b11110000, 0b10010000, 0b10010000, 0b10010000, 0b11110000]);
    put_glyph(&mut ram, 0x1, [0b00100000, 0b01100000, 0b00100000, 0b00100000, 0b01110000]);
    put_glyph(&mut ram, 0x2, [0b11110000, 0b00010000, 0b11110000, 0b10000000, 0b11110000]);
    put_glyph(&mut ram, 0x3, [0b11110000, 0b00010000, 0b11110000, 0b00010000, 0b11110000]);
    put_glyph(&mut ram, 0x4, [0b10010000, 0b10010000, 0b11110000, 0b00010000, 0b00010000]);
    put_glyph(&mut ram, 0x5, [0b11110000, 0b10000000, 0b11110000, 0b00010000, 0b11110000]);
    put_glyph(&mut ram, 0x6, [0b11110000, 0b10000000, 0b11110000, 0b10010000, 0b11110000]);
    put_glyph(&mut ram, 0x7, [0b11110000, 0b00010000, 0b00100000, 0b01000000, 0b01000000]);
    put_glyph(&mut ram, 0x8, [0b11110000, 0b10010000, 0b11110000, 0b10010000, 0b11110000]);
    put_glyph(&mut ram, 0x9, [0b11110000, 0b10010000, 0b11110000, 0b00010000, 0b11110000]);
    put_glyph(&mut ram, 0xA, [0b11110000, 0b10010000, 0b11110000, 0b10010000, 0b10010000]);
    put_glyph(&mut ram, 0xB, [0b11100000, 0b10010000, 0b11100000, 0b10010000, 0b11100000]);
    put_glyph(&mut ram, 0xC, [0b11110000, 0b10000000, 0b10000000, 0b10000000, 0b11110000]);
    put_glyph(&mut ram, 0xD, [0b11100000, 0b10010000, 0b10010000, 0b10010000, 0b11100000]);
    put_glyph(&mut ram, 0xE, [0b11110000, 0b10000000, 0b11110000, 0b10000000, 0b11110000]);
    put_glyph(&mut ram, 0xF, [0b11110000, 0b10000000, 0b11110000, 0b10000000, 0b10000000]);
    ram
}

} // verus!
