//! The abstract machine: what a CHIP-8 engine is, apart from how it is stored.

use crate::glyphs::glyph_byte;
use vstd::prelude::*;

verus! {

/// The number of general registers, V0 to VF.
pub const REGISTERS: usize = 16;

/// The size of the address space in bytes.
pub const MEMORY: usize = 0x1000;

/// The number of return addresses the call stack can hold.
pub const STACK_DEPTH: usize = 8;

/// The number of display rows.
pub const ROWS: usize = 32;

/// The number of keys on the pad.
pub const KEYS: usize = 16;

/// Which of two historical behaviours an instruction family follows.
#[derive(Clone, Copy, Debug, PartialEq, Eq, Structural)]
pub enum Profile {
    Legacy,
    Modern,
}

/// The compatibility settings of one machine, fixed when it is built.
#[derive(Clone, Copy, Debug, PartialEq, Eq, Structural)]
pub struct Compatibility {
    /// 8XY6 and 8XYE: `Legacy` shifts V[Y] in place and copies the result to
    /// V[X]; `Modern` shifts V[X] and ignores Y.
    pub shift_source: Profile,
    /// FX55 and FX65: `Legacy` leaves I as it was; `Modern` advances I past
    /// the block that was copied.
    pub block_increment: Profile,
}

/// The state of a machine as a mathematical value.
#[verifier::ext_equal]
pub struct Machine {
    /// The registers V0 to VF.
    pub v: Seq<u8>,
    /// The index register.
    pub i: int,
    /// The address of the next instruction to fetch.
    pub pc: int,
    /// The program counter that the instruction under execution has asked
    /// for, before it is brought back into the address space.
    pub next: int,
    /// The slot of the call stack that the next call fills.
    pub sp: int,
    /// The call stack, a ring of return addresses.
    pub stack: Seq<u16>,
    /// The memory.
    pub ram: Seq<u8>,
    /// The display, one 64-bit word per row, the leftmost pixel in the
    /// highest bit.
    pub fb: Seq<u64>,
    /// The delay timer.
    pub delay: u8,
    /// The sound timer.
    pub sound: u8,
    /// The keys that are held down.
    pub keypad: Seq<bool>,
    /// The instruction word fetched last.
    pub opcode: u16,
    /// The compatibility settings.
    pub profile: Compatibility,
}

impl Machine {
    /// The shape every machine has: the sizes of its parts, and the registers
    /// that hold addresses within their ranges.
    pub open spec fn wf(self) -> bool {
        &&& self.v.len() == REGISTERS
        &&& self.ram.len() == MEMORY
        &&& self.stack.len() == STACK_DEPTH
        &&& self.fb.len() == ROWS
        &&& self.keypad.len() == KEYS
        &&& 0 <= self.i < MEMORY
        &&& 0 <= self.pc < MEMORY
        &&& 0 <= self.sp < STACK_DEPTH
        &&& 0 <= self.next <= u16::MAX
    }

    /// The memory of a machine that was just built: the glyphs from address
    /// 0, the program from the entry address, as much of it as fits below the
    /// end of memory, and zero everywhere else.
    pub open spec fn boot_memory(rom: Seq<u8>) -> Seq<u8> {
        Seq::new(
            0x1000,
            |address: int|
                if address < 80 {
                    glyph_byte(address)
                } else if 0x200 <= address < 0x200 + rom.len() {
                    rom[address - 0x200]
                } else {
                    0u8
                },
        )
    }

    /// The machine that was just built from a program image: registers,
    /// timers, stack and display zeroed, no key held, and the program counter
    /// at the entry address.
    pub open spec fn boot(rom: Seq<u8>, profile: Compatibility) -> Machine {
        Machine {
            v: Seq::new(16, |k: int| 0u8),
            i: 0,
            pc: 0x200,
            next: 0x202,
            sp: 0,
            stack: Seq::new(8, |k: int| 0u16),
            ram: Self::boot_memory(rom),
            fb: Seq::new(32, |row: int| 0u64),
            delay: 0,
            sound: 0,
            keypad: Seq::new(16, |k: int| false),
            opcode: 0,
            profile,
        }
    }
}

} // verus!
