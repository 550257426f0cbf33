//! The instruction set, written as functions on the abstract machine.
//!
//! One step is [`step`]: the word at the program counter is latched
//! ([`fetched`]), the instruction it encodes acts on the machine
//! ([`execute`]), and the program counter takes the value that the
//! instruction left in `next`, brought back into the address space
//! ([`retire`]).

use crate::decode::{classify, field_n, field_nn, field_nnn, field_x, field_y, word, Instruction};
use crate::display::{erases, sprite_row};
use crate::machine::{Machine, Profile};
use vstd::prelude::*;

verus! {

/// Why a step could not run.
#[derive(Clone, Copy, Debug, PartialEq, Eq, Structural)]
pub enum VmError {
    /// The word at the program counter encodes no instruction.
    UnknownOpcode(u16),
}

/// The instruction word at the program counter. Its second byte is taken from
/// address 0 when the first is the last byte of memory.
pub open spec fn fetch(s: Machine) -> u16 {
    word(s.ram[s.pc], s.ram[(s.pc + 1) % 4096])
}

/// The machine once the word at the program counter is latched and the
/// default successor, two bytes on, is set.
pub open spec fn fetched(s: Machine) -> Machine {
    Machine { opcode: fetch(s), next: s.pc + 2, ..s }
}

/// The machine once the program counter has taken the successor that the
/// instruction asked for.
pub open spec fn retire(s: Machine) -> Machine {
    Machine { pc: s.next % 4096, ..s }
}

/// The machine with register `x` set to `value`.
pub open spec fn with_register(s: Machine, x: int, value: u8) -> Machine {
    Machine { v: s.v.update(x, value), ..s }
}

/// The machine with VF set to 1 or 0.
pub open spec fn with_flag(s: Machine, flag: bool) -> Machine {
    with_register(
        s,
        0xF,
        if flag {
            1u8
        } else {
            0u8
        },
    )
}

/// The machine with the successor moved past one more instruction where
/// `condition` holds.
pub open spec fn skip_if(s: Machine, condition: bool) -> Machine {
    if condition {
        Machine { next: s.next + 2, ..s }
    } else {
        s
    }
}

/// 00E0: every pixel dark.
pub open spec fn clear_display(s: Machine) -> Machine {
    Machine { fb: Seq::new(32, |row: int| 0u64), ..s }
}

/// 00EE: the successor is the return address in the slot below the stack
/// pointer, and the pointer moves down to it. Slot 0 has slot 7 below it.
pub open spec fn return_from(s: Machine) -> Machine {
    let sp = (s.sp + 7) % 8;
    Machine { sp, next: s.stack[sp] as int, ..s }
}

/// 1NNN: the successor is NNN.
pub open spec fn jump(s: Machine) -> Machine {
    Machine { next: field_nnn(s.opcode), ..s }
}

/// 2NNN: the address after this instruction goes into the slot at the stack
/// pointer, the pointer moves up, slot 7 having slot 0 above it, and the
/// successor is NNN. The ninth of nine nested calls overwrites the first.
pub open spec fn call(s: Machine) -> Machine {
    Machine {
        stack: s.stack.update(s.sp, (s.pc + 2) as u16),
        sp: (s.sp + 1) % 8,
        next: field_nnn(s.opcode),
        ..s
    }
}

/// 3XNN: skip where V[X] is NN.
pub open spec fn skip_if_equal(s: Machine) -> Machine {
    skip_if(s, s.v[field_x(s.opcode)] == field_nn(s.opcode))
}

/// 4XNN: skip where V[X] is not NN.
pub open spec fn skip_if_not_equal(s: Machine) -> Machine {
    skip_if(s, s.v[field_x(s.opcode)] != field_nn(s.opcode))
}

/// 5XY0: skip where V[X] is V[Y].
pub open spec fn skip_if_same(s: Machine) -> Machine {
    skip_if(s, s.v[field_x(s.opcode)] == s.v[field_y(s.opcode)])
}

/// 9XY0: skip where V[X] is not V[Y].
pub open spec fn skip_if_different(s: Machine) -> Machine {
    skip_if(s, s.v[field_x(s.opcode)] != s.v[field_y(s.opcode)])
}

/// 6XNN: V[X] becomes NN.
pub open spec fn load_immediate(s: Machine) -> Machine {
    with_register(s, field_x(s.opcode), field_nn(s.opcode) as u8)
}

/// 7XNN: V[X] becomes V[X] + NN modulo 256. VF is not touched.
pub open spec fn add_immediate(s: Machine) -> Machine {
    let x = field_x(s.opcode);
    with_register(s, x, ((s.v[x] + field_nn(s.opcode)) % 256) as u8)
}

/// 8XY0: V[X] becomes V[Y].
pub open spec fn copy_register(s: Machine) -> Machine {
    with_register(s, field_x(s.opcode), s.v[field_y(s.opcode)])
}

/// 8XY1: V[X] becomes V[X] OR V[Y].
pub open spec fn or_register(s: Machine) -> Machine {
    let x = field_x(s.opcode);
    with_register(s, x, s.v[x] | s.v[field_y(s.opcode)])
}

/// 8XY2: V[X] becomes V[X] AND V[Y].
pub open spec fn and_register(s: Machine) -> Machine {
    let x = field_x(s.opcode);
    with_register(s, x, s.v[x] & s.v[field_y(s.opcode)])
}

/// 8XY3: V[X] becomes V[X] XOR V[Y].
pub open spec fn xor_register(s: Machine) -> Machine {
    let x = field_x(s.opcode);
    with_register(s, x, s.v[x] ^ s.v[field_y(s.opcode)])
}

/// 8XY4: V[X] becomes V[X] + V[Y] modulo 256, and then VF is 1 where the sum
/// did not fit in a byte, else 0.
pub open spec fn add_carry(s: Machine) -> Machine {
    let x = field_x(s.opcode);
    let sum = s.v[x] + s.v[field_y(s.opcode)];
    with_flag(with_register(s, x, (sum % 256) as u8), sum > 255)
}

/// 8XY5: V[X] becomes V[X] - V[Y] modulo 256, and then VF is 1 where nothing
/// was borrowed, else 0.
pub open spec fn subtract(s: Machine) -> Machine {
    let x = field_x(s.opcode);
    let y = field_y(s.opcode);
    with_flag(with_register(s, x, ((s.v[x] - s.v[y]) % 256) as u8), s.v[x] >= s.v[y])
}

/// 8XY7: V[X] becomes V[Y] - V[X] modulo 256, and then VF is 1 where nothing
/// was borrowed, else 0.
pub open spec fn subtract_from(s: Machine) -> Machine {
    let x = field_x(s.opcode);
    let y = field_y(s.opcode);
    with_flag(with_register(s, x, ((s.v[y] - s.v[x]) % 256) as u8), s.v[y] >= s.v[x])
}

/// The register that a shift reads: V[Y] under the legacy profile, V[X]
/// under the modern one.
pub open spec fn shift_source(s: Machine) -> int {
    match s.profile.shift_source {
        Profile::Legacy => field_y(s.opcode),
        Profile::Modern => field_x(s.opcode),
    }
}

/// The machine with `value` in the register that the shift read and in V[X],
/// and then VF set to the bit that was shifted out.
pub open spec fn shifted(s: Machine, value: u8, out: bool) -> Machine {
    with_flag(
        with_register(with_register(s, shift_source(s), value), field_x(s.opcode), value),
        out,
    )
}

/// 8XY6: the source halved, its lowest bit in VF.
pub open spec fn shift_right(s: Machine) -> Machine {
    let value = s.v[shift_source(s)];
    shifted(s, (value / 2) as u8, value % 2 == 1)
}

/// 8XYE: the source doubled modulo 256, its highest bit in VF.
pub open spec fn shift_left(s: Machine) -> Machine {
    let value = s.v[shift_source(s)];
    shifted(s, ((value * 2) % 256) as u8, value >= 128)
}

/// ANNN: I becomes NNN.
pub open spec fn set_index(s: Machine) -> Machine {
    Machine { i: field_nnn(s.opcode), ..s }
}

/// BNNN: the successor is NNN + V[0].
pub open spec fn jump_offset(s: Machine) -> Machine {
    Machine { next: field_nnn(s.opcode) + s.v[0], ..s }
}

/// CXNN: V[X] becomes `random` AND NN.
pub open spec fn random(s: Machine, random: u8) -> Machine {
    with_register(s, field_x(s.opcode), random & (field_nn(s.opcode) as u8))
}

/// The column in which DXYN puts the left edge of the sprite.
pub open spec fn draw_x(s: Machine) -> int {
    s.v[field_x(s.opcode)] as int % 64
}

/// The row in which DXYN puts the top of the sprite.
pub open spec fn draw_y(s: Machine) -> int {
    s.v[field_y(s.opcode)] as int % 32
}

/// The number of sprite rows that DXYN draws: N, or as many as there are
/// display rows from the top of the sprite down.
pub open spec fn draw_height(s: Machine) -> int {
    if field_n(s.opcode) <= 32 - draw_y(s) {
        field_n(s.opcode)
    } else {
        32 - draw_y(s)
    }
}

/// Whether DXYN draws into display row `row`.
pub open spec fn draw_covers(s: Machine, row: int) -> bool {
    draw_y(s) <= row < draw_y(s) + draw_height(s)
}

/// The sprite row that DXYN lays on display row `row`: the byte at I plus
/// the row's distance from the top of the sprite, placed at the sprite's
/// column.
pub open spec fn draw_sprite(s: Machine, row: int) -> u64 {
    sprite_row(s.ram[(s.i + (row - draw_y(s))) % 4096], draw_x(s) as u64)
}

/// Display row `row` after DXYN.
pub open spec fn drawn_row(s: Machine, row: int) -> u64 {
    if draw_covers(s, row) {
        s.fb[row] ^ draw_sprite(s, row)
    } else {
        s.fb[row]
    }
}

/// Whether DXYN turns a lit pixel dark in one of the display rows above row
/// `limit`, the rows counted from the top.
pub open spec fn draw_erases(s: Machine, limit: int) -> bool {
    exists|row: int|
        #[trigger] draw_covers(s, row) && row < limit && erases(s.fb[row], drawn_row(s, row))
}

/// DXYN: the sprite at I is XORed onto the display, and then VF is 1 where
/// that turned a lit pixel dark, else 0. The sprite's top left corner is at
/// column V[X] modulo 64 and row V[Y] modulo 32; what would fall right of the
/// last column or below the last row is not drawn.
pub open spec fn draw(s: Machine) -> Machine {
    with_flag(Machine { fb: Seq::new(32, |row: int| drawn_row(s, row)), ..s }, draw_erases(s, 32))
}

/// The key that EX9E and EXA1 ask about.
pub open spec fn asked_key(s: Machine) -> int {
    s.v[field_x(s.opcode)] as int % 16
}

/// EX9E: skip where the key V[X] modulo 16 is held.
pub open spec fn skip_if_key(s: Machine) -> Machine {
    skip_if(s, s.keypad[asked_key(s)])
}

/// EXA1: skip where the key V[X] modulo 16 is not held.
pub open spec fn skip_if_no_key(s: Machine) -> Machine {
    skip_if(s, !s.keypad[asked_key(s)])
}

/// FX07: V[X] becomes the delay timer.
pub open spec fn read_delay(s: Machine) -> Machine {
    with_register(s, field_x(s.opcode), s.delay)
}

/// The lowest held key that is `from` or above, if there is one.
pub open spec fn first_held(keypad: Seq<bool>, from: int) -> Option<int>
    decreases keypad.len() - from,
{
    if from < 0 || from >= keypad.len() {
        None
    } else if keypad[from] {
        Some(from)
    } else {
        first_held(keypad, from + 1)
    }
}

/// FX0A: V[X] becomes the lowest held key; where no key is held the
/// successor is this instruction again.
pub open spec fn wait_key(s: Machine) -> Machine {
    match first_held(s.keypad, 0) {
        Some(key) => with_register(s, field_x(s.opcode), key as u8),
        None => Machine { next: s.next - 2, ..s },
    }
}

/// FX15: the delay timer becomes V[X].
pub open spec fn set_delay(s: Machine) -> Machine {
    Machine { delay: s.v[field_x(s.opcode)], ..s }
}

/// FX18: the sound timer becomes V[X].
pub open spec fn set_sound(s: Machine) -> Machine {
    Machine { sound: s.v[field_x(s.opcode)], ..s }
}

/// FX1E: I becomes I + V[X] modulo 4096.
pub open spec fn add_index(s: Machine) -> Machine {
    Machine { i: (s.i + s.v[field_x(s.opcode)]) % 4096, ..s }
}

/// FX29: I becomes the address of the glyph for V[X], five bytes a glyph.
pub open spec fn point_at_glyph(s: Machine) -> Machine {
    Machine { i: s.v[field_x(s.opcode)] * 5, ..s }
}

/// FX33: the hundreds, tens and ones of V[X] go to memory at I, I + 1 and
/// I + 2, addresses modulo 4096.
pub open spec fn decimal(s: Machine) -> Machine {
    let value = s.v[field_x(s.opcode)];
    Machine {
        ram: s.ram.update((s.i + 2) % 4096, (value % 10) as u8).update(
            (s.i + 1) % 4096,
            ((value / 10) % 10) as u8,
        ).update(s.i, (value / 100) as u8),
        ..s
    }
}

/// I after FX55 or FX65: unchanged under the legacy profile, advanced past
/// the X + 1 bytes of the block, modulo 4096, under the modern one.
pub open spec fn index_after_block(s: Machine) -> int {
    match s.profile.block_increment {
        Profile::Legacy => s.i,
        Profile::Modern => (s.i + field_x(s.opcode) + 1) % 4096,
    }
}

/// How far address `address` lies above I, going round the address space.
pub open spec fn block_offset(s: Machine, address: int) -> int {
    (address - s.i) % 4096
}

/// FX55: V[0] to V[X] go to memory at I to I + X, addresses modulo 4096.
pub open spec fn store(s: Machine) -> Machine {
    Machine {
        ram: Seq::new(
            4096,
            |address: int|
                if block_offset(s, address) <= field_x(s.opcode) {
                    s.v[block_offset(s, address)]
                } else {
                    s.ram[address]
                },
        ),
        i: index_after_block(s),
        ..s
    }
}

/// FX65: V[0] to V[X] are read from memory at I to I + X, addresses modulo
/// 4096.
pub open spec fn restore(s: Machine) -> Machine {
    Machine {
        v: Seq::new(
            16,
            |k: int|
                if k <= field_x(s.opcode) {
                    s.ram[(s.i + k) % 4096]
                } else {
                    s.v[k]
                },
        ),
        i: index_after_block(s),
        ..s
    }
}

/// What an instruction does to a machine whose word is latched. `random` is
/// the byte that CXNN draws; no other instruction looks at it.
pub open spec fn execute(s: Machine, instruction: Instruction, random: u8) -> Machine {
    match instruction {
        Instruction::ClearDisplay => clear_display(s),
        Instruction::Return => return_from(s),
        Instruction::Jump => jump(s),
        Instruction::Call => call(s),
        Instruction::SkipIfEqual => skip_if_equal(s),
        Instruction::SkipIfNotEqual => skip_if_not_equal(s),
        Instruction::SkipIfSame => skip_if_same(s),
        Instruction::Load => load_immediate(s),
        Instruction::Add => add_immediate(s),
        Instruction::Copy => copy_register(s),
        Instruction::Or => or_register(s),
        Instruction::And => and_register(s),
        Instruction::Xor => xor_register(s),
        Instruction::AddCarry => add_carry(s),
        Instruction::Subtract => subtract(s),
        Instruction::ShiftRight => shift_right(s),
        Instruction::SubtractFrom => subtract_from(s),
        Instruction::ShiftLeft => shift_left(s),
        Instruction::SkipIfDifferent => skip_if_different(s),
        Instruction::Index => set_index(s),
        Instruction::JumpOffset => jump_offset(s),
        Instruction::Random => self::random(s, random),
        Instruction::Draw => draw(s),
        Instruction::SkipIfKey => skip_if_key(s),
        Instruction::SkipIfNoKey => skip_if_no_key(s),
        Instruction::ReadDelay => read_delay(s),
        Instruction::WaitKey => wait_key(s),
        Instruction::SetDelay => set_delay(s),
        Instruction::SetSound => set_sound(s),
        Instruction::AddIndex => add_index(s),
        Instruction::Glyph => point_at_glyph(s),
        Instruction::Decimal => decimal(s),
        Instruction::Store => store(s),
        Instruction::Restore => restore(s),
    }
}

/// The machine after one step. Where the word at the program counter encodes
/// no instruction, the word is latched and nothing else changes: the program
/// counter stays on it.
pub open spec fn step(s: Machine, random: u8) -> Machine {
    match classify(fetch(s)) {
        Some(instruction) => retire(execute(fetched(s), instruction, random)),
        None => fetched(s),
    }
}

/// Whether one step runs, and the error where it does not.
pub open spec fn status(s: Machine) -> Result<(), VmError> {
    match classify(fetch(s)) {
        Some(_) => Ok(()),
        None => Err(VmError::UnknownOpcode(fetch(s))),
    }
}

/// The machine after one advance of the timers: each goes down by one and
/// stays at zero once there.
pub open spec fn ticked(s: Machine) -> Machine {
    Machine {
        delay: if s.delay > 0 {
            (s.delay - 1) as u8
        } else {
            0u8
        },
        sound: if s.sound > 0 {
            (s.sound - 1) as u8
        } else {
            0u8
        },
        ..s
    }
}

} // verus!
