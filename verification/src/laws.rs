//! What holds of every machine and every step, proved from the instruction
//! set as [`crate::semantics`] writes it down.

use crate::decode::{classify, field_nn, field_nnn, field_x, field_y, Instruction};
use crate::display::{
    erases, lemma_erases_some_pixel, lemma_sprite_row_pixels, lemma_xor_pixel, lemma_xor_twice,
    pixel, sprite_pixel,
};
use crate::machine::{Machine, Profile};
use crate::semantics::{
    asked_key, block_offset, call, decimal, draw, draw_covers, draw_erases, draw_height,
    draw_sprite, draw_x, draw_y, drawn_row, execute, fetch, fetched, first_held, restore, retire,
    return_from, skip_if, status, step, store, ticked, VmError,
};
use vstd::prelude::*;

verus! {

/// A step keeps a machine well formed: the program counter, the index
/// register and the stack pointer stay within their ranges whatever the
/// instruction was.
pub proof fn lemma_step_keeps_shape(s: Machine, byte: u8)
    requires
        s.wf(),
    ensures
        step(s, byte).wf(),
{
    let t = fetched(s);
    assert(t.wf());
    match classify(fetch(s)) {
        Some(instruction) => {
            let u = execute(t, instruction, byte);
            assert(0 <= field_x(t.opcode) < 16);
            assert(0 <= field_y(t.opcode) < 16);
            assert(0 <= field_nnn(t.opcode) < 4096);
            assert(0 <= asked_key(t) < 16);
            assert(u.v.len() == 16 && u.ram.len() == 4096 && u.stack.len() == 8 && u.fb.len() == 32
                && u.keypad.len() == 16);
            assert(0 <= u.i < 4096);
            assert(0 <= u.sp < 8);
            assert(retire(u).wf());
        },
        None => {},
    }
}

/// A random byte matters to CXNN alone: every other step is the same
/// whatever byte it is given.
pub proof fn lemma_byte_matters_to_random_alone(s: Machine, first: u8, second: u8)
    requires
        classify(fetch(s)) != Some(Instruction::Random),
    ensures
        step(s, first) == step(s, second),
{
}

/// A word that encodes no instruction stops the machine: the step reports
/// the word and leaves the program counter on it, and so does every step
/// after it.
pub proof fn lemma_unknown_opcode_halts(s: Machine, byte: u8)
    requires
        s.wf(),
        classify(fetch(s)) is None,
    ensures
        status(s) == Err::<(), VmError>(VmError::UnknownOpcode(fetch(s))),
        step(s, byte) == fetched(s),
        step(s, byte).pc == s.pc,
        fetch(step(s, byte)) == fetch(s),
        status(step(s, byte)) == status(s),
        step(step(s, byte), byte) == step(s, byte),
{
}

/// Whether `instruction` is one of the six that skip.
pub open spec fn is_skip(instruction: Instruction) -> bool {
    instruction is SkipIfEqual || instruction is SkipIfNotEqual || instruction is SkipIfSame
        || instruction is SkipIfDifferent || instruction is SkipIfKey || instruction is SkipIfNoKey
}

/// The condition under which a skip instruction skips, on the machine that
/// is about to run it.
pub open spec fn skip_condition(s: Machine) -> bool {
    let word = fetch(s);
    let vx = s.v[field_x(word)];
    let vy = s.v[field_y(word)];
    match classify(word) {
        Some(Instruction::SkipIfEqual) => vx == field_nn(word),
        Some(Instruction::SkipIfNotEqual) => vx != field_nn(word),
        Some(Instruction::SkipIfSame) => vx == vy,
        Some(Instruction::SkipIfDifferent) => vx != vy,
        Some(Instruction::SkipIfKey) => s.keypad[vx as int % 16],
        Some(Instruction::SkipIfNoKey) => !s.keypad[vx as int % 16],
        _ => false,
    }
}

/// A skip instruction moves the program counter on by four where its
/// condition holds and by two where it does not, round the end of the address
/// space, and changes nothing else but what the step latches.
pub proof fn lemma_skip_advances(s: Machine, byte: u8)
    requires
        s.wf(),
        classify(fetch(s)) matches Some(instruction) && is_skip(instruction),
    ensures
        status(s) is Ok,
        skip_condition(s) ==> step(s, byte).pc == (s.pc + 4) % 4096,
        !skip_condition(s) ==> step(s, byte).pc == (s.pc + 2) % 4096,
        skip_condition(s) && s.pc + 4 < 4096 ==> step(s, byte).pc == s.pc + 4,
        !skip_condition(s) && s.pc + 2 < 4096 ==> step(s, byte).pc == s.pc + 2,
        step(s, byte) == (Machine {
            pc: step(s, byte).pc,
            next: step(s, byte).next,
            opcode: fetch(s),
            ..s
        }),
{
    let instruction = classify(fetch(s))->0;
    lemma_step_runs(s, byte, instruction);
    lemma_skip_is_conditional(s, byte);
    lemma_skip_algebra(s, skip_condition(s));
}

/// A skip instruction is `skip_if` under its condition.
proof fn lemma_skip_is_conditional(s: Machine, byte: u8)
    requires
        classify(fetch(s)) matches Some(instruction) && is_skip(instruction),
    ensures
        execute(fetched(s), classify(fetch(s))->0, byte) == skip_if(fetched(s), skip_condition(s)),
{
}

/// What a step that ends in `skip_if` leaves.
proof fn lemma_skip_algebra(s: Machine, condition: bool)
    requires
        s.wf(),
    ensures
        ({
            let t = retire(skip_if(fetched(s), condition));
            &&& t == (Machine { pc: t.pc, next: t.next, opcode: fetch(s), ..s })
            &&& t.pc == (s.pc + if condition {
                4int
            } else {
                2int
            }) % 4096
        }),
{
}

/// An instruction that is no jump, call, return, skip or wait moves the
/// program counter on by two, round the end of the address space.
pub proof fn lemma_plain_advances(s: Machine, byte: u8)
    requires
        s.wf(),
        classify(fetch(s)) matches Some(instruction) && !is_skip(instruction) && !(instruction
            is Jump) && !(instruction is JumpOffset) && !(instruction is Call) && !(instruction
            is Return) && !(instruction is WaitKey),
    ensures
        step(s, byte).pc == (s.pc + 2) % 4096,
{
}

/// What `first_held` finds: the key it names is held and no key between
/// `from` and it is; where it names none, no key from `from` on is held.
pub proof fn lemma_first_held(keypad: Seq<bool>, from: int)
    requires
        0 <= from,
    ensures
        match first_held(keypad, from) {
            Some(key) => from <= key < keypad.len() && keypad[key] && forall|other: int|
                from <= other < key ==> !keypad[other],
            None => forall|other: int| from <= other < keypad.len() ==> !keypad[other],
        },
    decreases keypad.len() - from,
{
    if from < keypad.len() && !keypad[from] {
        lemma_first_held(keypad, from + 1);
    }
}

/// While no key is held, FX0A goes nowhere: the step runs, and all it
/// changes is what it latches. The program counter stays on the instruction.
pub proof fn lemma_wait_key_blocks(s: Machine, byte: u8)
    requires
        s.wf(),
        classify(fetch(s)) == Some(Instruction::WaitKey),
        forall|key: int| 0 <= key < 16 ==> !s.keypad[key],
    ensures
        status(s) is Ok,
        step(s, byte) == (Machine { opcode: fetch(s), next: s.pc, ..s }),
        step(s, byte).pc == s.pc,
{
    lemma_first_held(s.keypad, 0);
}

/// The machine after `steps` steps, each given `byte`, with the keypad left
/// as it is.
pub open spec fn run(s: Machine, steps: nat, byte: u8) -> Machine
    decreases steps,
{
    if steps == 0 {
        s
    } else {
        run(step(s, byte), (steps - 1) as nat, byte)
    }
}

/// While no key is held, FX0A keeps the program counter where it is however
/// many steps are taken, and registers, memory and display with it.
pub proof fn lemma_wait_key_blocks_for_good(s: Machine, steps: nat, byte: u8)
    requires
        s.wf(),
        classify(fetch(s)) == Some(Instruction::WaitKey),
        forall|key: int| 0 <= key < 16 ==> !s.keypad[key],
    ensures
        run(s, steps, byte).pc == s.pc,
        run(s, steps, byte).v == s.v,
        run(s, steps, byte).ram == s.ram,
        run(s, steps, byte).fb == s.fb,
    decreases steps,
{
    if steps > 0 {
        lemma_wait_key_blocks(s, byte);
        let t = step(s, byte);
        assert(fetch(t) == fetch(s));
        lemma_wait_key_blocks_for_good(t, (steps - 1) as nat, byte);
    }
}

/// Once a key is held, FX0A puts the lowest held key into V[X] and the
/// program counter moves on by two.
pub proof fn lemma_wait_key_takes_lowest(s: Machine, byte: u8, key: int)
    requires
        s.wf(),
        classify(fetch(s)) == Some(Instruction::WaitKey),
        0 <= key < 16,
        s.keypad[key],
        forall|other: int| 0 <= other < key ==> !s.keypad[other],
    ensures
        status(s) is Ok,
        step(s, byte).v == s.v.update(field_x(fetch(s)), key as u8),
        step(s, byte).pc == (s.pc + 2) % 4096,
{
    lemma_first_held(s.keypad, 0);
}

/// A timer never goes up on an advance, goes down by exactly one while it
/// runs, and stays at zero once there.
pub proof fn lemma_timers_stop_at_zero(s: Machine)
    ensures
        s.delay > 0 ==> ticked(s).delay == s.delay - 1,
        s.delay == 0 ==> ticked(s).delay == 0,
        s.sound > 0 ==> ticked(s).sound == s.sound - 1,
        s.sound == 0 ==> ticked(s).sound == 0,
        ticked(s) == (Machine { delay: ticked(s).delay, sound: ticked(s).sound, ..s }),
{
}

/// Drawing a sprite a second time takes it off again: where neither V[X] nor
/// V[Y] is VF, which the first draw overwrites, two draws in a row leave the
/// display as it was.
pub proof fn lemma_draw_twice_restores(s: Machine)
    requires
        s.wf(),
        field_x(s.opcode) != 0xF,
        field_y(s.opcode) != 0xF,
    ensures
        draw(draw(s)).fb == s.fb,
{
    let t = draw(s);
    assert(draw_x(t) == draw_x(s));
    assert(draw_y(t) == draw_y(s));
    assert(draw_height(t) == draw_height(s));
    assert forall|row: int| 0 <= row < 32 implies drawn_row(t, row) == s.fb[row] by {
        assert(draw_covers(t, row) == draw_covers(s, row));
        if draw_covers(s, row) {
            let sprite = draw_sprite(s, row);
            assert(draw_sprite(t, row) == sprite);
            lemma_xor_twice(s.fb[row], sprite);
        }
    }
    assert(draw(t).fb =~= s.fb);
}

/// The sprite byte that DXYN lays on display row `row`.
pub open spec fn draw_byte(s: Machine, row: int) -> u8 {
    s.ram[(s.i + (row - draw_y(s))) % 4096]
}

/// Whether DXYN flips the pixel in row `row` and column `column`: the row is
/// one that the sprite covers, the column is one of the eight from the
/// sprite's left edge on, and the sprite has that pixel set. A column left
/// of the sprite is never flipped, so nothing wraps round the right edge.
pub open spec fn draw_flips(s: Machine, row: int, column: int) -> bool {
    draw_covers(s, row) && draw_x(s) <= column < draw_x(s) + 8 && sprite_pixel(
        draw_byte(s, row),
        (column - draw_x(s)) as u64,
    )
}

/// DXYN changes the display pixel by pixel: a pixel is lit afterwards
/// exactly where it was lit and is not flipped, or was dark and is flipped.
pub proof fn lemma_draw_pixel(s: Machine, row: int, column: int)
    requires
        s.wf(),
        0 <= row < 32,
        0 <= column < 64,
    ensures
        pixel(draw(s).fb[row], column as u64) == (pixel(s.fb[row], column as u64) != draw_flips(
            s,
            row,
            column,
        )),
{
    let x = draw_x(s) as u64;
    lemma_sprite_row_pixels(draw_byte(s, row), x, column as u64);
    if draw_covers(s, row) {
        lemma_xor_pixel(s.fb[row], draw_sprite(s, row), column as u64);
    }
}

/// Whether DXYN turns the pixel in row `row` and column `column` from lit to
/// dark.
pub open spec fn draw_darkens(s: Machine, row: int, column: int) -> bool {
    pixel(s.fb[row], column as u64) && !pixel(draw(s).fb[row], column as u64)
}

/// DXYN sets VF to 1 exactly where it turns a lit pixel dark, and to 0
/// otherwise.
pub proof fn lemma_draw_flag(s: Machine)
    requires
        s.wf(),
    ensures
        draw(s).v[0xF] == 1 || draw(s).v[0xF] == 0,
        draw(s).v[0xF] == 1 <==> exists|row: int, column: int|
            0 <= row < 32 && 0 <= column < 64 && draw_darkens(s, row, column),
{
    if draw_erases(s, 32) {
        let row = choose|row: int|
            #[trigger] draw_covers(s, row) && row < 32 && erases(s.fb[row], drawn_row(s, row));
        lemma_erases_some_pixel(s.fb[row], drawn_row(s, row));
        let column = choose|column: u64|
            column < 64 && pixel(s.fb[row], column) && !pixel(drawn_row(s, row), column);
        assert(draw_darkens(s, row, column as int));
    }
    if exists|row: int, column: int|
        0 <= row < 32 && 0 <= column < 64 && draw_darkens(s, row, column) {
        let (row, column) = choose|row: int, column: int|
            0 <= row < 32 && 0 <= column < 64 && draw_darkens(s, row, column);
        lemma_erases_some_pixel(s.fb[row], drawn_row(s, row));
        assert(draw_covers(s, row));
    }
}

/// What a step is when the word at the program counter encodes
/// `instruction`.
pub proof fn lemma_step_runs(s: Machine, byte: u8, instruction: Instruction)
    requires
        classify(fetch(s)) == Some(instruction),
    ensures
        status(s) is Ok,
        step(s, byte) == retire(execute(fetched(s), instruction, byte)),
{
}

/// A return after a call comes back behind the call: where the word at the
/// call's target is a return, two steps move the program counter on by two
/// and leave the stack pointer where it was.
pub proof fn lemma_call_then_return(s: Machine, byte: u8)
    requires
        s.wf(),
        classify(fetch(s)) == Some(Instruction::Call),
        classify(fetch(step(s, byte))) == Some(Instruction::Return),
    ensures
        step(s, byte).pc == field_nnn(fetch(s)),
        step(step(s, byte), byte).pc == (s.pc + 2) % 4096,
        step(step(s, byte), byte).sp == s.sp,
{
    let t = retire(call(fetched(s)));
    assert(step(s, byte) == t) by {
        lemma_step_runs(s, byte, Instruction::Call);
    }
    let u = retire(return_from(fetched(t)));
    assert(step(t, byte) == u) by {
        lemma_step_runs(t, byte, Instruction::Return);
    }
    lemma_call_return_algebra(s);
}

/// The algebra of a call followed by a return, apart from what the words at
/// the two addresses are.
proof fn lemma_call_return_algebra(s: Machine)
    requires
        s.wf(),
    ensures
        ({
            let t = retire(call(fetched(s)));
            let u = retire(return_from(fetched(t)));
            t.pc == field_nnn(fetch(s)) && u.pc == (s.pc + 2) % 4096 && u.sp == s.sp
        }),
{
    let f = fetched(s);
    let called = call(f);
    let t = retire(called);
    assert(0 <= field_nnn(f.opcode) < 4096);
    assert(called.sp == (s.sp + 1) % 8);
    assert(called.stack[s.sp] == s.pc + 2);
    let returned = return_from(fetched(t));
    assert((t.sp + 7) % 8 == s.sp);
    assert(returned.next == s.pc + 2);
}

/// The three bytes that FX33 writes are the decimal digits of V[X].
pub proof fn lemma_decimal_digits(s: Machine)
    requires
        s.wf(),
    ensures
        ({
            let value = s.v[field_x(s.opcode)];
            let hundreds = decimal(s).ram[s.i];
            let tens = decimal(s).ram[(s.i + 1) % 4096];
            let ones = decimal(s).ram[(s.i + 2) % 4096];
            hundreds < 10 && tens < 10 && ones < 10 && value == 100 * hundreds + 10 * tens + ones
        }),
{
}

/// What FX55 writes, FX65 reads back: under the legacy profile, which leaves
/// I in place, a store followed by a restore leaves the registers as they
/// were.
pub proof fn lemma_restore_after_store(s: Machine)
    requires
        s.wf(),
        s.profile.block_increment == Profile::Legacy,
    ensures
        restore(store(s)).v == s.v,
        restore(store(s)).i == s.i,
{
    let t = store(s);
    assert forall|k: int| 0 <= k < 16 implies restore(t).v[k] == s.v[k] by {
        if k <= field_x(s.opcode) {
            let address = (s.i + k) % 4096;
            assert(block_offset(s, address) == k);
        }
    }
    assert(restore(t).v =~= s.v);
}

} // verus!
