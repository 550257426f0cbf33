//! The engine: the machine's state in memory, and the operations on it.

use crate::bits::{lemma_ring, lemma_shifts};
use crate::decode::{classify, field_x, lemma_fields, Instruction, Operands};
use crate::display::lemma_erases_overlap;
use crate::entropy::random_byte;
use crate::glyphs::init_ram;
use crate::machine::{Compatibility, Machine, Profile};
use crate::semantics::{
    add_carry, add_immediate, add_index, and_register, block_offset, call, clear_display,
    copy_register, decimal, draw, draw_covers, draw_erases, draw_height, draw_sprite, draw_x,
    draw_y, drawn_row, fetch, fetched, first_held, jump, jump_offset, load_immediate,
    or_register, point_at_glyph, random, read_delay, restore, return_from, set_delay, set_index,
    set_sound, shift_left, shift_right, skip_if_different, skip_if_equal, skip_if_key,
    skip_if_no_key, skip_if_not_equal, skip_if_same, status, step, store, subtract,
    subtract_from, ticked, wait_key, xor_register, VmError,
};
use vstd::prelude::*;

verus! {

/// A CHIP-8 machine.
pub struct VM {
    I: u16,
    V: [u8; 16],
    fb: [u64; 32],
    pc: u16,
    sp: u8,
    ram: [u8; 0x1000],
    next: u16,
    delay: u8,
    sound: u8,
    stack: [u16; 8],
    keypad: [bool; 16],
    opcode: u16,
    profile: Compatibility,
}

/// Copies a program image into memory from the entry address on, as much of
/// it as fits below the end of memory.
fn load_rom(rom: &[u8], ram: &mut [u8; 0x1000])
    ensures
        forall|address: int|
            0 <= address < 0x1000 ==> final(ram)@[address] == if 0x200 <= address < 0x200
                + rom@.len() {
                rom@[address - 0x200]
            } else {
                old(ram)@[address]
            },
{
    let mut k: usize = 0;
    while k < rom.len() && k < 0xE00
        invariant
            k <= 0xE00,
            k <= rom@.len(),
            forall|address: int|
                0 <= address < 0x1000 ==> ram@[address] == if 0x200 <= address < 0x200 + k {
                    rom@[address - 0x200]
                } else {
                    old(ram)@[address]
                },
        decreases 0xE00 - k,
    {
        ram[0x200 + k] = rom[k];
        k += 1;
    }
}

impl VM {
    /// The registers that hold an address or a slot stay within their ranges.
    #[verifier::type_invariant]
    spec fn inv(self) -> bool {
        &&& self.pc < 0x1000
        &&& self.I < 0x1000
        &&& self.sp < 8
    }

    /// The machine as a mathematical value.
    pub closed spec fn view(&self) -> Machine {
        Machine {
            v: self.V@,
            i: self.I as int,
            pc: self.pc as int,
            next: self.next as int,
            sp: self.sp as int,
            stack: self.stack@,
            ram: self.ram@,
            fb: self.fb@,
            delay: self.delay,
            sound: self.sound,
            keypad: self.keypad@,
            opcode: self.opcode,
            profile: self.profile,
        }
    }

    /// Builds a machine with `rom` loaded at the entry address and the
    /// compatibility settings `profile`. Of an image that is longer than the
    /// memory above the entry address, the part that fits is loaded.
    pub fn new(rom: &[u8], profile: Compatibility) -> (vm: VM)
        ensures
            vm@ == Machine::boot(rom@, profile),
            vm@.wf(),
    {
        let mut ram = init_ram([0; 0x1000]);

        load_rom(rom, &mut ram);

        VM {
            I: 0,
            V: [0; 16],
            fb: [0; 32],
            pc: 512,
            sp: 0,
            ram: ram,
            next: 514,
            delay: 0,
            sound: 0,
            stack: [0; 8],
            keypad: [false; 16],
            opcode: 0,
            profile: profile,
        }
    }

    /// The display: 32 rows of 64 pixels, the leftmost pixel of a row in its
    /// highest bit.
    pub fn get_fb(&self) -> (fb: [u64; 32])
        ensures
            fb@ == self@.fb,
    {
        self.fb
    }

    /// Replaces the state of the keypad: `keys[k]` says whether key `k` is
    /// held down.
    pub fn update_keys(&mut self, keys: [bool; 16])
        ensures
            final(self)@ == (Machine { keypad: keys@, ..old(self)@ }),
            final(self)@.wf(),
    {
        proof {
            use_type_invariant(&*self);
        }
        self.keypad = keys;
    }

    /// Runs one instruction: the word at the program counter is fetched, the
    /// instruction it encodes is carried out, and the program counter moves
    /// to its successor. CXNN draws its byte from the thread's random
    /// generator.
    ///
    /// Where the word encodes no instruction, the word is latched, the rest
    /// of the machine is left as it was and the word is reported.
    pub fn cycle(&mut self) -> (result: Result<(), VmError>)
        ensures
            result == status(old(self)@),
            exists|byte: u8| final(self)@ == #[trigger] step(old(self)@, byte),
            classify(fetch(old(self)@)) != Some(Instruction::Random) ==> final(self)@ == step(
                old(self)@,
                0,
            ),
            final(self)@.wf(),
    {
        let opcode = self.get_opcode();
        let byte = if opcode >> 12 == 0xC {
            random_byte()
        } else {
            0
        };
        proof {
            lemma_fields(opcode);
        }
        self.cycle_with(byte)
    }

    /// Runs one instruction as [`VM::cycle`] does, with `byte` as the byte
    /// that CXNN draws.
    #[verifier::rlimit(50)]
    pub fn cycle_with(&mut self, byte: u8) -> (result: Result<(), VmError>)
        ensures
            result == status(old(self)@),
            final(self)@ == step(old(self)@, byte),
            final(self)@.wf(),
    {
        proof {
            use_type_invariant(&*self);
        }
        self.opcode = self.get_opcode();
        self.next = self.pc + 2;

        let opcode = self.opcode;
        proof {
            lemma_fields(opcode);
            assert(self@ == fetched(old(self)@));
        }

        match opcode {
            0x00E0 => self.x00E0(),
            0x00EE => self.x00EE(),
            0x1000..=0x1FFF => self.x1NNN(),
            0x2000..=0x2FFF => self.x2NNN(),
            0x3000..=0x3FFF => self.x3XNN(),
            0x4000..=0x4FFF => self.x4XNN(),
            0x5000..=0x5FFF => match opcode & 0x0F {
                0x00 => self.x5XY0(),
                _ => return Err(VmError::UnknownOpcode(opcode)),
            },
            0x6000..=0x6FFF => self.x6XNN(),
            0x7000..=0x7FFF => self.x7XNN(),
            0x8000..=0x8FFF => match opcode & 0x0F {
                0x00 => self.x8XY0(),
                0x01 => self.x8XY1(),
                0x02 => self.x8XY2(),
                0x03 => self.x8XY3(),
                0x04 => self.x8XY4(),
                0x05 => self.x8XY5(),
                0x06 => self.x8XY6(),
                0x07 => self.x8XY7(),
                0x0E => self.x8XYE(),
                _ => return Err(VmError::UnknownOpcode(opcode)),
            },
            0x9000..=0x9FFF => match opcode & 0x0F {
                0x00 => self.x9XY0(),
                _ => return Err(VmError::UnknownOpcode(opcode)),
            },
            0xA000..=0xAFFF => self.xANNN(),
            0xB000..=0xBFFF => self.xBNNN(),
            0xC000..=0xCFFF => self.xCXNN(byte),
            0xD000..=0xDFFF => self.xDXYN(),
            0xE000..=0xEFFF => match opcode & 0xFF {
                0x9E => self.xEX9E(),
                0xA1 => self.xEXA1(),
                _ => return Err(VmError::UnknownOpcode(opcode)),
            },
            0xF000..=0xFFFF => match opcode & 0xFF {
                0x07 => self.xFX07(),
                0x0A => self.xFX0A(),
                0x15 => self.xFX15(),
                0x18 => self.xFX18(),
                0x1E => self.xFX1E(),
                0x29 => self.xFX29(),
                0x33 => self.xFX33(),
                0x55 => self.xFX55(),
                0x65 => self.xFX65(),
                _ => return Err(VmError::UnknownOpcode(opcode)),
            },
            _ => return Err(VmError::UnknownOpcode(opcode)),
        };

        proof {
            use_type_invariant(&*self);
            lemma_fields(self.next);
        }
        self.pc = self.next & 0xFFF;
        Ok(())
    }

    /// Advances the two timers once: each goes down by one and stays at zero
    /// once there.
    pub fn tick(&mut self)
        ensures
            final(self)@ == ticked(old(self)@),
            final(self)@.wf(),
    {
        proof {
            use_type_invariant(&*self);
        }
        if self.delay > 0 {
            self.delay -= 1;
        }
        if self.sound > 0 {
            self.sound -= 1;
        }
    }

    /// Whether the instruction word fetched last is a draw instruction.
    pub fn is_drawing(&self) -> (drawing: bool)
        ensures
            drawing == (classify(self@.opcode) == Some(Instruction::Draw)),
    {
        0xD000 <= self.opcode && self.opcode <= 0xDFFF
    }

    /// Whether the default successor is set: what a step does before it
    /// hands the machine to an instruction.
    spec fn latched(&self) -> bool {
        self.next == self.pc + 2
    }

    /// The operand fields of the instruction word fetched last.
    fn operands(&self) -> (operands: Operands)
        ensures
            operands == Operands::of(self.opcode),
            operands.X < 16,
            operands.Y < 16,
            operands.N < 16,
            operands.NNN < 0x1000,
    {
        Operands::from(self.opcode)
    }

    /// Reads the instruction word at the program counter, high byte first.
    fn get_opcode(&self) -> (opcode: u16)
        ensures
            opcode == fetch(self@),
    {
        proof {
            use_type_invariant(self);
            lemma_fields((self.pc + 1) as u16);
        }
        let pc = self.pc;
        let left = self.ram[pc as usize];
        let right = self.ram[((pc + 1) & 0xFFF) as usize];

        left as u16 * 256 + right as u16
    }

    /// Puts a return address on the call stack. The stack is a ring of eight
    /// slots: a ninth address overwrites the oldest.
    fn push(&mut self, x: u16)
        ensures
            final(self)@ == (Machine {
                stack: old(self)@.stack.update(old(self)@.sp, x),
                sp: (old(self)@.sp + 1) % 8,
                ..old(self)@
            }),
    {
        proof {
            use_type_invariant(&*self);
            lemma_ring(self.sp);
        }
        self.stack[self.sp as usize] = x;
        self.sp = (self.sp + 1) & 0o7;
    }

    /// Takes the newest return address off the call stack.
    fn pop(&mut self) -> (x: u16)
        ensures
            x == old(self)@.stack[(old(self)@.sp + 7) % 8],
            final(self)@ == (Machine { sp: (old(self)@.sp + 7) % 8, ..old(self)@ }),
    {
        proof {
            use_type_invariant(&*self);
            lemma_ring(self.sp);
        }
        self.sp = (self.sp + 7) & 0o7;

        self.stack[self.sp as usize]
    }

    /// 00E0: clears the display.
    fn x00E0(&mut self)
        ensures
            final(self)@ == clear_display(old(self)@),
    {
        proof {
            use_type_invariant(&*self);
        }
        self.fb = [0; 32];
    }

    /// 00EE: returns from a call.
    fn x00EE(&mut self)
        ensures
            final(self)@ == return_from(old(self)@),
    {
        proof {
            use_type_invariant(&*self);
        }
        let x = self.pop();
        self.next = x;
    }

    /// 1NNN: jumps to NNN.
    fn x1NNN(&mut self)
        ensures
            final(self)@ == jump(old(self)@),
    {
        proof {
            use_type_invariant(&*self);
        }
        self.next = self.operands().NNN;
    }

    /// 2NNN: calls the routine at NNN.
    fn x2NNN(&mut self)
        ensures
            final(self)@ == call(old(self)@),
    {
        proof {
            use_type_invariant(&*self);
        }
        self.push(self.pc + 2);
        self.x1NNN();
    }

    /// 3XNN: skips the next instruction where V[X] is NN.
    fn x3XNN(&mut self)
        requires
            old(self).latched(),
        ensures
            final(self)@ == skip_if_equal(old(self)@),
    {
        proof {
            use_type_invariant(&*self);
        }
        let operands = self.operands();
        let X = operands.X;
        let NN = operands.NN;

        if self.V[X] == NN {
            self.next += 2;
        }
    }

    /// 4XNN: skips the next instruction where V[X] is not NN.
    fn x4XNN(&mut self)
        requires
            old(self).latched(),
        ensures
            final(self)@ == skip_if_not_equal(old(self)@),
    {
        proof {
            use_type_invariant(&*self);
        }
        let operands = self.operands();
        let X = operands.X;
        let NN = operands.NN;

        if self.V[X] != NN {
            self.next += 2;
        }
    }

    /// 5XY0: skips the next instruction where V[X] is V[Y].
    fn x5XY0(&mut self)
        requires
            old(self).latched(),
        ensures
            final(self)@ == skip_if_same(old(self)@),
    {
        proof {
            use_type_invariant(&*self);
        }
        let operands = self.operands();
        let X = operands.X;
        let Y = operands.Y;

        if self.V[X] == self.V[Y] {
            self.next += 2;
        }
    }

    /// 6XNN: sets V[X] to NN.
    fn x6XNN(&mut self)
        ensures
            final(self)@ == load_immediate(old(self)@),
    {
        proof {
            use_type_invariant(&*self);
        }
        let operands = self.operands();
        let X = operands.X;
        let NN = operands.NN;

        self.V[X] = NN;
    }

    /// 7XNN: adds NN to V[X], without a carry.
    fn x7XNN(&mut self)
        ensures
            final(self)@ == add_immediate(old(self)@),
    {
        proof {
            use_type_invariant(&*self);
        }
        let operands = self.operands();
        let X = operands.X;
        let NN = operands.NN;

        self.V[X] = u8::wrapping_add(self.V[X], NN);
    }

    /// 8XY0: sets V[X] to V[Y].
    fn x8XY0(&mut self)
        ensures
            final(self)@ == copy_register(old(self)@),
    {
        proof {
            use_type_invariant(&*self);
        }
        let operands = self.operands();
        let X = operands.X;
        let Y = operands.Y;

        self.V[X] = self.V[Y];
    }

    /// 8XY1: sets V[X] to V[X] OR V[Y].
    fn x8XY1(&mut self)
        ensures
            final(self)@ == or_register(old(self)@),
    {
        proof {
            use_type_invariant(&*self);
        }
        let operands = self.operands();
        let X = operands.X;
        let Y = operands.Y;

        self.V[X] = self.V[X] | self.V[Y];
    }

    /// 8XY2: sets V[X] to V[X] AND V[Y].
    fn x8XY2(&mut self)
        ensures
            final(self)@ == and_register(old(self)@),
    {
        proof {
            use_type_invariant(&*self);
        }
        let operands = self.operands();
        let X = operands.X;
        let Y = operands.Y;

        self.V[X] = self.V[X] & self.V[Y];
    }

    /// 8XY3: sets V[X] to V[X] XOR V[Y].
    fn x8XY3(&mut self)
        ensures
            final(self)@ == xor_register(old(self)@),
    {
        proof {
            use_type_invariant(&*self);
        }
        let operands = self.operands();
        let X = operands.X;
        let Y = operands.Y;

        self.V[X] = self.V[X] ^ self.V[Y];
    }

    /// 8XY4: adds V[Y] to V[X]; VF is the carry.
    fn x8XY4(&mut self)
        ensures
            final(self)@ == add_carry(old(self)@),
    {
        proof {
            use_type_invariant(&*self);
        }
        let operands = self.operands();
        let X = operands.X;
        let Y = operands.Y;

        proof {
            let sum = self.V@[X as int] + self.V@[Y as int];
            assert(sum % 256 == if sum > 255 {
                sum - 256
            } else {
                sum
            });
        }
        if let Some(sum) = u8::checked_add(self.V[X], self.V[Y]) {
            self.V[X] = sum;
            self.V[0xF] = 0;
        } else {
            self.V[X] = u8::wrapping_add(self.V[X], self.V[Y]);
            self.V[0xF] = 1;
        }
    }

    /// 8XY5: subtracts V[Y] from V[X]; VF is 0 exactly where it borrowed.
    fn x8XY5(&mut self)
        ensures
            final(self)@ == subtract(old(self)@),
    {
        proof {
            use_type_invariant(&*self);
        }
        let operands = self.operands();
        let X = operands.X;
        let Y = operands.Y;

        proof {
            let difference = self.V@[X as int] - self.V@[Y as int];
            assert(difference % 256 == if difference < 0 {
                difference + 256
            } else {
                difference
            });
        }
        if let Some(diff) = u8::checked_sub(self.V[X], self.V[Y]) {
            self.V[X] = diff;
            self.V[0xF] = 1;
        } else {
            self.V[X] = u8::wrapping_sub(self.V[X], self.V[Y]);
            self.V[0xF] = 0;
        }
    }

    /// 8XY6: shifts right by one place; VF is the bit shifted out. The flag
    /// is written last, so it stands also where the shift reads or writes VF.
    fn x8XY6(&mut self)
        ensures
            final(self)@ == shift_right(old(self)@),
    {
        proof {
            use_type_invariant(&*self);
        }
        let operands = self.operands();
        let X = operands.X;
        let source = match self.profile.shift_source {
            Profile::Legacy => operands.Y,
            Profile::Modern => operands.X,
        };

        let value = self.V[source];
        proof {
            lemma_shifts(value);
        }
        self.V[source] = value >> 1;
        self.V[X] = value >> 1;
        self.V[0xF] = value & 1;
    }

    /// 8XY7: sets V[X] to V[Y] minus V[X]; VF is 0 exactly where it borrowed.
    fn x8XY7(&mut self)
        ensures
            final(self)@ == subtract_from(old(self)@),
    {
        proof {
            use_type_invariant(&*self);
        }
        let operands = self.operands();
        let X = operands.X;
        let Y = operands.Y;

        proof {
            let difference = self.V@[Y as int] - self.V@[X as int];
            assert(difference % 256 == if difference < 0 {
                difference + 256
            } else {
                difference
            });
        }
        if let Some(diff) = u8::checked_sub(self.V[Y], self.V[X]) {
            self.V[X] = diff;
            self.V[0xF] = 1;
        } else {
            self.V[X] = u8::wrapping_sub(self.V[Y], self.V[X]);
            self.V[0xF] = 0;
        }
    }

    /// 8XYE: shifts left by one place; VF is the bit shifted out. The flag is
    /// written last, so it stands also where the shift reads or writes VF.
    fn x8XYE(&mut self)
        ensures
            final(self)@ == shift_left(old(self)@),
    {
        proof {
            use_type_invariant(&*self);
        }
        let operands = self.operands();
        let X = operands.X;
        let source = match self.profile.shift_source {
            Profile::Legacy => operands.Y,
            Profile::Modern => operands.X,
        };

        let value = self.V[source];
        proof {
            lemma_shifts(value);
        }
        self.V[source] = value << 1;
        self.V[X] = value << 1;
        self.V[0xF] = value >> 7;
    }

    /// 9XY0: skips the next instruction where V[X] is not V[Y].
    fn x9XY0(&mut self)
        requires
            old(self).latched(),
        ensures
            final(self)@ == skip_if_different(old(self)@),
    {
        proof {
            use_type_invariant(&*self);
        }
        let operands = self.operands();
        let X = operands.X;
        let Y = operands.Y;

        if self.V[X] != self.V[Y] {
            self.next += 2;
        }
    }

    /// ANNN: sets I to NNN.
    fn xANNN(&mut self)
        ensures
            final(self)@ == set_index(old(self)@),
    {
        proof {
            use_type_invariant(&*self);
        }
        self.I = self.operands().NNN;
    }

    /// BNNN: jumps to NNN plus V[0].
    fn xBNNN(&mut self)
        ensures
            final(self)@ == jump_offset(old(self)@),
    {
        proof {
            use_type_invariant(&*self);
        }
        self.next = self.operands().NNN + self.V[0] as u16;
    }

    /// CXNN: sets V[X] to `byte` AND NN.
    fn xCXNN(&mut self, byte: u8)
        ensures
            final(self)@ == random(old(self)@, byte),
    {
        proof {
            use_type_invariant(&*self);
        }
        let operands = self.operands();

        self.V[operands.X] = byte & operands.NN;
    }

    /// DXYN: draws the N-row sprite at I with its top left corner at column
    /// V[X] modulo 64 and row V[Y] modulo 32; VF says whether a lit pixel went
    /// dark. The sprite is cut off at the right and bottom edges.
    fn xDXYN(&mut self)
        ensures
            final(self)@ == draw(old(self)@),
    {
        proof {
            use_type_invariant(&*self);
        }
        let operands = self.operands();
        let X = operands.X;
        let Y = operands.Y;
        let N = operands.N;

        let x = (self.V[X] % 64) as u64;
        let y = self.V[Y] % 32;

        let height = if N < 32 - y {
            N
        } else {
            32 - y
        };

        let ghost start = self@;
        let mut unset = false;
        let mut i: u8 = 0;

        while i < height
            invariant
                i <= height,
                x == draw_x(start),
                y == draw_y(start),
                height == draw_height(start),
                y + height <= 32,
                self@ == (Machine { fb: self@.fb, ..start }),
                self@.fb.len() == 32,
                forall|row: int|
                    0 <= row < 32 ==> self@.fb[row] == if row < y + i {
                        drawn_row(start, row)
                    } else {
                        start.fb[row]
                    },
                unset == draw_erases(start, y + i),
            decreases height - i,
        {
            proof {
                use_type_invariant(&*self);
                lemma_fields((self.I + i) as u16);
            }
            let row = (y + i) as usize;
            let old = self.fb[row];
            let address = (self.I + i as u16) & 0xFFF;
            let sprite = ((self.ram[address as usize] as u64) << 56) >> x;

            self.fb[row] = old ^ sprite;

            proof {
                assert(draw_covers(start, row as int));
                assert(sprite == draw_sprite(start, row as int));
                lemma_erases_overlap(old, sprite);
            }
            if old & self.fb[row] < old {
                unset = true;
            }
            i += 1;
        }

        self.V[0xF] = if unset {
            1
        } else {
            0
        };
    }

    /// EX9E: skips the next instruction where the key V[X] is held.
    fn xEX9E(&mut self)
        requires
            old(self).latched(),
        ensures
            final(self)@ == skip_if_key(old(self)@),
    {
        proof {
            use_type_invariant(&*self);
        }
        let X = self.operands().X;

        if self.keypad[self.V[X] as usize % 16] {
            self.next += 2;
        }
    }

    /// EXA1: skips the next instruction where the key V[X] is not held.
    fn xEXA1(&mut self)
        requires
            old(self).latched(),
        ensures
            final(self)@ == skip_if_no_key(old(self)@),
    {
        proof {
            use_type_invariant(&*self);
        }
        let X = self.operands().X;

        if !self.keypad[self.V[X] as usize % 16] {
            self.next += 2;
        }
    }

    /// FX07: sets V[X] to the delay timer.
    fn xFX07(&mut self)
        ensures
            final(self)@ == read_delay(old(self)@),
    {
        proof {
            use_type_invariant(&*self);
        }
        let X = self.operands().X;

        self.V[X] = self.delay;
    }

    /// FX0A: sets V[X] to the lowest held key, or has the step repeat this
    /// instruction where no key is held.
    fn xFX0A(&mut self)
        requires
            old(self).latched(),
        ensures
            final(self)@ == wait_key(old(self)@),
    {
        proof {
            use_type_invariant(&*self);
        }
        let X = self.operands().X;

        let mut key: usize = 0;
        while key < 16
            invariant
                key <= 16,
                X == field_x(self.opcode),
                *self == *old(self),
                first_held(self.keypad@, 0) == first_held(self.keypad@, key as int),
            decreases 16 - key,
        {
            if self.keypad[key] {
                proof {
                    use_type_invariant(&*self);
                    assert(first_held(self.keypad@, key as int) == Some(key as int));
                }
                self.V[X] = key as u8;
                return ;
            }
            key += 1;
        }

        self.next = self.next - 2;
    }

    /// FX15: sets the delay timer to V[X].
    fn xFX15(&mut self)
        ensures
            final(self)@ == set_delay(old(self)@),
    {
        proof {
            use_type_invariant(&*self);
        }
        let X = self.operands().X;

        self.delay = self.V[X];
    }

    /// FX18: sets the sound timer to V[X].
    fn xFX18(&mut self)
        ensures
            final(self)@ == set_sound(old(self)@),
    {
        proof {
            use_type_invariant(&*self);
        }
        let X = self.operands().X;

        self.sound = self.V[X];
    }

    /// FX1E: adds V[X] to I.
    fn xFX1E(&mut self)
        ensures
            final(self)@ == add_index(old(self)@),
    {
        proof {
            use_type_invariant(&*self);
        }
        let X = self.operands().X;
        let sum = self.I + self.V[X] as u16;
        proof {
            lemma_fields(sum);
        }

        self.I = sum & 0xFFF;
    }

    /// FX29: points I at the glyph for V[X].
    fn xFX29(&mut self)
        ensures
            final(self)@ == point_at_glyph(old(self)@),
    {
        proof {
            use_type_invariant(&*self);
        }
        let X = self.operands().X;

        self.I = self.V[X] as u16 * 5;
    }

    /// FX33: writes the decimal digits of V[X] at I.
    fn xFX33(&mut self)
        ensures
            final(self)@ == decimal(old(self)@),
    {
        proof {
            use_type_invariant(&*self);
            lemma_fields((self.I + 1) as u16);
            lemma_fields((self.I + 2) as u16);
        }
        let X = self.operands().X;
        let value = self.V[X];

        self.ram[((self.I + 2) & 0xFFF) as usize] = value % 10;
        self.ram[((self.I + 1) & 0xFFF) as usize] = (value / 10) % 10;
        self.ram[self.I as usize] = (value / 100) % 10;
    }

    /// FX55: stores V[0] to V[X] at I.
    fn xFX55(&mut self)
        ensures
            final(self)@ == store(old(self)@),
    {
        proof {
            use_type_invariant(&*self);
        }
        let X = self.operands().X;

        let ghost start = self@;
        let mut i: usize = 0;
        while i <= X
            invariant
                i <= X + 1,
                X < 16,
                self@ == (Machine { ram: self@.ram, ..start }),
                self@.ram.len() == 0x1000,
                forall|address: int|
                    0 <= address < 0x1000 ==> self@.ram[address] == if block_offset(start, address)
                        < i {
                        start.v[block_offset(start, address)]
                    } else {
                        start.ram[address]
                    },
            decreases X + 1 - i,
        {
            proof {
                use_type_invariant(&*self);
                lemma_fields((self.I + i) as u16);
            }
            let address = (self.I + i as u16) & 0xFFF;
            self.ram[address as usize] = self.V[i];
            i += 1;
        }

        self.advance_index(X);
    }

    /// FX65: loads V[0] to V[X] from I.
    fn xFX65(&mut self)
        ensures
            final(self)@ == restore(old(self)@),
    {
        proof {
            use_type_invariant(&*self);
        }
        let X = self.operands().X;

        let ghost start = self@;
        let mut i: usize = 0;
        while i <= X
            invariant
                i <= X + 1,
                X < 16,
                self@ == (Machine { v: self@.v, ..start }),
                self@.v.len() == 16,
                forall|k: int|
                    0 <= k < 16 ==> self@.v[k] == if k < i {
                        start.ram[(start.i + k) % 4096]
                    } else {
                        start.v[k]
                    },
            decreases X + 1 - i,
        {
            proof {
                use_type_invariant(&*self);
                lemma_fields((self.I + i) as u16);
            }
            let address = (self.I + i as u16) & 0xFFF;
            self.V[i] = self.ram[address as usize];
            i += 1;
        }

        self.advance_index(X);
    }

    /// Leaves I where FX55 and FX65 leave it after a block of `X + 1` bytes.
    fn advance_index(&mut self, X: usize)
        requires
            X < 16,
        ensures
            final(self)@ == (Machine {
                i: match old(self)@.profile.block_increment {
                    Profile::Legacy => old(self)@.i,
                    Profile::Modern => (old(self)@.i + X + 1) % 4096,
                },
                ..old(self)@
            }),
    {
        proof {
            use_type_invariant(&*self);
            lemma_fields((self.I + X + 1) as u16);
        }
        match self.profile.block_increment {
            Profile::Legacy => {},
            Profile::Modern => {
                self.I = (self.I + X as u16 + 1) & 0xFFF;
            },
        }
    }

    /// The program counter.
    pub fn pc(&self) -> (pc: u16)
        ensures
            pc == self@.pc,
            self@.wf(),
    {
        proof {
            use_type_invariant(self);
        }
        self.pc
    }

    /// The index register.
    pub fn index(&self) -> (index: u16)
        ensures
            index == self@.i,
    {
        self.I
    }

    /// The registers V0 to VF.
    pub fn registers(&self) -> (registers: [u8; 16])
        ensures
            registers@ == self@.v,
    {
        self.V
    }

    /// The memory.
    pub fn memory(&self) -> (memory: &[u8; 0x1000])
        ensures
            memory@ == self@.ram,
    {
        &self.ram
    }

    /// The delay timer.
    pub fn delay_timer(&self) -> (delay: u8)
        ensures
            delay == self@.delay,
    {
        self.delay
    }

    /// The sound timer.
    pub fn sound_timer(&self) -> (sound: u8)
        ensures
            sound == self@.sound,
    {
        self.sound
    }

    /// Whether a tone should sound: the sound timer has not run out.
    pub fn is_sound_active(&self) -> (active: bool)
        ensures
            active == (self@.sound > 0),
    {
        self.sound > 0
    }

    /// The instruction word fetched last.
    pub fn opcode(&self) -> (opcode: u16)
        ensures
            opcode == self@.opcode,
    {
        self.opcode
    }

    /// The compatibility settings that the machine was built with.
    pub fn profile(&self) -> (profile: Compatibility)
        ensures
            profile == self@.profile,
    {
        self.profile
    }
}

} // verus!
