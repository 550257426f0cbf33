use chip8::{Compatibility, Profile, VmError, VM};

const FLOW_PROFILE: Compatibility =
    Compatibility { shift_source: Profile::Legacy, block_increment: Profile::Legacy };

fn flow_run(rom: &[u8], steps: usize) -> VM {
    let mut vm = VM::new(rom, FLOW_PROFILE);
    for _ in 0..steps {
        vm.cycle_with(0).unwrap();
    }
    vm
}

// A program image that fills memory from the entry address to the end, with
// `tail` as its last bytes.
fn flow_image_ending_in(head: &[u8], tail: &[u8]) -> Vec<u8> {
    let mut rom = vec![0u8; 0xE00];
    rom[..head.len()].copy_from_slice(head);
    rom[0xE00 - tail.len()..].copy_from_slice(tail);
    rom
}

#[test]
fn a_new_machine_starts_at_the_entry_address() {
    let vm = VM::new(&[0x12, 0x34], FLOW_PROFILE);
    assert_eq!(vm.pc(), 0x200);
    assert_eq!(vm.index(), 0);
    assert_eq!(vm.registers(), [0u8; 16]);
    assert_eq!(vm.get_fb(), [0u64; 32]);
    assert_eq!(vm.delay_timer(), 0);
    assert_eq!(vm.sound_timer(), 0);
    assert_eq!(vm.opcode(), 0);
    assert!(!vm.is_drawing());
    assert!(!vm.is_sound_active());
}

#[test]
fn jump_sets_the_program_counter() {
    let vm = flow_run(&[0x12, 0x08], 1);
    assert_eq!(vm.pc(), 0x208);
}

#[test]
fn jump_with_offset_adds_v0() {
    let vm = flow_run(&[0x60, 0x10, 0xB3, 0x00], 2);
    assert_eq!(vm.pc(), 0x310);
}

#[test]
fn jump_with_offset_wraps_round_the_address_space() {
    let vm = flow_run(&[0x60, 0xFF, 0xBF, 0xFF], 2);
    assert_eq!(vm.pc(), 0x0FE);
}

#[test]
fn call_and_return() {
    let rom = [0x22, 0x06, 0x60, 0x01, 0x00, 0x00, 0x00, 0xEE];
    let mut vm = VM::new(&rom, FLOW_PROFILE);
    vm.cycle_with(0).unwrap();
    assert_eq!(vm.pc(), 0x206);
    vm.cycle_with(0).unwrap();
    assert_eq!(vm.pc(), 0x202);
    vm.cycle_with(0).unwrap();
    assert_eq!(vm.registers()[0], 1);
    assert_eq!(vm.pc(), 0x204);
}

#[test]
fn eight_nested_calls_return_in_order() {
    let mut rom = vec![0u8; 0x100];
    for k in 0..8usize {
        let target = 0x210 + 0x10 * k;
        rom[0x10 * k] = 0x20 | (target >> 8) as u8;
        rom[0x10 * k + 1] = target as u8;
        rom[0x10 * k + 2] = 0x00;
        rom[0x10 * k + 3] = 0xEE;
    }
    rom[0x80] = 0x00;
    rom[0x81] = 0xEE;
    let mut vm = flow_run(&rom, 8);
    assert_eq!(vm.pc(), 0x280);
    for k in (0..8u16).rev() {
        vm.cycle_with(0).unwrap();
        assert_eq!(vm.pc(), 0x202 + 0x10 * k);
    }
}

// The call stack is a ring of eight return addresses, and that is a choice:
// a ninth nested call is no error, it overwrites the oldest return address.
// Nine returns after nine calls therefore end on the ninth call's return
// address, not on the first's.
#[test]
fn ninth_nested_call_overwrites_the_oldest_return_address() {
    let mut rom = vec![0u8; 0x100];
    for k in 0..9usize {
        let target = 0x210 + 0x10 * k;
        rom[0x10 * k] = 0x20 | (target >> 8) as u8;
        rom[0x10 * k + 1] = target as u8;
        rom[0x10 * k + 2] = 0x00;
        rom[0x10 * k + 3] = 0xEE;
    }
    rom[0x90] = 0x00;
    rom[0x91] = 0xEE;
    let mut vm = flow_run(&rom, 9);
    assert_eq!(vm.pc(), 0x290);
    for k in (1..9u16).rev() {
        vm.cycle_with(0).unwrap();
        assert_eq!(vm.pc(), 0x202 + 0x10 * k);
    }
    vm.cycle_with(0).unwrap();
    assert_eq!(vm.pc(), 0x282);
}

#[test]
fn return_on_an_empty_stack_goes_to_address_zero() {
    let vm = flow_run(&[0x00, 0xEE], 1);
    assert_eq!(vm.pc(), 0x000);
}

#[test]
fn skip_if_equal_immediate() {
    let taken = flow_run(&[0x60, 0x42, 0x30, 0x42], 2);
    assert_eq!(taken.pc(), 0x206);
    let not_taken = flow_run(&[0x60, 0x42, 0x30, 0x43], 2);
    assert_eq!(not_taken.pc(), 0x204);
}

#[test]
fn skip_if_not_equal_immediate() {
    let taken = flow_run(&[0x60, 0x42, 0x40, 0x43], 2);
    assert_eq!(taken.pc(), 0x206);
    let not_taken = flow_run(&[0x60, 0x42, 0x40, 0x42], 2);
    assert_eq!(not_taken.pc(), 0x204);
}

#[test]
fn skip_if_registers_equal() {
    let taken = flow_run(&[0x60, 0x42, 0x61, 0x42, 0x50, 0x10], 3);
    assert_eq!(taken.pc(), 0x208);
    let not_taken = flow_run(&[0x60, 0x42, 0x61, 0x43, 0x50, 0x10], 3);
    assert_eq!(not_taken.pc(), 0x206);
}

#[test]
fn skip_if_registers_differ() {
    let taken = flow_run(&[0x60, 0x42, 0x61, 0x43, 0x90, 0x10], 3);
    assert_eq!(taken.pc(), 0x208);
    let not_taken = flow_run(&[0x60, 0x42, 0x61, 0x42, 0x90, 0x10], 3);
    assert_eq!(not_taken.pc(), 0x206);
}

#[test]
fn skip_changes_nothing_but_the_program_counter() {
    let vm = flow_run(&[0x60, 0x42, 0x30, 0x42], 2);
    let mut expected = [0u8; 16];
    expected[0] = 0x42;
    assert_eq!(vm.registers(), expected);
    assert_eq!(vm.index(), 0);
    assert_eq!(vm.get_fb(), [0u64; 32]);
}

#[test]
fn program_counter_wraps_at_the_end_of_memory() {
    let rom = flow_image_ending_in(&[0x1F, 0xFE], &[0x60, 0x05]);
    let vm = flow_run(&rom, 2);
    assert_eq!(vm.registers()[0], 0x05);
    assert_eq!(vm.pc(), 0x000);
}

#[test]
fn skip_wraps_at_the_end_of_memory() {
    let rom = flow_image_ending_in(&[0x1F, 0xFE], &[0x30, 0x00]);
    let vm = flow_run(&rom, 2);
    assert_eq!(vm.pc(), 0x002);
}

#[test]
fn fetch_takes_its_second_byte_from_address_zero_at_the_last_address() {
    let rom = flow_image_ending_in(&[0x1F, 0xFF], &[0x61]);
    let vm = flow_run(&rom, 2);
    assert_eq!(vm.opcode(), 0x61F0);
    assert_eq!(vm.registers()[1], 0xF0);
    assert_eq!(vm.pc(), 0x001);
}

#[test]
fn unknown_opcode_is_reported_and_the_machine_stays_on_it() {
    let mut vm = VM::new(&[0x60, 0x07, 0x50, 0x01], FLOW_PROFILE);
    assert_eq!(vm.cycle_with(0), Ok(()));
    assert_eq!(vm.cycle_with(0), Err(VmError::UnknownOpcode(0x5001)));
    assert_eq!(vm.pc(), 0x202);
    assert_eq!(vm.opcode(), 0x5001);
    assert_eq!(vm.registers()[0], 0x07);
    assert!(!vm.is_drawing());
    assert_eq!(vm.cycle(), Err(VmError::UnknownOpcode(0x5001)));
    assert_eq!(vm.pc(), 0x202);
}

#[test]
fn an_image_longer_than_memory_is_cut_off() {
    let rom = vec![0xAB; 0x1000];
    let vm = VM::new(&rom, FLOW_PROFILE);
    let memory = vm.memory();
    assert_eq!(memory.len(), 0x1000);
    assert!(memory[0x200..].iter().all(|byte| *byte == 0xAB));
    assert!(memory[80..0x200].iter().all(|byte| *byte == 0));
    assert_eq!(memory[0], 0xF0);
}

#[test]
fn an_image_is_copied_unchanged_and_the_rest_is_zero() {
    let rom = [0x12, 0x34, 0x56, 0x78, 0x9A];
    let vm = VM::new(&rom, FLOW_PROFILE);
    let memory = vm.memory();
    assert_eq!(&memory[0x200..0x205], &rom);
    assert!(memory[0x205..].iter().all(|byte| *byte == 0));
}

#[test]
fn an_empty_image_leaves_memory_zero_above_the_glyphs() {
    let vm = VM::new(&[], FLOW_PROFILE);
    assert!(vm.memory()[80..].iter().all(|byte| *byte == 0));
    let mut vm = vm;
    assert_eq!(vm.cycle_with(0), Err(VmError::UnknownOpcode(0x0000)));
}
