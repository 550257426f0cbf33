use chip8::{Compatibility, Profile, VM};

fn arith_profile(profile: Profile) -> Compatibility {
    Compatibility { shift_source: profile, block_increment: profile }
}

fn arith_run(rom: &[u8], profile: Profile) -> VM {
    let mut vm = VM::new(rom, arith_profile(profile));
    for _ in 0..rom.len() / 2 {
        vm.cycle_with(0).unwrap();
    }
    vm
}

#[test]
fn load_immediate_sets_the_register() {
    let vm = arith_run(&[0x6A, 0x42], Profile::Legacy);
    assert_eq!(vm.registers()[0xA], 0x42);
    assert_eq!(vm.pc(), 0x202);
}

#[test]
fn add_immediate_wraps_and_leaves_the_flag() {
    let vm = arith_run(&[0x60, 0xFF, 0x70, 0x02], Profile::Legacy);
    assert_eq!(vm.registers()[0], 0x01);
    assert_eq!(vm.registers()[0xF], 0x00);
}

#[test]
fn add_immediate_without_wrap() {
    let vm = arith_run(&[0x63, 0x10, 0x73, 0x22], Profile::Legacy);
    assert_eq!(vm.registers()[3], 0x32);
}

#[test]
fn add_registers_sets_carry_on_overflow() {
    let vm = arith_run(&[0x60, 0xFF, 0x61, 0x02, 0x80, 0x14], Profile::Legacy);
    assert_eq!(vm.registers()[0], 0x01);
    assert_eq!(vm.registers()[1], 0x02);
    assert_eq!(vm.registers()[0xF], 1);
}

#[test]
fn add_registers_clears_carry_without_overflow() {
    let vm = arith_run(&[0x6F, 0x01, 0x60, 0x01, 0x61, 0x02, 0x80, 0x14], Profile::Legacy);
    assert_eq!(vm.registers()[0], 0x03);
    assert_eq!(vm.registers()[0xF], 0);
}

#[test]
fn add_registers_into_the_flag_register_keeps_the_flag() {
    let carried = arith_run(&[0x6F, 0xFF, 0x61, 0x02, 0x8F, 0x14], Profile::Legacy);
    assert_eq!(carried.registers()[0xF], 1);
    let plain = arith_run(&[0x6F, 0x05, 0x61, 0x02, 0x8F, 0x14], Profile::Legacy);
    assert_eq!(plain.registers()[0xF], 0);
}

#[test]
fn subtract_with_borrow_clears_the_flag() {
    let vm = arith_run(&[0x60, 0x05, 0x61, 0x0A, 0x80, 0x15], Profile::Legacy);
    assert_eq!(vm.registers()[0], 0xFB);
    assert_eq!(vm.registers()[0xF], 0);
}

#[test]
fn subtract_without_borrow_sets_the_flag() {
    let vm = arith_run(&[0x60, 0x0A, 0x61, 0x05, 0x80, 0x15], Profile::Legacy);
    assert_eq!(vm.registers()[0], 0x05);
    assert_eq!(vm.registers()[0xF], 1);
}

#[test]
fn subtract_equal_values_sets_the_flag() {
    let vm = arith_run(&[0x60, 0x07, 0x61, 0x07, 0x80, 0x15], Profile::Legacy);
    assert_eq!(vm.registers()[0], 0x00);
    assert_eq!(vm.registers()[0xF], 1);
}

#[test]
fn reverse_subtract_without_borrow_sets_the_flag() {
    let vm = arith_run(&[0x60, 0x05, 0x61, 0x0A, 0x80, 0x17], Profile::Legacy);
    assert_eq!(vm.registers()[0], 0x05);
    assert_eq!(vm.registers()[0xF], 1);
}

#[test]
fn reverse_subtract_with_borrow_clears_the_flag() {
    let vm = arith_run(&[0x60, 0x0A, 0x61, 0x05, 0x80, 0x17], Profile::Legacy);
    assert_eq!(vm.registers()[0], 0xFB);
    assert_eq!(vm.registers()[0xF], 0);
}

#[test]
fn copy_or_and_xor() {
    let copied = arith_run(&[0x61, 0x3C, 0x80, 0x10], Profile::Legacy);
    assert_eq!(copied.registers()[0], 0x3C);
    let or = arith_run(&[0x60, 0xF0, 0x61, 0x3C, 0x80, 0x11], Profile::Legacy);
    assert_eq!(or.registers()[0], 0xFC);
    let and = arith_run(&[0x60, 0xF0, 0x61, 0x3C, 0x80, 0x12], Profile::Legacy);
    assert_eq!(and.registers()[0], 0x30);
    let xor = arith_run(&[0x60, 0xF0, 0x61, 0x3C, 0x80, 0x13], Profile::Legacy);
    assert_eq!(xor.registers()[0], 0xCC);
    assert_eq!(xor.registers()[1], 0x3C);
}

#[test]
fn legacy_shift_right_reads_and_writes_vy() {
    let vm = arith_run(&[0x60, 0x55, 0x61, 0x03, 0x80, 0x16], Profile::Legacy);
    assert_eq!(vm.registers()[0xF], 1);
    assert_eq!(vm.registers()[1], 0x01);
    assert_eq!(vm.registers()[0], 0x01);
}

#[test]
fn modern_shift_right_reads_vx_and_leaves_vy() {
    let vm = arith_run(&[0x60, 0x03, 0x61, 0x55, 0x80, 0x16], Profile::Modern);
    assert_eq!(vm.registers()[0xF], 1);
    assert_eq!(vm.registers()[0], 0x01);
    assert_eq!(vm.registers()[1], 0x55);
}

#[test]
fn shift_right_of_an_even_value_clears_the_flag() {
    let vm = arith_run(&[0x6F, 0x01, 0x60, 0x04, 0x80, 0x06], Profile::Modern);
    assert_eq!(vm.registers()[0], 0x02);
    assert_eq!(vm.registers()[0xF], 0);
}

#[test]
fn legacy_shift_left_reads_and_writes_vy() {
    let vm = arith_run(&[0x60, 0x55, 0x61, 0x81, 0x80, 0x1E], Profile::Legacy);
    assert_eq!(vm.registers()[0xF], 1);
    assert_eq!(vm.registers()[1], 0x02);
    assert_eq!(vm.registers()[0], 0x02);
}

#[test]
fn modern_shift_left_reads_vx_and_leaves_vy() {
    let vm = arith_run(&[0x60, 0x41, 0x61, 0x81, 0x80, 0x1E], Profile::Modern);
    assert_eq!(vm.registers()[0xF], 0);
    assert_eq!(vm.registers()[0], 0x82);
    assert_eq!(vm.registers()[1], 0x81);
}

// The flag is written after the result, also where the shift reads or writes
// VF itself: the shifted value goes to V[X], and VF ends as the bit that was
// shifted out.
#[test]
fn shift_that_reads_the_flag_register_writes_the_flag_last() {
    let legacy = arith_run(&[0x6F, 0x02, 0x80, 0xF6], Profile::Legacy);
    assert_eq!(legacy.registers()[0], 0x01);
    assert_eq!(legacy.registers()[0xF], 0);
    let modern = arith_run(&[0x6F, 0x03, 0x8F, 0x06], Profile::Modern);
    assert_eq!(modern.registers()[0xF], 1);
}

#[test]
fn each_profile_is_chosen_on_its_own() {
    let mixed = Compatibility { shift_source: Profile::Modern, block_increment: Profile::Legacy };
    let mut vm = VM::new(&[0x60, 0x03, 0x61, 0x55, 0x80, 0x16, 0xA3, 0x00, 0xF1, 0x55], mixed);
    for _ in 0..5 {
        vm.cycle_with(0).unwrap();
    }
    assert_eq!(vm.registers()[0], 0x01);
    assert_eq!(vm.registers()[1], 0x55);
    assert_eq!(vm.index(), 0x300);
    assert_eq!(vm.profile(), mixed);
}

#[test]
fn random_is_masked_by_the_immediate() {
    let mut vm = VM::new(&[0xC0, 0x0F], arith_profile(Profile::Legacy));
    vm.cycle_with(0xAB).unwrap();
    assert_eq!(vm.registers()[0], 0x0B);
    let mut vm = VM::new(&[0xC5, 0xF0], arith_profile(Profile::Legacy));
    vm.cycle_with(0xAB).unwrap();
    assert_eq!(vm.registers()[5], 0xA0);
}

#[test]
fn random_from_the_generator_stays_under_the_mask() {
    for _ in 0..64 {
        let mut vm = VM::new(&[0xC0, 0x0F, 0xC1, 0x00], arith_profile(Profile::Legacy));
        vm.cycle().unwrap();
        vm.cycle().unwrap();
        assert!(vm.registers()[0] <= 0x0F);
        assert_eq!(vm.registers()[1], 0);
        assert_eq!(vm.pc(), 0x204);
    }
}

#[test]
fn random_from_the_generator_varies() {
    let mut seen = [false; 256];
    for _ in 0..256 {
        let mut vm = VM::new(&[0xC0, 0xFF], arith_profile(Profile::Legacy));
        vm.cycle().unwrap();
        seen[vm.registers()[0] as usize] = true;
    }
    assert!(seen.iter().filter(|s| **s).count() > 1);
}
