use chip8::{Compatibility, Profile, VM};

fn memory_profile(profile: Profile) -> Compatibility {
    Compatibility { shift_source: profile, block_increment: profile }
}

fn memory_run(rom: &[u8], steps: usize, profile: Profile) -> VM {
    let mut vm = VM::new(rom, memory_profile(profile));
    for _ in 0..steps {
        vm.cycle_with(0).unwrap();
    }
    vm
}

const FILL_FIVE: [u8; 10] = [0x60, 0x11, 0x61, 0x22, 0x62, 0x33, 0x63, 0x44, 0x64, 0x55];

#[test]
fn set_index() {
    let vm = memory_run(&[0xAF, 0xED], 1, Profile::Legacy);
    assert_eq!(vm.index(), 0xFED);
}

#[test]
fn add_to_index() {
    let vm = memory_run(&[0xA1, 0x00, 0x60, 0x23, 0xF0, 0x1E], 3, Profile::Legacy);
    assert_eq!(vm.index(), 0x123);
}

#[test]
fn add_to_index_wraps_round_the_address_space() {
    let vm = memory_run(&[0xAF, 0xFF, 0x60, 0x02, 0xF0, 0x1E], 3, Profile::Legacy);
    assert_eq!(vm.index(), 0x001);
}

#[test]
fn decimal_digits_go_to_memory() {
    let vm = memory_run(&[0x60, 0xFE, 0xA3, 0x00, 0xF0, 0x33], 3, Profile::Legacy);
    assert_eq!(vm.memory()[0x300..0x303], [2, 5, 4]);
    assert_eq!(vm.index(), 0x300);
    let vm = memory_run(&[0x60, 0x07, 0xA3, 0x00, 0xF0, 0x33], 3, Profile::Legacy);
    assert_eq!(vm.memory()[0x300..0x303], [0, 0, 7]);
}

#[test]
fn decimal_digits_wrap_round_the_end_of_memory() {
    let vm = memory_run(&[0x60, 0x7B, 0xAF, 0xFF, 0xF0, 0x33], 3, Profile::Legacy);
    assert_eq!(vm.memory()[0xFFF], 1);
    assert_eq!(vm.memory()[0x000], 2);
    assert_eq!(vm.memory()[0x001], 3);
    assert_eq!(vm.memory()[0x002], 0x90);
}

#[test]
fn store_copies_v0_to_vx_and_no_more() {
    let mut rom = FILL_FIVE.to_vec();
    rom.extend_from_slice(&[0xA3, 0x00, 0xF3, 0x55]);
    let vm = memory_run(&rom, 7, Profile::Legacy);
    assert_eq!(vm.memory()[0x300..0x305], [0x11, 0x22, 0x33, 0x44, 0x00]);
    assert_eq!(vm.memory()[0x2FF], 0x00);
}

#[test]
fn legacy_store_leaves_the_index() {
    let mut rom = FILL_FIVE.to_vec();
    rom.extend_from_slice(&[0xA3, 0x00, 0xF3, 0x55]);
    let vm = memory_run(&rom, 7, Profile::Legacy);
    assert_eq!(vm.index(), 0x300);
}

#[test]
fn modern_store_advances_the_index() {
    let mut rom = FILL_FIVE.to_vec();
    rom.extend_from_slice(&[0xA3, 0x00, 0xF3, 0x55]);
    let vm = memory_run(&rom, 7, Profile::Modern);
    assert_eq!(vm.index(), 0x304);
    assert_eq!(vm.memory()[0x300..0x305], [0x11, 0x22, 0x33, 0x44, 0x00]);
}

#[test]
fn restore_copies_into_v0_to_vx_and_no_more() {
    let mut rom = vec![0x64, 0x99, 0xA2, 0x10, 0xF3, 0x65];
    rom.resize(0x10, 0);
    rom.extend_from_slice(&[0xA1, 0xB2, 0xC3, 0xD4, 0xE5]);
    let vm = memory_run(&rom, 3, Profile::Legacy);
    let registers = vm.registers();
    assert_eq!(registers[0..4], [0xA1, 0xB2, 0xC3, 0xD4]);
    assert_eq!(registers[4], 0x99);
    assert_eq!(vm.index(), 0x210);
}

#[test]
fn modern_restore_advances_the_index() {
    let mut rom = vec![0xA2, 0x10, 0xF3, 0x65];
    rom.resize(0x10, 0);
    rom.extend_from_slice(&[0xA1, 0xB2, 0xC3, 0xD4, 0xE5]);
    let vm = memory_run(&rom, 2, Profile::Modern);
    assert_eq!(vm.registers()[0..5], [0xA1, 0xB2, 0xC3, 0xD4, 0x00]);
    assert_eq!(vm.index(), 0x214);
}

#[test]
fn store_of_all_registers() {
    let mut rom = Vec::new();
    for x in 0..16u8 {
        rom.extend_from_slice(&[0x60 | x, 0xA0 | x]);
    }
    rom.extend_from_slice(&[0xA4, 0x00, 0xFF, 0x55]);
    let vm = memory_run(&rom, 18, Profile::Modern);
    for x in 0..16usize {
        assert_eq!(vm.memory()[0x400 + x], 0xA0 | x as u8);
    }
    assert_eq!(vm.memory()[0x410], 0);
    assert_eq!(vm.index(), 0x410);
}

#[test]
fn store_wraps_round_the_end_of_memory() {
    let mut rom = FILL_FIVE.to_vec();
    rom.extend_from_slice(&[0xAF, 0xFE, 0xF3, 0x55]);
    let vm = memory_run(&rom, 7, Profile::Modern);
    assert_eq!(vm.memory()[0xFFE], 0x11);
    assert_eq!(vm.memory()[0xFFF], 0x22);
    assert_eq!(vm.memory()[0x000], 0x33);
    assert_eq!(vm.memory()[0x001], 0x44);
    assert_eq!(vm.memory()[0x002], 0x90);
    assert_eq!(vm.index(), 0x002);
}

#[test]
fn restore_wraps_round_the_end_of_memory() {
    let mut rom = vec![0u8; 0xE00];
    rom[..4].copy_from_slice(&[0xAF, 0xFF, 0xF2, 0x65]);
    rom[0xDFF] = 0x77;
    let vm = memory_run(&rom, 2, Profile::Legacy);
    assert_eq!(vm.registers()[0..3], [0x77, 0xF0, 0x90]);
    assert_eq!(vm.index(), 0xFFF);
}

#[test]
fn store_then_restore_gives_the_registers_back() {
    let mut rom = FILL_FIVE.to_vec();
    rom.extend_from_slice(&[0xA3, 0x00, 0xF4, 0x55]);
    rom.extend_from_slice(&[0x60, 0x00, 0x61, 0x00, 0x62, 0x00, 0x63, 0x00, 0x64, 0x00]);
    rom.extend_from_slice(&[0xF4, 0x65]);
    let vm = memory_run(&rom, 13, Profile::Legacy);
    assert_eq!(vm.registers()[0..5], [0x11, 0x22, 0x33, 0x44, 0x55]);
}

#[test]
fn init_ram_writes_the_glyphs_and_leaves_the_rest() {
    let ram = chip8::glyphs::init_ram([0xEE; 0x1000]);
    assert_eq!(ram[0..5], [0xF0, 0x90, 0x90, 0x90, 0xF0]);
    assert_eq!(ram[75..80], [0xF0, 0x80, 0xF0, 0x80, 0x80]);
    assert!(ram[80..].iter().all(|byte| *byte == 0xEE));
}
