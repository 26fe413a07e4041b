use nes_emu::cartridge::{Cartridge, CartridgeError, Mapper, Mapper000, Mirror};

fn header(prg: u8, chr: u8, flags6: u8, flags7: u8) -> Vec<u8> {
    let mut h = vec![0x4E, 0x45, 0x53, 0x1A, prg, chr, flags6, flags7];
    h.resize(16, 0);
    h
}

fn image(prg: u8, chr: u8, flags6: u8) -> Vec<u8> {
    let mut rom = header(prg, chr, flags6, 0);
    if flags6 & 0x04 != 0 {
        rom.resize(rom.len() + 512, 0xEE);
    }
    for bank in 0..prg {
        rom.extend(std::iter::repeat(0x10 + bank).take(16384));
    }
    rom.extend(std::iter::repeat(0xC0).take(chr as usize * 8192));
    rom
}

#[test]
fn round_trip_two_prg_banks_vertical() {
    let mut rom = header(2, 1, 0x01, 0x00);
    rom.resize(16 + 2 * 16384 + 8192, 0);
    let cart = Cartridge::new(&rom).unwrap();
    assert_eq!(cart.p_mapper.n_prg_banks, 2);
    assert_eq!(cart.p_mapper.n_chr_banks, 1);
    assert_eq!(cart.mapper_id, 0);
    assert_eq!(cart.mirror, Mirror::VERTICAL);
    assert_eq!(cart.v_prg_memory.len(), 32768);
    assert_eq!(cart.v_chr_memory.len(), 8192);
    let mut a = 0u32;
    let mut b = 0u32;
    assert!(cart.p_mapper.cpu_map_read(0x8000, &mut a));
    assert!(cart.p_mapper.cpu_map_read(0xC000, &mut b));
    assert_eq!(a, 0x0000);
    assert_eq!(b, 0x4000);
    assert!(b >= a + 16384);
}

#[test]
fn two_banks_read_distinct_regions() {
    let cart = Cartridge::new(&image(2, 1, 0)).unwrap();
    let mut d = 0u8;
    assert!(cart.cpu_read(0x8000, &mut d));
    assert_eq!(d, 0x10);
    assert!(cart.cpu_read(0xC000, &mut d));
    assert_eq!(d, 0x11);
    assert!(cart.cpu_read(0xFFFF, &mut d));
    assert_eq!(d, 0x11);
}

#[test]
fn one_bank_is_mirrored() {
    let cart = Cartridge::new(&image(1, 1, 0)).unwrap();
    assert_eq!(cart.mirror, Mirror::HORIZONTAL);
    let mut a = 0u32;
    assert!(cart.p_mapper.cpu_map_read(0xC123, &mut a));
    assert_eq!(a, 0x0123);
    let mut d = 0u8;
    assert!(cart.cpu_read(0xC000, &mut d));
    assert_eq!(d, 0x10);
}

#[test]
fn low_addresses_are_not_claimed() {
    let cart = Cartridge::new(&image(1, 1, 0)).unwrap();
    let mut d = 0x55u8;
    assert!(!cart.cpu_read(0x7FFF, &mut d));
    assert!(!cart.cpu_read(0x0000, &mut d));
    assert_eq!(d, 0x55);
    assert!(!cart.ppu_read(0x2000, &mut d));
    assert!(cart.ppu_read(0x1FFF, &mut d));
    assert_eq!(d, 0xC0);
}

#[test]
fn trainer_is_skipped() {
    let cart = Cartridge::new(&image(1, 1, 0x04)).unwrap();
    assert_eq!(cart.v_prg_memory[0], 0x10);
    assert_eq!(cart.v_chr_memory[0], 0xC0);
}

#[test]
fn writes_reach_program_and_pattern_memory() {
    let mut cart = Cartridge::new(&image(1, 1, 0)).unwrap();
    assert!(cart.cpu_write(0xC001, 0x99));
    assert_eq!(cart.v_prg_memory[1], 0x99);
    assert!(!cart.cpu_write(0x6000, 0x77));
    assert!(cart.ppu_write(0x0003, 0x42));
    assert_eq!(cart.v_chr_memory[3], 0x42);
}

#[test]
fn no_chr_banks_leaves_pattern_reads_to_the_ppu() {
    let cart = Cartridge::new(&image(1, 0, 0)).unwrap();
    let mut d = 0u8;
    assert!(!cart.ppu_read(0x0000, &mut d));
}

#[test]
fn short_image_is_truncated() {
    assert_eq!(Cartridge::new(&vec![0x4E, 0x45, 0x53]).err(), Some(CartridgeError::Truncated));
    let mut rom = header(2, 1, 0, 0);
    rom.resize(16 + 16384, 0);
    assert_eq!(Cartridge::new(&rom).err(), Some(CartridgeError::Truncated));
}

#[test]
fn wrong_magic_is_refused() {
    let mut rom = image(1, 1, 0);
    rom[3] = 0x1B;
    assert_eq!(Cartridge::new(&rom).err(), Some(CartridgeError::BadMagic));
}

#[test]
fn unsupported_mapper_is_refused() {
    let mut rom = image(1, 1, 0x10);
    rom[7] = 0x20;
    assert_eq!(Cartridge::new(&rom).err(), Some(CartridgeError::UnsupportedMapper(0x21)));
}

#[test]
fn mapper_maps_ppu_addresses_unmasked() {
    let m = Mapper000::new(1, 1);
    let mut a = 7u32;
    assert!(m.ppu_map_read(0x1ABC, &mut a));
    assert_eq!(a, 0x1ABC);
    assert!(!m.ppu_map_write(0x2000, &mut a));
    assert_eq!(a, 0x1ABC);
    assert!(m.cpu_map_write(0x8001, &mut a));
    assert_eq!(a, 1);
}

#[test]
fn default_mirroring_is_horizontal() {
    assert_eq!(Mirror::default(), Mirror::HORIZONTAL);
}
