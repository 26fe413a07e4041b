use nes_emu::bus::Bus;
use nes_emu::cartridge::{Cartridge, CartridgeError};
use nes_emu::controller::{mask, press, release, Button};
use nes_emu::nes::Nes;

fn image(program: &[u8]) -> Vec<u8> {
    let mut rom = vec![0x4E, 0x45, 0x53, 0x1A, 1, 1, 0, 0];
    rom.resize(16, 0);
    let mut prg = vec![0xEAu8; 16384];
    prg[..program.len()].copy_from_slice(program);
    prg[0x3FFC] = 0x00;
    prg[0x3FFD] = 0x80;
    rom.extend(prg);
    rom.resize(16 + 16384 + 8192, 0);
    rom
}

fn bus() -> Bus {
    Bus::new(Cartridge::new(&image(&[])).unwrap())
}

#[test]
fn ram_is_mirrored_every_2k() {
    let mut b = bus();
    b.write(0x0001, 0x5A);
    assert_eq!(b.read(0x0801, false), 0x5A);
    assert_eq!(b.read(0x1801, false), 0x5A);
    b.write(0x1FFF, 0x33);
    assert_eq!(b.read(0x07FF, false), 0x33);
}

#[test]
fn ppu_registers_are_mirrored_every_8() {
    let mut b = bus();
    b.write(0x2003, 0x20);
    b.write(0x3FFC, 0x99);
    assert_eq!(b.ppu.oam[0x20], 0x99);
    b.write(0x2001, 0x1E);
    assert_eq!(b.ppu.mask, 0x1E);
}

#[test]
fn cartridge_answers_high_addresses() {
    let mut b = bus();
    assert_eq!(b.read(0x8000, false), 0xEA);
    assert_eq!(b.read(0xFFFD, false), 0x80);
    assert_eq!(b.read(0x5000, false), 0x00);
}

#[test]
fn controller_latches_and_shifts_msb_first() {
    let mut b = bus();
    b.controller[0] = 0b1010_0001;
    b.write(0x4016, 1);
    let bits: Vec<u8> = (0..8).map(|_| b.read(0x4016, false)).collect();
    assert_eq!(bits, vec![1, 0, 1, 0, 0, 0, 0, 1]);
    assert_eq!(b.read(0x4016, false), 0);
    b.controller[1] = 0x80;
    b.write(0x4017, 0);
    assert_eq!(b.read(0x4017, false), 1);
}

#[test]
fn audio_registers_are_routed() {
    let mut b = bus();
    b.write(0x4015, 0x03);
    assert!(b.apu.pulse1.enable && b.apu.pulse2.enable);
    b.write(0x4002, 0x34);
    assert_eq!(b.apu.pulse1.seq.reload, 0x34);
    assert_eq!(b.read(0x4015, false), 0);
}

#[test]
fn dma_write_starts_transfer() {
    let mut b = bus();
    b.write(0x4014, 0x02);
    assert!(b.dma_transfer);
    assert_eq!(b.dma_page, 0x02);
    assert_eq!(b.dma_addr, 0);
}

#[test]
fn dma_copies_a_page_and_stalls_the_cpu() {
    let mut nes = Nes::new(&image(&[])).unwrap();
    nes.reset();
    for i in 0..256usize {
        nes.bus.cpu_ram[0x200 + i] = i as u8;
    }
    nes.bus.write(0x4014, 0x02);
    let cpu_cycles = nes.cpu.clock_count;
    let mut ticks = 0u32;
    while nes.bus.dma_transfer {
        nes.clock();
        ticks += 1;
        assert!(ticks < 3 * 600);
    }
    assert_eq!(nes.cpu.clock_count, cpu_cycles);
    for i in 0..256usize {
        assert_eq!(nes.bus.ppu.oam[i], i as u8);
    }
    let cpu_slots = (ticks + 2) / 3;
    assert!(cpu_slots == 513 || cpu_slots == 514, "{cpu_slots}");
}

#[test]
fn cpu_runs_every_third_tick() {
    let mut nes = Nes::new(&image(&[])).unwrap();
    nes.reset();
    for _ in 0..300 {
        nes.clock();
    }
    assert_eq!(nes.cpu.clock_count, 100);
    assert_eq!(nes.cycles, 300);
}

#[test]
fn nmi_reaches_the_cpu() {
    let mut rom = image(&[]);
    // NMI vector 0x9000
    rom[16 + 0x3FFA] = 0x00;
    rom[16 + 0x3FFB] = 0x90;
    let mut nes = Nes::new(&rom).unwrap();
    nes.reset();
    nes.bus.write(0x2000, 0x80);
    nes.bus.ppu.scan_line = 241;
    nes.bus.ppu.cycle = 1;
    nes.clock();
    assert_eq!(nes.cpu.pc, 0x9000);
    assert!(!nes.bus.ppu.nmi);
}

#[test]
fn samples_follow_the_rate() {
    let mut nes = Nes::new(&image(&[])).unwrap();
    nes.reset();
    assert!(nes.set_sample_frequency(44100));
    assert!(!nes.set_sample_frequency(6_000_000));
    let mut ready = 0;
    for _ in 0..5369318u32 / 10 {
        if nes.clock() {
            ready += 1;
        }
    }
    assert_eq!(ready, 536931u64 * 44100 / 5369318);
    let ticks = nes.clock_until_sample();
    assert!((1..=122).contains(&ticks));
}

#[test]
fn controller_state_and_frame_copy() {
    let mut nes = Nes::new(&image(&[])).unwrap();
    nes.set_controller_state(0x81, 1);
    assert_eq!(nes.bus.controller[1], 0x81);
    assert_eq!(nes.get_pal_positions().len(), 256 * 240);
}

#[test]
fn console_load_errors() {
    let mut rom = image(&[]);
    rom[0] = 0;
    assert_eq!(Nes::new(&rom).err().map(|_| ()), Some(()));
    assert_eq!(Cartridge::new(&rom).err(), Some(CartridgeError::BadMagic));
}

#[test]
fn buttons_map_to_bits_msb_first() {
    assert_eq!(mask(Button::A), 0x80);
    assert_eq!(mask(Button::Right), 0x01);
    let s = press(press(0, Button::Up), Button::B);
    assert_eq!(s, 0x48);
    assert_eq!(release(s, Button::Up), 0x40);
    assert_eq!(release(s, Button::Start), 0x48);
}
