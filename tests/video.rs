use nes_emu::cartridge::Cartridge;
use nes_emu::ppu::{composite, flip_byte, Ppu};

fn cart(vertical: bool, chr_banks: u8) -> Cartridge {
    let mut rom = vec![0x4E, 0x45, 0x53, 0x1A, 1, chr_banks, if vertical { 1 } else { 0 }, 0];
    rom.resize(16 + 16384 + chr_banks as usize * 8192, 0);
    Cartridge::new(&rom).unwrap()
}

#[test]
fn full_frame_visits_every_position_once() {
    let c = cart(false, 1);
    let mut ppu = Ppu::new();
    ppu.scan_line = -1;
    ppu.cycle = 0;
    let mut ticks = 0u32;
    let mut last = (-1i32 * 341) - 1;
    while !ppu.frame_complete {
        let here = (ppu.scan_line as i32) * 341 + ppu.cycle as i32;
        assert!(here > last);
        last = here;
        ppu.clock(&c);
        ticks += 1;
    }
    assert_eq!(ticks, 341 * 262);
    assert_eq!((ppu.scan_line, ppu.cycle), (-1, 0));
}

#[test]
fn nmi_once_per_frame_when_enabled() {
    let mut c = cart(false, 1);
    let mut ppu = Ppu::new();
    ppu.cpu_write(0, 0x80, &mut c);
    let mut raised = 0;
    let mut at = (0i16, 0i16);
    for _ in 0..(341 * 262) {
        let pos = (ppu.scan_line, ppu.cycle);
        ppu.clock(&c);
        if ppu.nmi {
            raised += 1;
            at = pos;
            assert_eq!(ppu.status & 0x80, 0x80);
            ppu.nmi = false;
        }
    }
    assert_eq!(raised, 1);
    assert_eq!(at, (241, 1));
}

#[test]
fn no_nmi_when_disabled() {
    let c = cart(false, 1);
    let mut ppu = Ppu::new();
    for _ in 0..(341 * 262) {
        ppu.clock(&c);
        assert!(!ppu.nmi);
    }
}

fn place_sprites(ppu: &mut Ppu, n: usize, y: u8) {
    for i in 0..n {
        ppu.set_oam(4 * i, y);
        ppu.set_oam(4 * i + 1, i as u8);
        ppu.set_oam(4 * i + 2, 0);
        ppu.set_oam(4 * i + 3, 8 * i as u8);
    }
}

#[test]
fn nine_sprites_overflow() {
    let mut ppu = Ppu::new();
    place_sprites(&mut ppu, 9, 10);
    ppu.scan_line = 12;
    ppu.evaluate_sprites();
    assert_eq!(ppu.sprite_count, 8);
    assert_eq!(ppu.status & 0x20, 0x20);
    assert!(ppu.zero_hit_possible);
    assert_eq!(ppu.sprite_scanline[4 * 7 + 1], 7);
}

#[test]
fn eight_sprites_do_not_overflow() {
    let mut ppu = Ppu::new();
    place_sprites(&mut ppu, 8, 10);
    ppu.scan_line = 17;
    ppu.evaluate_sprites();
    assert_eq!(ppu.sprite_count, 8);
    assert_eq!(ppu.status & 0x20, 0);
    ppu.scan_line = 18;
    ppu.evaluate_sprites();
    assert_eq!(ppu.sprite_count, 0);
    assert!(!ppu.zero_hit_possible);
    assert_eq!(ppu.sprite_scanline[0], 0xFF);
}

#[test]
fn tall_sprites_cover_sixteen_lines() {
    let mut c = cart(false, 1);
    let mut ppu = Ppu::new();
    ppu.cpu_write(0, 0x20, &mut c);
    place_sprites(&mut ppu, 1, 10);
    ppu.scan_line = 25;
    ppu.evaluate_sprites();
    assert_eq!(ppu.sprite_count, 1);
    ppu.scan_line = 26;
    ppu.evaluate_sprites();
    assert_eq!(ppu.sprite_count, 0);
}

#[test]
fn composite_resolution_rule() {
    assert_eq!(composite(0, 1, 0, 5, true), (0, 0));
    assert_eq!(composite(2, 1, 0, 5, true), (2, 1));
    assert_eq!(composite(0, 1, 3, 5, false), (3, 5));
    assert_eq!(composite(2, 1, 3, 5, true), (3, 5));
    assert_eq!(composite(2, 1, 3, 5, false), (2, 1));
}

#[test]
fn flip_reverses_bits() {
    assert_eq!(flip_byte(0b1000_0001), 0b1000_0001);
    assert_eq!(flip_byte(0b1100_0000), 0b0000_0011);
    assert_eq!(flip_byte(0b0001_0110), 0b0110_1000);
}

#[test]
fn name_tables_follow_mirroring() {
    let mut c = cart(true, 1);
    let mut ppu = Ppu::new();
    ppu.ppu_write(0x2005, 0xAB, &mut c);
    assert_eq!(ppu.ppu_read(0x2805, &c), 0xAB);
    assert_eq!(ppu.ppu_read(0x2405, &c), 0x00);
    let mut h = cart(false, 1);
    let mut ppu2 = Ppu::new();
    ppu2.ppu_write(0x2005, 0xCD, &mut h);
    assert_eq!(ppu2.ppu_read(0x2405, &h), 0xCD);
    assert_eq!(ppu2.ppu_read(0x2805, &h), 0x00);
    assert_eq!(ppu2.ppu_read(0x3005, &h), 0xCD);
}

#[test]
fn palette_aliases() {
    let mut c = cart(false, 1);
    let mut ppu = Ppu::new();
    ppu.ppu_write(0x3F10, 0x21, &mut c);
    assert_eq!(ppu.ppu_read(0x3F00, &c), 0x21);
    ppu.ppu_write(0x3F04, 0x3F, &mut c);
    assert_eq!(ppu.ppu_read(0x3F14, &c), 0x3F);
    assert_eq!(ppu.ppu_read(0x3F24, &c), 0x3F);
    assert_eq!(ppu.get_pal_position(1, 0, &c), 0x3F);
}

#[test]
fn pattern_reads_go_to_cartridge_first() {
    let mut c = cart(false, 1);
    let mut ppu = Ppu::new();
    ppu.ppu_write(0x0010, 0x5A, &mut c);
    assert_eq!(c.v_chr_memory[0x10], 0x5A);
    assert_eq!(ppu.tbl_pattern[0x10], 0);
    let mut none = cart(false, 0);
    ppu.ppu_write(0x0010, 0x5B, &mut none);
    assert_eq!(ppu.tbl_pattern[0x10], 0x5B);
    assert_eq!(ppu.ppu_read(0x0010, &none), 0x5B);
}

#[test]
fn data_port_reads_are_buffered() {
    let mut c = cart(false, 1);
    let mut ppu = Ppu::new();
    ppu.ppu_write(0x2000, 0x11, &mut c);
    ppu.ppu_write(0x2001, 0x22, &mut c);
    ppu.cpu_write(6, 0x20, &mut c);
    ppu.cpu_write(6, 0x00, &mut c);
    assert_eq!(ppu.vram_addr, 0x2000);
    let _stale = ppu.cpu_read(7, false, &c);
    assert_eq!(ppu.cpu_read(7, false, &c), 0x11);
    assert_eq!(ppu.cpu_read(7, false, &c), 0x22);
    assert_eq!(ppu.vram_addr, 0x2003);
}

#[test]
fn data_port_steps_by_32_in_increment_mode() {
    let mut c = cart(false, 1);
    let mut ppu = Ppu::new();
    ppu.cpu_write(0, 0x04, &mut c);
    ppu.cpu_write(6, 0x21, &mut c);
    ppu.cpu_write(6, 0x00, &mut c);
    ppu.cpu_write(7, 0x77, &mut c);
    assert_eq!(ppu.vram_addr, 0x2120);
    assert_eq!(ppu.ppu_read(0x2100, &c), 0x77);
}

#[test]
fn palette_reads_are_immediate() {
    let mut c = cart(false, 1);
    let mut ppu = Ppu::new();
    ppu.ppu_write(0x3F01, 0x15, &mut c);
    ppu.cpu_write(6, 0x3F, &mut c);
    ppu.cpu_write(6, 0x01, &mut c);
    assert_eq!(ppu.cpu_read(7, false, &c), 0x15);
}

#[test]
fn status_read_clears_vblank_and_latch() {
    let c = cart(false, 1);
    let mut ppu = Ppu::new();
    ppu.status = 0xE0;
    ppu.ppu_data_buffer = 0x1F;
    ppu.address_latch = 1;
    assert_eq!(ppu.cpu_read(2, true, &c), 0xE0);
    assert_eq!(ppu.cpu_read(2, false, &c), 0xFF);
    assert_eq!(ppu.status, 0x60);
    assert_eq!(ppu.address_latch, 0);
}

#[test]
fn scroll_writes_fill_temporary_address() {
    let mut c = cart(false, 1);
    let mut ppu = Ppu::new();
    ppu.cpu_write(0, 0x03, &mut c);
    ppu.cpu_write(5, 0x7D, &mut c);
    assert_eq!(ppu.fine_x, 5);
    ppu.cpu_write(5, 0x5E, &mut c);
    let t = ppu.tram_addr;
    assert_eq!(t & 0x1F, 0x7D >> 3);
    assert_eq!((t >> 5) & 0x1F, 0x5E >> 3);
    assert_eq!((t >> 12) & 0x07, 0x5E & 0x07);
    assert_eq!((t >> 10) & 0x03, 0x03);
}

#[test]
fn coarse_x_wraps_into_next_table() {
    let mut c = cart(false, 1);
    let mut ppu = Ppu::new();
    ppu.cpu_write(1, 0x08, &mut c);
    ppu.vram_addr = 31;
    ppu.increment_scroll_x();
    assert_eq!(ppu.vram_addr, 0x0400);
    ppu.increment_scroll_x();
    assert_eq!(ppu.vram_addr, 0x0401);
}

#[test]
fn coarse_y_wraps_at_29_and_31() {
    let mut c = cart(false, 1);
    let mut ppu = Ppu::new();
    ppu.cpu_write(1, 0x08, &mut c);
    ppu.vram_addr = (7 << 12) | (29 << 5);
    ppu.increment_scroll_y();
    assert_eq!(ppu.vram_addr, 0x0800);
    ppu.vram_addr = (7 << 12) | (31 << 5);
    ppu.increment_scroll_y();
    assert_eq!(ppu.vram_addr, 0x0000);
    ppu.vram_addr = 3 << 12;
    ppu.increment_scroll_y();
    assert_eq!(ppu.vram_addr, 4 << 12);
}

#[test]
fn scroll_updates_need_rendering() {
    let mut ppu = Ppu::new();
    ppu.vram_addr = 5;
    ppu.tram_addr = 0x7FFF;
    ppu.increment_scroll_x();
    ppu.transfer_address_x();
    ppu.transfer_address_y();
    assert_eq!(ppu.vram_addr, 5);
}

#[test]
fn oam_port_and_reset() {
    let mut c = cart(false, 1);
    let mut ppu = Ppu::new();
    assert_eq!(ppu.get_oam(0), 0xFF);
    ppu.cpu_write(3, 0x10, &mut c);
    ppu.cpu_write(4, 0x42, &mut c);
    assert_eq!(ppu.get_oam(0x10), 0x42);
    assert_eq!(ppu.cpu_read(4, false, &c), 0x42);
    ppu.control = 0x80;
    ppu.cycle = 100;
    ppu.reset();
    assert_eq!((ppu.control, ppu.cycle, ppu.scan_line), (0, 0, 0));
}

#[test]
fn background_pixel_reaches_frame() {
    let mut c = cart(false, 1);
    let mut ppu = Ppu::new();
    ppu.ppu_write(0x3F03, 0x2A, &mut c);
    ppu.cpu_write(1, 0x08, &mut c);
    ppu.bg_shifter_pattern_lo = 0x8000;
    ppu.bg_shifter_pattern_hi = 0x8000;
    ppu.scan_line = 3;
    ppu.cycle = 11;
    ppu.render_pixel(&c);
    assert_eq!(ppu.pal_positions[3 * 256 + 10], 0x2A);
}

#[test]
fn line_zero_keeps_its_first_cycle() {
    let c = cart(false, 1);
    let mut ppu = Ppu::new();
    ppu.clock(&c);
    assert_eq!((ppu.scan_line, ppu.cycle), (0, 1));
    ppu.clock(&c);
    assert_eq!((ppu.scan_line, ppu.cycle), (0, 2));
}
