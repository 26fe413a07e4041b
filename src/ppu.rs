//! The picture unit: registers, its own memory, and the raster state machine.
use vstd::prelude::*;
use crate::cartridge::{Cartridge, Mirror};

verus! {

/// Pixels per line of the frame buffer.
pub const SCREEN_WIDTH: usize = 256;

/// Lines of the frame buffer.
pub const SCREEN_HEIGHT: usize = 240;

/// Pixels of the frame buffer.
pub const SCREEN_SIZE: usize = 61440;

/// Bytes of sprite attribute memory: 64 sprites of 4 bytes.
pub const OAM_SIZE: usize = 256;

/// The most sprites that one line can show.
pub const MAX_LINE_SPRITES: u8 = 8;

// Bits of the control register.
pub open spec fn ctrl_increment_mode(c: u8) -> bool { c & 0x04 != 0 }
pub open spec fn ctrl_pattern_sprite(c: u8) -> bool { c & 0x08 != 0 }
pub open spec fn ctrl_pattern_background(c: u8) -> bool { c & 0x10 != 0 }
pub open spec fn ctrl_sprite_size(c: u8) -> bool { c & 0x20 != 0 }
pub open spec fn ctrl_enable_nmi(c: u8) -> bool { c & 0x80 != 0 }

// Bits of the mask register.
pub open spec fn mask_grayscale(m: u8) -> bool { m & 0x01 != 0 }
pub open spec fn mask_render_background_left(m: u8) -> bool { m & 0x02 != 0 }
pub open spec fn mask_render_sprites_left(m: u8) -> bool { m & 0x04 != 0 }
pub open spec fn mask_render_background(m: u8) -> bool { m & 0x08 != 0 }
pub open spec fn mask_render_sprites(m: u8) -> bool { m & 0x10 != 0 }

/// Status bits: sprite overflow, sprite-zero hit, vertical blank.
pub const STATUS_SPRITE_OVERFLOW: u8 = 0x20;
pub const STATUS_SPRITE_ZERO_HIT: u8 = 0x40;
pub const STATUS_VERTICAL_BLANK: u8 = 0x80;

// Fields of a scroll (loopy) address register.
pub open spec fn reg_coarse_x(r: u16) -> u16 { r & 0x001F }
pub open spec fn reg_coarse_y(r: u16) -> u16 { (r >> 5u16) & 0x001F }
pub open spec fn reg_nametable_x(r: u16) -> u16 { (r >> 10u16) & 1 }
pub open spec fn reg_nametable_y(r: u16) -> u16 { (r >> 11u16) & 1 }
pub open spec fn reg_fine_y(r: u16) -> u16 { (r >> 12u16) & 0x0007 }

/// How far a data-port access moves the VRAM address.
pub open spec fn vram_step(control: u8) -> u16 {
    if ctrl_increment_mode(control) { 32 } else { 1 }
}

/// Which of the 2 KiB of name-table memory a name-table address selects.
pub open spec fn name_index(mirror: Mirror, addr: u16) -> int {
    let a = addr & 0x0FFF;
    let table = match mirror {
        Mirror::VERTICAL => (a >> 10u16) & 1,
        Mirror::HORIZONTAL => (a >> 11u16) & 1,
    };
    table * 1024 + (a & 0x03FF)
}

/// Which palette byte an address in the palette range selects; the
/// background entries of the sprite palettes alias the first four.
pub open spec fn palette_index(addr: u16) -> int {
    let a = addr & 0x001F;
    if a == 0x10 || a == 0x14 || a == 0x18 || a == 0x1C { (a - 0x10) as int } else { a as int }
}

fn name_index_of(mirror: Mirror, addr: u16) -> (r: usize)
    ensures
        r == name_index(mirror, addr),
        r < 2048,
{
    let a = addr & 0x0FFF;
    let table = match mirror {
        Mirror::VERTICAL => (a >> 10u16) & 1,
        Mirror::HORIZONTAL => (a >> 11u16) & 1,
    };
    assert((a >> 10u16) & 1 <= 1) by (bit_vector);
    assert((a >> 11u16) & 1 <= 1) by (bit_vector);
    assert(a & 0x03FF < 1024) by (bit_vector);
    (table as usize) * 1024 + (a & 0x03FF) as usize
}

fn palette_index_of(addr: u16) -> (r: usize)
    ensures
        r == palette_index(addr),
        r < 32,
{
    let a = addr & 0x001F;
    assert(a & 0x001F < 32) by (bit_vector);
    assert(addr & 0x001F < 32) by (bit_vector);
    if a == 0x10 || a == 0x14 || a == 0x18 || a == 0x1C { (a - 0x10) as usize } else { a as usize }
}

/// The picture unit's state.
pub struct Ppu {
    /// Two physical name tables of 1 KiB each, one after the other.
    pub tbl_name: Vec<u8>,
    /// Two pattern tables of 4 KiB each, used where the cartridge does not answer.
    pub tbl_pattern: Vec<u8>,
    pub tbl_palette: Vec<u8>,
    /// The frame: one palette-resolved colour index per pixel, row by row.
    pub pal_positions: Vec<u8>,
    pub scan_line: i16,
    pub cycle: i16,
    pub counter: u64,
    pub status: u8,
    pub mask: u8,
    pub control: u8,
    pub vram_addr: u16,
    pub tram_addr: u16,
    pub fine_x: u8,
    pub address_latch: u8,
    pub ppu_data_buffer: u8,
    pub bg_next_tile_id: u8,
    pub bg_next_tile_attrib: u8,
    pub bg_next_tile_lsb: u8,
    pub bg_next_tile_msb: u8,
    pub bg_shifter_pattern_lo: u16,
    pub bg_shifter_pattern_hi: u16,
    pub bg_shifter_attrib_lo: u16,
    pub bg_shifter_attrib_hi: u16,
    /// Raised at the start of vertical blank when enabled; the owner clears it.
    pub nmi: bool,
    /// Sprite attribute memory: y, tile id, attribute, x for each of 64 sprites.
    pub oam: Vec<u8>,
    pub oam_addr: u8,
    /// The sprites chosen for the next line, 4 bytes each, up to 8.
    pub sprite_scanline: Vec<u8>,
    pub sprite_count: u8,
    pub sprite_shifter_pattern_lo: Vec<u8>,
    pub sprite_shifter_pattern_hi: Vec<u8>,
    pub zero_hit_possible: bool,
    pub zero_sprite_rendered: bool,
    pub frame_complete: bool,
}

fn filled(len: usize, value: u8) -> (r: Vec<u8>)
    ensures
        r@.len() == len,
        forall|i: int| 0 <= i < len ==> r@[i] == value,
{
    let mut r: Vec<u8> = Vec::with_capacity(len);
    let mut i: usize = 0;
    while i < len
        invariant
            i <= len,
            r@.len() == i,
            forall|j: int| 0 <= j < i ==> r@[j] == value,
        decreases len - i,
    {
        r.push(value);
        i += 1;
    }
    r
}

impl Ppu {
    /// Memory sizes are fixed and the raster position is in range.
    pub open spec fn wf(&self) -> bool {
        &&& self.tbl_name@.len() == 2048
        &&& self.tbl_pattern@.len() == 8192
        &&& self.tbl_palette@.len() == 32
        &&& self.pal_positions@.len() == SCREEN_SIZE
        &&& self.oam@.len() == OAM_SIZE
        &&& self.sprite_scanline@.len() == 32
        &&& self.sprite_shifter_pattern_lo@.len() == 8
        &&& self.sprite_shifter_pattern_hi@.len() == 8
        &&& self.sprite_count <= MAX_LINE_SPRITES
        &&& -1 <= self.scan_line <= 260
        &&& 0 <= self.cycle <= 340
    }

    /// A powered-on unit: name, pattern and palette memory and the frame
    /// cleared, attribute memory filled with 0xFF, no sprites buffered,
    /// registers and addresses 0, raster at line 0, cycle 0.
    pub fn new() -> (r: Ppu)
        ensures
            r.wf(),
            r.scan_line == 0,
            r.cycle == 0,
            r.status == 0,
            r.control == 0,
            r.mask == 0,
            !r.nmi,
            !r.frame_complete,
            r.counter == 0,
            r.vram_addr == 0 && r.tram_addr == 0 && r.fine_x == 0,
            r.address_latch == 0 && r.ppu_data_buffer == 0 && r.oam_addr == 0,
            r.sprite_count == 0,
            forall|i: int| 0 <= i < OAM_SIZE ==> r.oam@[i] == 0xFF,
            forall|i: int| 0 <= i < 2048 ==> r.tbl_name@[i] == 0,
            forall|i: int| 0 <= i < 8192 ==> r.tbl_pattern@[i] == 0,
            forall|i: int| 0 <= i < 32 ==> r.tbl_palette@[i] == 0,
            forall|i: int| 0 <= i < SCREEN_SIZE ==> r.pal_positions@[i] == 0,
    {
        Ppu {
            tbl_name: filled(2048, 0),
            tbl_pattern: filled(8192, 0),
            tbl_palette: filled(32, 0),
            pal_positions: filled(SCREEN_SIZE, 0),
            scan_line: 0,
            cycle: 0,
            counter: 0,
            status: 0,
            mask: 0,
            control: 0,
            vram_addr: 0,
            tram_addr: 0,
            fine_x: 0,
            address_latch: 0,
            ppu_data_buffer: 0,
            bg_next_tile_id: 0,
            bg_next_tile_attrib: 0,
            bg_next_tile_lsb: 0,
            bg_next_tile_msb: 0,
            bg_shifter_pattern_lo: 0,
            bg_shifter_pattern_hi: 0,
            bg_shifter_attrib_lo: 0,
            bg_shifter_attrib_hi: 0,
            nmi: false,
            oam: filled(OAM_SIZE, 0xFF),
            oam_addr: 0,
            sprite_scanline: filled(32, 0xFF),
            sprite_count: 0,
            sprite_shifter_pattern_lo: filled(8, 0),
            sprite_shifter_pattern_hi: filled(8, 0),
            zero_hit_possible: false,
            zero_sprite_rendered: false,
            frame_complete: false,
        }
    }

    /// A byte of sprite attribute memory.
    pub fn get_oam(&self, addr: usize) -> (r: u8)
        requires
            self.wf(),
            addr < OAM_SIZE,
        ensures
            r == self.oam@[addr as int],
    {
        self.oam[addr]
    }

    /// Sets a byte of sprite attribute memory.
    pub fn set_oam(&mut self, addr: usize, data: u8)
        requires
            old(self).wf(),
            addr < OAM_SIZE,
        ensures
            final(self).wf(),
            (*final(self) == Ppu { oam: final(self).oam, ..*old(self) }),
            final(self).oam@ == old(self).oam@.update(addr as int, data),
    {
        self.oam.set(addr, data);
    }

    /// What a read of PPU address `addr` yields: the cartridge first, then
    /// pattern, name-table or palette memory.
    pub open spec fn mem_read(&self, cart: &Cartridge, addr: u16) -> u8 {
        let a = addr & 0x3FFF;
        match cart.ppu_peek(a) {
            Some(v) => v,
            None => if a <= 0x1FFF {
                self.tbl_pattern@[a as int]
            } else if a <= 0x3EFF {
                self.tbl_name@[name_index(cart.mirror, a)]
            } else {
                self.tbl_palette@[palette_index(a)] & (if mask_grayscale(self.mask) { 0x30u8 } else { 0x3Fu8 })
            },
        }
    }

    /// The effect of a PPU memory write of `data` at `addr`: from unit `p0`
    /// and cartridge `c0` to `p1` and `c1`.
    pub open spec fn mem_write(p0: Ppu, p1: Ppu, c0: Cartridge, c1: Cartridge, addr: u16, data: u8) -> bool {
        &&& ({
            let a = addr & 0x3FFF;
            let claimed = c0.ppu_peek(a).is_some();
            &&& c1.mirror == c0.mirror
            &&& c1.p_mapper == c0.p_mapper
            &&& c1.v_prg_memory@ == c0.v_prg_memory@
            &&& claimed ==> c1.v_chr_memory@ == c0.v_chr_memory@.update(a as int, data)
            &&& !claimed ==> c1.v_chr_memory@ == c0.v_chr_memory@
            &&& p1.tbl_pattern@ == if !claimed && a <= 0x1FFF {
                p0.tbl_pattern@.update(a as int, data)
            } else {
                p0.tbl_pattern@
            }
            &&& p1.tbl_name@ == if !claimed && 0x2000 <= a <= 0x3EFF {
                p0.tbl_name@.update(name_index(c0.mirror, a), data)
            } else {
                p0.tbl_name@
            }
            &&& p1.tbl_palette@ == if !claimed && a > 0x3EFF {
                p0.tbl_palette@.update(palette_index(a), data)
            } else {
                p0.tbl_palette@
            }
        })
        &&& (p1 == Ppu {
            tbl_pattern: p1.tbl_pattern,
            tbl_name: p1.tbl_name,
            tbl_palette: p1.tbl_palette,
            ..p0
        })
    }

    /// The effect of a register read of `addr` from the CPU side: from
    /// `p0` to `p1`, yielding `data`.
    pub open spec fn register_read(p0: Ppu, p1: Ppu, cart: &Cartridge, addr: usize, rdonly: bool, data: u8) -> bool {
        &&& rdonly ==> p1 == p0 && data == (if addr == 0 {
            p0.control
        } else if addr == 1 {
            p0.mask
        } else if addr == 2 {
            p0.status
        } else {
            0u8
        })
        &&& !rdonly && addr == 2 ==> data == ((p0.status & 0xE0) | (p0.ppu_data_buffer & 0x1F))
            && (p1 == Ppu { status: p0.status & 0x7F, address_latch: 0, ..p0 })
        &&& !rdonly && addr == 4 ==> data == p0.oam@[p0.oam_addr as int]
            && p1 == p0
        &&& !rdonly && addr == 7 ==> {
            let fresh = p0.mem_read(cart, p0.vram_addr);
            &&& data == (if p0.vram_addr >= 0x3F00 { fresh } else { p0.ppu_data_buffer })
            &&& (p1 == Ppu {
                ppu_data_buffer: fresh,
                vram_addr: p0.vram_addr.wrapping_add(vram_step(p0.control)),
                ..p0
            })
        }
        &&& !rdonly && addr != 2 && addr != 4 && addr != 7 ==> data == 0 && p1 == p0
    }

    /// The effect of a register write of `data` at `addr` from the CPU
    /// side: from unit `p0` and cartridge `c0` to `p1` and `c1`.
    pub open spec fn register_write(p0: Ppu, p1: Ppu, c0: Cartridge, c1: Cartridge, addr: usize, data: u8) -> bool {
        &&& addr == 0 ==> (p1 == Ppu {
            control: data,
            tram_addr: (p0.tram_addr & 0xF3FF) | (((data & 0x03) as u16) << 10u16),
            ..p0
        })
        &&& addr == 1 ==> (p1 == Ppu { mask: data, ..p0 })
        &&& addr == 3 ==> (p1 == Ppu { oam_addr: data, ..p0 })
        &&& addr == 4 ==> (p1 == Ppu {
            oam: p1.oam,
            ..p0
        }) && p1.oam@ == p0.oam@.update(p0.oam_addr as int, data)
        &&& addr == 5 && p0.address_latch == 0 ==> (p1 == Ppu {
            fine_x: data & 0x07,
            tram_addr: (p0.tram_addr & 0xFFE0) | ((data >> 3u8) as u16),
            address_latch: 1,
            ..p0
        })
        &&& addr == 5 && p0.address_latch != 0 ==> (p1 == Ppu {
            tram_addr: (((p0.tram_addr & 0x8FFF) | (((data & 0x07) as u16) << 12u16)) & 0xFC1F)
                | (((data >> 3u8) as u16) << 5u16),
            address_latch: 0,
            ..p0
        })
        &&& addr == 6 && p0.address_latch == 0 ==> (p1 == Ppu {
            tram_addr: (((data & 0x3F) as u16) << 8u16) | (p0.tram_addr & 0x00FF),
            address_latch: 1,
            ..p0
        })
        &&& addr == 6 && p0.address_latch != 0 ==> (p1 == Ppu {
            tram_addr: (p0.tram_addr & 0xFF00) | (data as u16),
            vram_addr: (p0.tram_addr & 0xFF00) | (data as u16),
            address_latch: 0,
            ..p0
        })
        &&& addr == 7 ==> p1.vram_addr == p0.vram_addr.wrapping_add(vram_step(p0.control))
            && Ppu::mem_write(p0, Ppu { vram_addr: p0.vram_addr, ..p1 }, c0, c1, p0.vram_addr, data)
        &&& addr != 7 ==> c1 == c0
        &&& addr == 2 || addr > 7 ==> p1 == p0
    }

    /// Reads PPU memory.
    pub fn ppu_read(&self, addr: u16, cart: &Cartridge) -> (r: u8)
        requires
            self.wf(),
        ensures
            r == self.mem_read(cart, addr),
    {
        let a = addr & 0x3FFF;
        let mut data: u8 = 0;
        if cart.ppu_read(a, &mut data) {
            data
        } else if a <= 0x1FFF {
            self.tbl_pattern[a as usize]
        } else if a <= 0x3EFF {
            self.tbl_name[name_index_of(cart.mirror, a)]
        } else {
            let v = self.tbl_palette[palette_index_of(a)];
            if self.mask & 0x01 != 0 { v & 0x30 } else { v & 0x3F }
        }
    }

    /// Writes PPU memory: through the cartridge where it claims the address,
    /// otherwise into pattern, name-table or palette memory.
    pub fn ppu_write(&mut self, addr: u16, data: u8, cart: &mut Cartridge)
        requires
            old(self).wf(),
        ensures
            final(self).wf(),
            Ppu::mem_write(*old(self), *final(self), *old(cart), *final(cart), addr, data),
    {
        let a = addr & 0x3FFF;
        if cart.ppu_write(a as usize, data) {
        } else if a <= 0x1FFF {
            self.tbl_pattern.set(a as usize, data);
        } else if a <= 0x3EFF {
            let i = name_index_of(cart.mirror, a);
            self.tbl_name.set(i, data);
        } else {
            let i = palette_index_of(a);
            self.tbl_palette.set(i, data);
        }
    }

    /// A read of register `addr` (0 to 7) from the CPU side. A read-only
    /// access shows control, mask and status and changes nothing. Otherwise
    /// status (2) returns its top three bits over stale buffer bits and
    /// clears vertical blank and the write latch; OAM data (4) returns the
    /// byte at the OAM address; data (7) returns the buffered byte (the
    /// fresh one for palette addresses), refills the buffer and steps the
    /// VRAM address; the rest return 0.
    pub fn cpu_read(&mut self, addr: usize, rdonly: bool, cart: &Cartridge) -> (data: u8)
        requires
            old(self).wf(),
        ensures
            final(self).wf(),
            Ppu::register_read(*old(self), *final(self), cart, addr, rdonly, data),
    {
        let mut data: u8 = 0;
        if rdonly {
            if addr == 0 {
                data = self.control;
            } else if addr == 1 {
                data = self.mask;
            } else if addr == 2 {
                data = self.status;
            }
        } else if addr == 2 {
            data = (self.status & 0xE0) | (self.ppu_data_buffer & 0x1F);
            self.status = self.status & 0x7F;
            self.address_latch = 0;
        } else if addr == 4 {
            data = self.oam[self.oam_addr as usize];
        } else if addr == 7 {
            data = self.ppu_data_buffer;
            self.ppu_data_buffer = self.ppu_read(self.vram_addr, cart);
            if self.vram_addr >= 0x3F00 {
                data = self.ppu_data_buffer;
            }
            let step: u16 = if self.control & 0x04 != 0 { 32 } else { 1 };
            self.vram_addr = self.vram_addr.wrapping_add(step);
        }
        data
    }

    /// A write of register `addr` (0 to 7) from the CPU side: control (0)
    /// also copies the name-table select into the temporary address; mask
    /// (1); OAM address (3) and data (4); scroll (5) and address (6) take two
    /// writes each, alternated by the write latch; data (7) writes PPU
    /// memory and steps the VRAM address.
    pub fn cpu_write(&mut self, addr: usize, data: u8, cart: &mut Cartridge)
        requires
            old(self).wf(),
        ensures
            final(self).wf(),
            Ppu::register_write(*old(self), *final(self), *old(cart), *final(cart), addr, data),
    {
        if addr == 0 {
            self.control = data;
            self.tram_addr = (self.tram_addr & 0xF3FF) | (((data & 0x03) as u16) << 10u16);
        } else if addr == 1 {
            self.mask = data;
        } else if addr == 3 {
            self.oam_addr = data;
        } else if addr == 4 {
            let a = self.oam_addr as usize;
            self.oam.set(a, data);
        } else if addr == 5 {
            if self.address_latch == 0 {
                self.fine_x = data & 0x07;
                self.tram_addr = (self.tram_addr & 0xFFE0) | ((data >> 3u8) as u16);
                self.address_latch = 1;
            } else {
                self.tram_addr = (self.tram_addr & 0x8FFF) | (((data & 0x07) as u16) << 12u16);
                self.tram_addr = (self.tram_addr & 0xFC1F) | (((data >> 3u8) as u16) << 5u16);
                self.address_latch = 0;
            }
        } else if addr == 6 {
            if self.address_latch == 0 {
                self.tram_addr = (((data & 0x3F) as u16) << 8u16) | (self.tram_addr & 0x00FF);
                self.address_latch = 1;
            } else {
                self.tram_addr = (self.tram_addr & 0xFF00) | (data as u16);
                self.vram_addr = self.tram_addr;
                self.address_latch = 0;
            }
        } else if addr == 7 {
            let v = self.vram_addr;
            self.ppu_write(v, data, cart);
            let step: u16 = if self.control & 0x04 != 0 { 32 } else { 1 };
            self.vram_addr = self.vram_addr.wrapping_add(step);
        }
    }
}

/// Rendering of background or sprites is on.
pub open spec fn rendering(mask: u8) -> bool {
    mask_render_background(mask) || mask_render_sprites(mask)
}

/// A sprite's 8 pixels in reverse order: bit `i` of the result is bit
/// `7 - i` of `b`.
pub open spec fn reversed_bits(r: u8, b: u8) -> bool {
    forall|i: u8| i < 8 ==> #[trigger] ((r >> i) & 1) == (b >> ((7 - i) as u8)) & 1
}

proof fn lemma_flip_byte(b: u8)
    ensures
        reversed_bits(
            ({
                let b1 = ((b & 0xF0) >> 4u8) | ((b & 0x0F) << 4u8);
                let b2 = ((b1 & 0xCC) >> 2u8) | ((b1 & 0x33) << 2u8);
                ((b2 & 0xAA) >> 1u8) | ((b2 & 0x55) << 1u8)
            }),
            b,
        ),
{
    let b1 = ((b & 0xF0) >> 4u8) | ((b & 0x0F) << 4u8);
    let b2 = ((b1 & 0xCC) >> 2u8) | ((b1 & 0x33) << 2u8);
    let r = ((b2 & 0xAA) >> 1u8) | ((b2 & 0x55) << 1u8);
    assert(forall|i: u8| i < 8 ==> #[trigger] ((r >> i) & 1) == (b >> ((7 - i) as u8)) & 1) by (bit_vector)
        requires
            b1 == ((b & 0xF0) >> 4u8) | ((b & 0x0F) << 4u8),
            b2 == ((b1 & 0xCC) >> 2u8) | ((b1 & 0x33) << 2u8),
            r == ((b2 & 0xAA) >> 1u8) | ((b2 & 0x55) << 1u8),
    ;
}

/// Reverses the bit order of a byte, for horizontally flipped sprites.
pub fn flip_byte(b: u8) -> (r: u8)
    ensures
        reversed_bits(r, b),
{
    proof {
        lemma_flip_byte(b);
    }
    let b1 = ((b & 0xF0) >> 4u8) | ((b & 0x0F) << 4u8);
    let b2 = ((b1 & 0xCC) >> 2u8) | ((b1 & 0x33) << 2u8);
    ((b2 & 0xAA) >> 1u8) | ((b2 & 0x55) << 1u8)
}

/// The pixel and palette that win when a background pixel meets a
/// sprite pixel: a transparent (zero) side loses; when both show, the
/// sprite's priority bit decides.
pub open spec fn composite_spec(bg_pixel: u8, bg_palette: u8, fg_pixel: u8, fg_palette: u8, fg_priority: bool) -> (u8, u8) {
    if fg_pixel == 0 && bg_pixel == 0 {
        (0, 0)
    } else if bg_pixel == 0 {
        (fg_pixel, fg_palette)
    } else if fg_pixel == 0 {
        (bg_pixel, bg_palette)
    } else if fg_priority {
        (fg_pixel, fg_palette)
    } else {
        (bg_pixel, bg_palette)
    }
}

/// Resolves one background pixel against one sprite pixel.
pub fn composite(bg_pixel: u8, bg_palette: u8, fg_pixel: u8, fg_palette: u8, fg_priority: bool) -> (r: (u8, u8))
    ensures
        r == composite_spec(bg_pixel, bg_palette, fg_pixel, fg_palette, fg_priority),
{
    if fg_pixel == 0 && bg_pixel == 0 {
        (0, 0)
    } else if bg_pixel == 0 {
        (fg_pixel, fg_palette)
    } else if fg_pixel == 0 {
        (bg_pixel, bg_palette)
    } else if fg_priority {
        (fg_pixel, fg_palette)
    } else {
        (bg_pixel, bg_palette)
    }
}

/// Sprite `e` of attribute memory covers line `line`.
pub open spec fn sprite_on_line(oam: Seq<u8>, e: int, line: int, tall: bool) -> bool {
    let d = line - oam[4 * e];
    0 <= d && d < (if tall { 16int } else { 8int })
}

/// The indices, in order, of the sprites among the first `n` that cover
/// line `line`.
pub open spec fn line_sprites(oam: Seq<u8>, n: int, line: int, tall: bool) -> Seq<int>
    decreases n,
{
    if n <= 0 {
        Seq::empty()
    } else if sprite_on_line(oam, n - 1, line, tall) {
        line_sprites(oam, n - 1, line, tall).push(n - 1)
    } else {
        line_sprites(oam, n - 1, line, tall)
    }
}

proof fn lemma_line_sprites_bounds(oam: Seq<u8>, n: int, line: int, tall: bool)
    requires
        n >= 0,
    ensures
        line_sprites(oam, n, line, tall).len() <= n,
        forall|j: int| 0 <= j < line_sprites(oam, n, line, tall).len()
            ==> 0 <= #[trigger] line_sprites(oam, n, line, tall)[j] < n,
    decreases n,
{
    if n > 0 {
        lemma_line_sprites_bounds(oam, n - 1, line, tall);
    }
}

/// The pattern address of the row of a chosen sprite that line `line`
/// shows, for 8x8 and 8x16 sprites, vertically flipped or not.
pub open spec fn sprite_row_addr(control: u8, line: i16, y: u8, id: u8, attr: u8) -> u16 {
    let row = (line as u16).wrapping_sub(y as u16);
    if !ctrl_sprite_size(control) {
        let base = ((if ctrl_pattern_sprite(control) { 1u16 } else { 0u16 }) << 12u16) | ((id as u16) << 4u16);
        if attr & 0x80 == 0 {
            base | row
        } else {
            base | 7u16.wrapping_sub(row)
        }
    } else {
        let table = ((id & 0x01) as u16) << 12u16;
        let top = ((id & 0xFE) as u16) << 4u16;
        let bottom = (((id & 0xFE) + 1) as u16) << 4u16;
        let upper = (line as i16).wrapping_sub(y as i16) < 8;
        if attr & 0x80 == 0 {
            if upper { table | top | (row & 0x07) } else { table | bottom | (row & 0x07) }
        } else {
            if upper { table | bottom | (7 - (row & 0x07)) as u16 } else { table | top | (7 - (row & 0x07)) as u16 }
        }
    }
}

/// The raster position that follows (`scan_line`, `cycle`): the next
/// cycle, or cycle 0 of the next line after cycle 340, or line -1 after
/// line 260.
pub open spec fn next_position(scan_line: i16, cycle: i16) -> (i16, i16) {
    if cycle < 340 {
        (scan_line, (cycle + 1) as i16)
    } else if scan_line < 260 {
        ((scan_line + 1) as i16, 0i16)
    } else {
        (-1i16, 0i16)
    }
}

/// The place of a raster position in the order of a frame.
pub open spec fn raster_index(scan_line: int, cycle: int) -> int {
    (scan_line + 1) * 341 + cycle
}

/// Each clock moves the raster to the next position of the frame, in
/// line-then-cycle order, so every line from -1 to 260 and every cycle
/// from 0 to 340 comes exactly once per frame; only from line 260, cycle
/// 340 does it return to line -1, cycle 0.
pub proof fn lemma_raster_order(scan_line: i16, cycle: i16)
    requires
        -1 <= scan_line <= 260,
        0 <= cycle <= 340,
    ensures
        ({
            let (s2, c2) = next_position(scan_line, cycle);
            &&& -1 <= s2 <= 260
            &&& 0 <= c2 <= 340
            &&& (scan_line == 260 && cycle == 340) ==> s2 == -1 && c2 == 0
            &&& !(scan_line == 260 && cycle == 340) ==> raster_index(s2 as int, c2 as int)
                == raster_index(scan_line as int, cycle as int) + 1
        }),
{
}

/// The live address after one step right; see `Ppu::increment_scroll_x`.
pub open spec fn coarse_x_incremented(v: u16) -> u16 {
    if reg_coarse_x(v) == 31 { (v & 0xFFE0) ^ 0x0400 } else { (v + 1) as u16 }
}

/// Cycles of a line on which a sprite-zero hit can be flagged: the left
/// eight columns are left out unless both left-edge toggles are on.
pub open spec fn hit_window(mask: u8, cycle: i16) -> bool {
    if !(mask_render_background_left(mask) && mask_render_sprites_left(mask)) {
        9 <= cycle < 258
    } else {
        1 <= cycle < 258
    }
}

/// The first line sprite from index `i` on whose x has counted down to
/// zero and whose pixel is not transparent.
pub open spec fn front_sprite_of(count: u8, scanline: Seq<u8>, lo: Seq<u8>, hi: Seq<u8>, i: int) -> Option<int>
    decreases 8 - i,
{
    if i >= count || i >= 8 || i < 0 {
        None
    } else if scanline[4 * i + 3] == 0 && sprite_pixel(lo[i], hi[i]) != 0 {
        Some(i)
    } else {
        front_sprite_of(count, scanline, lo, hi, i + 1)
    }
}

/// The pattern address of a sprite row; see `sprite_row_addr`.
fn sprite_row_address(control: u8, line: i16, y: u8, id: u8, attr: u8) -> (r: u16)
    ensures
        r == sprite_row_addr(control, line, y, id, attr),
{
    let row: u16 = (line as u16).wrapping_sub(y as u16);
    if control & 0x20 == 0 {
        let base: u16 = ((if control & 0x08 != 0 { 1u16 } else { 0u16 }) << 12u16) | ((id as u16) << 4u16);
        if attr & 0x80 == 0 {
            base | row
        } else {
            base | 7u16.wrapping_sub(row)
        }
    } else {
        assert((id & 0xFE) + 1 <= 255) by (bit_vector);
        assert(row & 0x07 <= 7) by (bit_vector);
        let table: u16 = ((id & 0x01) as u16) << 12u16;
        let top: u16 = ((id & 0xFE) as u16) << 4u16;
        let bottom: u16 = (((id & 0xFE) + 1) as u16) << 4u16;
        let upper = line.wrapping_sub(y as i16) < 8;
        if attr & 0x80 == 0 {
            if upper { table | top | (row & 0x07) } else { table | bottom | (row & 0x07) }
        } else {
            if upper { table | bottom | (7 - (row & 0x07)) } else { table | top | (7 - (row & 0x07)) }
        }
    }
}

/// The proper tile-fetch address for the live address `v`.
pub open spec fn tile_addr(v: u16) -> u16 {
    0x2000 | (v & 0x0FFF)
}

/// The attribute-byte address for the live address `v`.
pub open spec fn attr_addr(v: u16) -> u16 {
    0x23C0 | (reg_nametable_y(v) << 11u16) | (reg_nametable_x(v) << 10u16) | ((reg_coarse_y(v) >> 2u16) << 3u16)
        | (reg_coarse_x(v) >> 2u16)
}

/// The two palette bits that an attribute byte gives the tile at `v`.
pub open spec fn attr_select(b: u8, v: u16) -> u8 {
    let b1 = if reg_coarse_y(v) & 0x02 != 0 { b >> 4u8 } else { b };
    let b2 = if reg_coarse_x(v) & 0x02 != 0 { b1 >> 2u8 } else { b1 };
    b2 & 0x03
}

/// The address of the low pattern byte of the row of tile `id` at `v`.
pub open spec fn bg_pattern_addr(control: u8, id: u8, v: u16) -> u16 {
    (((if ctrl_pattern_background(control) { 1u16 } else { 0u16 }) << 12u16) + ((id as u16) << 4u16) + reg_fine_y(v)) as u16
}

/// The 2-bit pixel that bit `mux` of a pair of shifters holds.
pub open spec fn pair_bits16(lo: u16, hi: u16, mux: u16) -> u8 {
    ((if hi & mux != 0 { 2u8 } else { 0u8 }) | (if lo & mux != 0 { 1u8 } else { 0u8 }))
}

/// The 2-bit pixel at the top of a sprite's pattern shifters.
pub open spec fn sprite_pixel(lo: u8, hi: u8) -> u8 {
    ((if hi & 0x80 != 0 { 2u8 } else { 0u8 }) | (if lo & 0x80 != 0 { 1u8 } else { 0u8 }))
}

impl Ppu {
    /// Unit state that the background and sprite helpers leave as it is.
    pub open spec fn same_timing(&self, other: &Ppu) -> bool {
        &&& self.scan_line == other.scan_line
        &&& self.cycle == other.cycle
        &&& self.counter == other.counter
        &&& self.control == other.control
        &&& self.mask == other.mask
        &&& self.nmi == other.nmi
        &&& self.frame_complete == other.frame_complete
        &&& self.status & 0x80 == other.status & 0x80
    }

    /// Moves the live address one tile right, wrapping into the other
    /// horizontal name table after column 31; only while rendering.
    pub fn increment_scroll_x(&mut self)
        ensures
            !rendering(old(self).mask) ==> *final(self) == *old(self),
            rendering(old(self).mask) ==> (*final(self) == Ppu {
                vram_addr: coarse_x_incremented(old(self).vram_addr),
                ..*old(self)
            }),
    {
        if self.mask & 0x08 != 0 || self.mask & 0x10 != 0 {
            let v = self.vram_addr;
            if v & 0x001F == 31 {
                self.vram_addr = (v & 0xFFE0) ^ 0x0400;
            } else {
                assert(v & 0x001F != 31 ==> v < 0xFFFF) by (bit_vector);
                self.vram_addr = v + 1;
            }
        }
    }

    /// Moves the live address one pixel row down: fine y first, then coarse
    /// y, wrapping into the other vertical name table after row 29; row 31
    /// (outside the table) wraps to 0 without switching; only while rendering.
    pub fn increment_scroll_y(&mut self)
        ensures
            !rendering(old(self).mask) ==> *final(self) == *old(self),
            rendering(old(self).mask) ==> (*final(self) == Ppu { vram_addr: final(self).vram_addr, ..*old(self) }),
            rendering(old(self).mask) ==> final(self).vram_addr == ({
                let v = old(self).vram_addr;
                if reg_fine_y(v) < 7 {
                    (v + 0x1000) as u16
                } else if reg_coarse_y(v) == 29 {
                    (v & 0x8C1F) ^ 0x0800
                } else if reg_coarse_y(v) == 31 {
                    v & 0x8C1F
                } else {
                    ((v & 0x8FFF) + 0x20) as u16
                }
            }),
    {
        if self.mask & 0x08 != 0 || self.mask & 0x10 != 0 {
            let v = self.vram_addr;
            if (v >> 12u16) & 0x0007 < 7 {
                assert((v >> 12u16) & 0x0007 < 7 ==> v + 0x1000 <= 0xFFFF) by (bit_vector);
                self.vram_addr = v + 0x1000;
            } else if (v >> 5u16) & 0x001F == 29 {
                self.vram_addr = (v & 0x8C1F) ^ 0x0800;
            } else if (v >> 5u16) & 0x001F == 31 {
                self.vram_addr = v & 0x8C1F;
            } else {
                assert((v & 0x8FFF) + 0x20 <= 0xFFFF) by (bit_vector);
                self.vram_addr = (v & 0x8FFF) + 0x20;
            }
        }
    }

    /// Copies the horizontal scroll (name table x, coarse x) from the
    /// temporary address into the live one; only while rendering.
    pub fn transfer_address_x(&mut self)
        ensures
            !rendering(old(self).mask) ==> *final(self) == *old(self),
            rendering(old(self).mask) ==> (*final(self) == Ppu {
                vram_addr: (old(self).vram_addr & 0xFBE0) | (old(self).tram_addr & 0x041F),
                ..*old(self)
            }),
    {
        if self.mask & 0x08 != 0 || self.mask & 0x10 != 0 {
            self.vram_addr = (self.vram_addr & 0xFBE0) | (self.tram_addr & 0x041F);
        }
    }

    /// Copies the vertical scroll (fine y, name table y, coarse y) from the
    /// temporary address into the live one; only while rendering.
    pub fn transfer_address_y(&mut self)
        ensures
            !rendering(old(self).mask) ==> *final(self) == *old(self),
            rendering(old(self).mask) ==> (*final(self) == Ppu {
                vram_addr: (old(self).vram_addr & 0x841F) | (old(self).tram_addr & 0x7BE0),
                ..*old(self)
            }),
    {
        if self.mask & 0x08 != 0 || self.mask & 0x10 != 0 {
            self.vram_addr = (self.vram_addr & 0x841F) | (self.tram_addr & 0x7BE0);
        }
    }

    /// The unit with the fetched tile's pattern bytes and palette bits in
    /// the low halves of the background shifters.
    pub open spec fn with_background_loaded(&self) -> Ppu {
        Ppu {
            bg_shifter_pattern_lo: (self.bg_shifter_pattern_lo & 0xFF00) | (self.bg_next_tile_lsb as u16),
            bg_shifter_pattern_hi: (self.bg_shifter_pattern_hi & 0xFF00) | (self.bg_next_tile_msb as u16),
            bg_shifter_attrib_lo: (self.bg_shifter_attrib_lo & 0xFF00)
                | (if self.bg_next_tile_attrib & 0x01 != 0 { 0x00FFu16 } else { 0u16 }),
            bg_shifter_attrib_hi: (self.bg_shifter_attrib_hi & 0xFF00)
                | (if self.bg_next_tile_attrib & 0x02 != 0 { 0x00FFu16 } else { 0u16 }),
            ..*self
        }
    }

    /// Puts the fetched tile's pattern bytes and palette bits into the low
    /// halves of the background shifters.
    pub fn load_background_shifters(&mut self)
        ensures
            *final(self) == old(self).with_background_loaded(),
    {
        self.bg_shifter_pattern_lo = (self.bg_shifter_pattern_lo & 0xFF00) | (self.bg_next_tile_lsb as u16);
        self.bg_shifter_pattern_hi = (self.bg_shifter_pattern_hi & 0xFF00) | (self.bg_next_tile_msb as u16);
        self.bg_shifter_attrib_lo = (self.bg_shifter_attrib_lo & 0xFF00)
            | (if self.bg_next_tile_attrib & 0x01 != 0 { 0x00FFu16 } else { 0u16 });
        self.bg_shifter_attrib_hi = (self.bg_shifter_attrib_hi & 0xFF00)
            | (if self.bg_next_tile_attrib & 0x02 != 0 { 0x00FFu16 } else { 0u16 });
    }

    /// Sprite `i` of the line buffer has counted down to its column and
    /// shifts out pixels.
    pub open spec fn sprite_active(&self, i: int) -> bool {
        mask_render_sprites(self.mask) && 1 <= self.cycle < 258 && i < self.sprite_count
    }

    /// Shifts the background shifters by one pixel (while background
    /// rendering is on), and for each line sprite either counts its x down
    /// or, once at zero, shifts its pattern by one pixel (while sprite
    /// rendering is on, during cycles 1 to 257).
    pub fn update_shifters(&mut self)
        requires
            old(self).wf(),
        ensures
            final(self).wf(),
            (*final(self) == Ppu {
                bg_shifter_pattern_lo: final(self).bg_shifter_pattern_lo,
                bg_shifter_pattern_hi: final(self).bg_shifter_pattern_hi,
                bg_shifter_attrib_lo: final(self).bg_shifter_attrib_lo,
                bg_shifter_attrib_hi: final(self).bg_shifter_attrib_hi,
                sprite_scanline: final(self).sprite_scanline,
                sprite_shifter_pattern_lo: final(self).sprite_shifter_pattern_lo,
                sprite_shifter_pattern_hi: final(self).sprite_shifter_pattern_hi,
                ..*old(self)
            }),
            mask_render_background(old(self).mask) ==> {
                &&& final(self).bg_shifter_pattern_lo == old(self).bg_shifter_pattern_lo << 1u16
                &&& final(self).bg_shifter_pattern_hi == old(self).bg_shifter_pattern_hi << 1u16
                &&& final(self).bg_shifter_attrib_lo == old(self).bg_shifter_attrib_lo << 1u16
                &&& final(self).bg_shifter_attrib_hi == old(self).bg_shifter_attrib_hi << 1u16
            },
            !mask_render_background(old(self).mask) ==> {
                &&& final(self).bg_shifter_pattern_lo == old(self).bg_shifter_pattern_lo
                &&& final(self).bg_shifter_pattern_hi == old(self).bg_shifter_pattern_hi
                &&& final(self).bg_shifter_attrib_lo == old(self).bg_shifter_attrib_lo
                &&& final(self).bg_shifter_attrib_hi == old(self).bg_shifter_attrib_hi
            },
            forall|k: int| 0 <= k < 32 && k % 4 != 3 ==> final(self).sprite_scanline@[k] == old(self).sprite_scanline@[k],
            forall|i: int| 0 <= i < 8 ==> {
                let x = old(self).sprite_scanline@[4 * i + 3];
                #[trigger] final(self).sprite_scanline@[4 * i + 3] == if old(self).sprite_active(i) && x > 0 { (x - 1) as u8 } else { x }
            },
            forall|i: int| 0 <= i < 8 ==> {
                let x = old(self).sprite_scanline@[4 * i + 3];
                #[trigger] final(self).sprite_shifter_pattern_lo@[i] == if old(self).sprite_active(i) && x == 0 {
                    old(self).sprite_shifter_pattern_lo@[i] << 1u8
                } else {
                    old(self).sprite_shifter_pattern_lo@[i]
                }
            },
            forall|i: int| 0 <= i < 8 ==> {
                let x = old(self).sprite_scanline@[4 * i + 3];
                #[trigger] final(self).sprite_shifter_pattern_hi@[i] == if old(self).sprite_active(i) && x == 0 {
                    old(self).sprite_shifter_pattern_hi@[i] << 1u8
                } else {
                    old(self).sprite_shifter_pattern_hi@[i]
                }
            },
    {
        if self.mask & 0x10 != 0 && self.cycle >= 1 && self.cycle < 258 {
            let count = self.sprite_count;
            let mut i: u8 = 0;
            while i < count
                invariant
                    i <= count,
                    count == old(self).sprite_count,
                    self.wf(),
                    old(self).wf(),
                    (*self == Ppu {
                        sprite_scanline: self.sprite_scanline,
                        sprite_shifter_pattern_lo: self.sprite_shifter_pattern_lo,
                        sprite_shifter_pattern_hi: self.sprite_shifter_pattern_hi,
                        ..*old(self)
                    }),
                    mask_render_sprites(old(self).mask),
                    1 <= old(self).cycle < 258,
                    forall|k: int| 0 <= k < 32 && (k % 4 != 3 || k / 4 >= i) ==> self.sprite_scanline@[k] == old(self).sprite_scanline@[k],
                    forall|j: int| i <= j < 8 ==> self.sprite_shifter_pattern_lo@[j] == old(self).sprite_shifter_pattern_lo@[j],
                    forall|j: int| i <= j < 8 ==> self.sprite_shifter_pattern_hi@[j] == old(self).sprite_shifter_pattern_hi@[j],
                    forall|j: int| 0 <= j < i ==> {
                        let x = old(self).sprite_scanline@[4 * j + 3];
                        #[trigger] self.sprite_scanline@[4 * j + 3] == if x > 0 { (x - 1) as u8 } else { x }
                    },
                    forall|j: int| 0 <= j < i ==> {
                        let x = old(self).sprite_scanline@[4 * j + 3];
                        #[trigger] self.sprite_shifter_pattern_lo@[j] == if x == 0 {
                            old(self).sprite_shifter_pattern_lo@[j] << 1u8
                        } else {
                            old(self).sprite_shifter_pattern_lo@[j]
                        }
                    },
                    forall|j: int| 0 <= j < i ==> {
                        let x = old(self).sprite_scanline@[4 * j + 3];
                        #[trigger] self.sprite_shifter_pattern_hi@[j] == if x == 0 {
                            old(self).sprite_shifter_pattern_hi@[j] << 1u8
                        } else {
                            old(self).sprite_shifter_pattern_hi@[j]
                        }
                    },
                decreases count - i,
            {
                let k: usize = 4 * (i as usize) + 3;
                let x = self.sprite_scanline[k];
                if x > 0 {
                    self.sprite_scanline.set(k, x - 1);
                } else {
                    let lo = self.sprite_shifter_pattern_lo[i as usize];
                    let hi = self.sprite_shifter_pattern_hi[i as usize];
                    self.sprite_shifter_pattern_lo.set(i as usize, lo << 1u8);
                    self.sprite_shifter_pattern_hi.set(i as usize, hi << 1u8);
                }
                i += 1;
            }
        }
        if self.mask & 0x08 != 0 {
            self.bg_shifter_pattern_lo = self.bg_shifter_pattern_lo << 1u16;
            self.bg_shifter_pattern_hi = self.bg_shifter_pattern_hi << 1u16;
            self.bg_shifter_attrib_lo = self.bg_shifter_attrib_lo << 1u16;
            self.bg_shifter_attrib_hi = self.bg_shifter_attrib_hi << 1u16;
        }
    }

    /// Sprite evaluation for the line at `scan_line` (0 to 239): clears the
    /// line buffer and sprite shifters, then scans all 64 sprites in order
    /// and copies the first 8 that cover the line (8 or 16 pixels tall, by
    /// the control register) into the buffer. Sets the overflow status bit
    /// exactly when a ninth is found, and notes whether sprite 0 is among
    /// them.
    pub fn evaluate_sprites(&mut self)
        requires
            old(self).wf(),
            0 <= old(self).scan_line < 240,
        ensures
            final(self).wf(),
            final(self).same_timing(old(self)),
            ({
                let line = old(self).scan_line as int;
                let tall = ctrl_sprite_size(old(self).control);
                let found = line_sprites(old(self).oam@, 64, line, tall);
                &&& final(self).sprite_count as int == if found.len() < 8 { found.len() as int } else { 8 }
                &&& (final(self).status & STATUS_SPRITE_OVERFLOW != 0) == (found.len() > 8)
                &&& final(self).status & 0xDF == old(self).status & 0xDF
                &&& final(self).zero_hit_possible == sprite_on_line(old(self).oam@, 0, line, tall)
                &&& forall|j: int, k: int| 0 <= j < final(self).sprite_count && 0 <= k < 4
                    ==> #[trigger] final(self).sprite_scanline@[4 * j + k] == old(self).oam@[4 * found[j] + k]
                &&& forall|k: int| 4 * final(self).sprite_count <= k < 32 ==> #[trigger] final(self).sprite_scanline@[k] == 0xFF
            }),
            forall|i: int| 0 <= i < 8 ==> #[trigger] final(self).sprite_shifter_pattern_lo@[i] == 0,
            forall|i: int| 0 <= i < 8 ==> #[trigger] final(self).sprite_shifter_pattern_hi@[i] == 0,
            (*final(self) == Ppu {
                status: final(self).status,
                sprite_scanline: final(self).sprite_scanline,
                sprite_count: final(self).sprite_count,
                sprite_shifter_pattern_lo: final(self).sprite_shifter_pattern_lo,
                sprite_shifter_pattern_hi: final(self).sprite_shifter_pattern_hi,
                zero_hit_possible: final(self).zero_hit_possible,
                ..*old(self)
            }),
    {
        let ghost line = old(self).scan_line as int;
        let ghost tall = ctrl_sprite_size(old(self).control);
        let ghost oam = old(self).oam@;
        self.sprite_scanline = filled(32, 0xFF);
        self.sprite_shifter_pattern_lo = filled(8, 0);
        self.sprite_shifter_pattern_hi = filled(8, 0);
        self.sprite_count = 0;
        self.zero_hit_possible = false;
        let height: i32 = if self.control & 0x20 != 0 { 16 } else { 8 };
        let mut total: u8 = 0;
        let mut entry: usize = 0;
        while entry < 64
            invariant
                entry <= 64,
                self.wf(),
                self.oam@ == oam,
                line == self.scan_line,
                0 <= line < 240,
                tall == ctrl_sprite_size(self.control),
                height == (if tall { 16int } else { 8int }),
                (*self == Ppu {
                    sprite_scanline: self.sprite_scanline,
                    sprite_count: self.sprite_count,
                    sprite_shifter_pattern_lo: self.sprite_shifter_pattern_lo,
                    sprite_shifter_pattern_hi: self.sprite_shifter_pattern_hi,
                    zero_hit_possible: self.zero_hit_possible,
                    ..*old(self)
                }),
                total as int == line_sprites(oam, entry as int, line, tall).len(),
                total <= entry,
                self.sprite_count as int == if total < 8 { total as int } else { 8 },
                self.zero_hit_possible == (entry > 0 && sprite_on_line(oam, 0, line, tall)),
                forall|j: int, k: int| 0 <= j < self.sprite_count && 0 <= k < 4
                    ==> #[trigger] self.sprite_scanline@[4 * j + k] == oam[4 * line_sprites(oam, entry as int, line, tall)[j] + k],
                forall|k: int| 4 * self.sprite_count <= k < 32 ==> #[trigger] self.sprite_scanline@[k] == 0xFF,
                forall|i: int| 0 <= i < 8 ==> #[trigger] self.sprite_shifter_pattern_lo@[i] == 0,
                forall|i: int| 0 <= i < 8 ==> #[trigger] self.sprite_shifter_pattern_hi@[i] == 0,
            decreases 64 - entry,
        {
            proof {
                lemma_line_sprites_bounds(oam, entry as int, line, tall);
            }
            let diff: i32 = (self.scan_line as i32) - (self.oam[4 * entry] as i32);
            if diff >= 0 && diff < height {
                if self.sprite_count < 8 {
                    if entry == 0 {
                        self.zero_hit_possible = true;
                    }
                    let base: usize = 4 * (self.sprite_count as usize);
                    let y = self.oam[4 * entry];
                    let id = self.oam[4 * entry + 1];
                    let attr = self.oam[4 * entry + 2];
                    let x = self.oam[4 * entry + 3];
                    self.sprite_scanline.set(base, y);
                    self.sprite_scanline.set(base + 1, id);
                    self.sprite_scanline.set(base + 2, attr);
                    self.sprite_scanline.set(base + 3, x);
                    self.sprite_count = self.sprite_count + 1;
                }
                total = total + 1;
            }
            entry += 1;
            proof {
                let prev = line_sprites(oam, entry - 1, line, tall);
                let cur = line_sprites(oam, entry as int, line, tall);
                if sprite_on_line(oam, entry - 1, line, tall) {
                    assert(cur == prev.push(entry - 1));
                } else {
                    assert(cur == prev);
                }
                assert forall|j: int, k: int| 0 <= j < self.sprite_count && 0 <= k < 4
                    implies #[trigger] self.sprite_scanline@[4 * j + k] == oam[4 * cur[j] + k] by {
                    assert(cur[j] == prev[j] || j == prev.len());
                }
            }
        }
        if total > 8 {
            self.status = self.status | 0x20;
        } else {
            self.status = self.status & 0xDF;
        }
        proof {
            let st = old(self).status;
            assert((st | 0x20) & 0x20 != 0 && (st | 0x20) & 0xDF == st & 0xDF && (st | 0x20) & 0x80 == st & 0x80) by (bit_vector);
            assert((st & 0xDF) & 0x20 == 0 && (st & 0xDF) & 0xDF == st & 0xDF && (st & 0xDF) & 0x80 == st & 0x80) by (bit_vector);
        }
    }

    /// At the end of a line: for each sprite chosen for it, reads its two
    /// pattern bytes for the row that the line shows and loads them into
    /// its shifters, bit-reversed for horizontally flipped sprites.
    pub fn load_sprite_patterns(&mut self, cart: &Cartridge)
        requires
            old(self).wf(),
        ensures
            final(self).wf(),
            (*final(self) == Ppu {
                sprite_shifter_pattern_lo: final(self).sprite_shifter_pattern_lo,
                sprite_shifter_pattern_hi: final(self).sprite_shifter_pattern_hi,
                ..*old(self)
            }),
            forall|i: int| 0 <= i < 8 ==> {
                let sl = old(self).sprite_scanline@;
                let addr = sprite_row_addr(old(self).control, old(self).scan_line, sl[4 * i], sl[4 * i + 1], sl[4 * i + 2]);
                let raw = old(self).mem_read(cart, addr);
                if i < old(self).sprite_count {
                    if sl[4 * i + 2] & 0x40 != 0 {
                        reversed_bits(#[trigger] final(self).sprite_shifter_pattern_lo@[i], raw)
                    } else {
                        final(self).sprite_shifter_pattern_lo@[i] == raw
                    }
                } else {
                    final(self).sprite_shifter_pattern_lo@[i] == old(self).sprite_shifter_pattern_lo@[i]
                }
            },
            forall|i: int| 0 <= i < 8 ==> {
                let sl = old(self).sprite_scanline@;
                let addr = sprite_row_addr(old(self).control, old(self).scan_line, sl[4 * i], sl[4 * i + 1], sl[4 * i + 2]);
                let raw = old(self).mem_read(cart, addr.wrapping_add(8));
                if i < old(self).sprite_count {
                    if sl[4 * i + 2] & 0x40 != 0 {
                        reversed_bits(#[trigger] final(self).sprite_shifter_pattern_hi@[i], raw)
                    } else {
                        final(self).sprite_shifter_pattern_hi@[i] == raw
                    }
                } else {
                    final(self).sprite_shifter_pattern_hi@[i] == old(self).sprite_shifter_pattern_hi@[i]
                }
            },
    {
        let count = self.sprite_count;
        let mut i: u8 = 0;
        while i < count
            invariant
                i <= count,
                count == old(self).sprite_count,
                self.wf(),
                (*self == Ppu {
                    sprite_shifter_pattern_lo: self.sprite_shifter_pattern_lo,
                    sprite_shifter_pattern_hi: self.sprite_shifter_pattern_hi,
                    ..*old(self)
                }),
                forall|j: int| 0 <= j < 8 ==> {
                    let sl = old(self).sprite_scanline@;
                    let addr = sprite_row_addr(old(self).control, old(self).scan_line, sl[4 * j], sl[4 * j + 1], sl[4 * j + 2]);
                    let raw = old(self).mem_read(cart, addr);
                    if j < i {
                        if sl[4 * j + 2] & 0x40 != 0 {
                            reversed_bits(#[trigger] self.sprite_shifter_pattern_lo@[j], raw)
                        } else {
                            self.sprite_shifter_pattern_lo@[j] == raw
                        }
                    } else {
                        self.sprite_shifter_pattern_lo@[j] == old(self).sprite_shifter_pattern_lo@[j]
                    }
                },
                forall|j: int| 0 <= j < 8 ==> {
                    let sl = old(self).sprite_scanline@;
                    let addr = sprite_row_addr(old(self).control, old(self).scan_line, sl[4 * j], sl[4 * j + 1], sl[4 * j + 2]);
                    let raw = old(self).mem_read(cart, addr.wrapping_add(8));
                    if j < i {
                        if sl[4 * j + 2] & 0x40 != 0 {
                            reversed_bits(#[trigger] self.sprite_shifter_pattern_hi@[j], raw)
                        } else {
                            self.sprite_shifter_pattern_hi@[j] == raw
                        }
                    } else {
                        self.sprite_shifter_pattern_hi@[j] == old(self).sprite_shifter_pattern_hi@[j]
                    }
                },
            decreases count - i,
        {
            let k: usize = 4 * (i as usize);
            let y = self.sprite_scanline[k];
            let id = self.sprite_scanline[k + 1];
            let attr = self.sprite_scanline[k + 2];
            let addr_lo = sprite_row_address(self.control, self.scan_line, y, id, attr);
            let addr_hi = addr_lo.wrapping_add(8);
            let mut bits_lo = self.ppu_read(addr_lo, cart);
            let mut bits_hi = self.ppu_read(addr_hi, cart);
            if attr & 0x40 != 0 {
                bits_lo = flip_byte(bits_lo);
                bits_hi = flip_byte(bits_hi);
            }
            self.sprite_shifter_pattern_lo.set(i as usize, bits_lo);
            self.sprite_shifter_pattern_hi.set(i as usize, bits_hi);
            i += 1;
        }
    }

    /// The sprite, from index `i` of the line buffer on, that shows a pixel
    /// now: the first whose x has counted down to zero and whose pixel is
    /// not transparent.
    pub open spec fn front_sprite(&self, i: int) -> Option<int> {
        front_sprite_of(self.sprite_count, self.sprite_scanline@, self.sprite_shifter_pattern_lo@,
            self.sprite_shifter_pattern_hi@, i)
    }

    /// The background pixel and palette that the shifters show now.
    pub open spec fn bg_now(&self) -> (u8, u8) {
        if mask_render_background(self.mask) {
            let mux = 0x8000u16 >> (self.fine_x & 7) as u16;
            (pair_bits16(self.bg_shifter_pattern_lo, self.bg_shifter_pattern_hi, mux),
             pair_bits16(self.bg_shifter_attrib_lo, self.bg_shifter_attrib_hi, mux))
        } else {
            (0, 0)
        }
    }

    /// The sprite pixel, palette and priority that show now.
    pub open spec fn fg_now(&self) -> (u8, u8, bool) {
        if mask_render_sprites(self.mask) {
            match self.front_sprite(0) {
                Some(i) => (
                    sprite_pixel(self.sprite_shifter_pattern_lo@[i], self.sprite_shifter_pattern_hi@[i]),
                    ((self.sprite_scanline@[4 * i + 2] & 0x03) + 4) as u8,
                    self.sprite_scanline@[4 * i + 2] & 0x20 == 0,
                ),
                None => (0, 0, false),
            }
        } else {
            (0, 0, false)
        }
    }

    /// The colour index of palette `palette`, entry `pixel`.
    pub open spec fn pal_position(&self, cart: &Cartridge, palette: u8, pixel: u8) -> u8 {
        self.mem_read(cart, (0x3F00 + (palette as u16) * 4 + pixel) as u16) & 0x3F
    }

    /// The colour index that palette memory gives entry `pixel` of
    /// palette `palette`.
    pub fn get_pal_position(&self, palette: u8, pixel: u8, cart: &Cartridge) -> (r: usize)
        requires
            self.wf(),
        ensures
            r == self.pal_position(cart, palette, pixel),
    {
        let a: u16 = 0x3F00 + (palette as u16) * 4 + (pixel as u16);
        let i = self.ppu_read(a, cart);
        (i & 0x3F) as usize
    }

    /// The background pixel and palette under the raster.
    pub fn background_pixel(&self) -> (r: (u8, u8))
        ensures
            r == self.bg_now(),
    {
        if self.mask & 0x08 != 0 {
            let fx = self.fine_x;
            assert((fx & 7) < 8) by (bit_vector);
            let mux: u16 = 0x8000u16 >> (self.fine_x & 7) as u16;
            let pixel = (if self.bg_shifter_pattern_hi & mux != 0 { 2u8 } else { 0u8 })
                | (if self.bg_shifter_pattern_lo & mux != 0 { 1u8 } else { 0u8 });
            let palette = (if self.bg_shifter_attrib_hi & mux != 0 { 2u8 } else { 0u8 })
                | (if self.bg_shifter_attrib_lo & mux != 0 { 1u8 } else { 0u8 });
            (pixel, palette)
        } else {
            (0, 0)
        }
    }

    /// The sprite pixel, palette and priority under the raster, from the
    /// front sprite; notes whether that is sprite 0 of the line buffer.
    pub fn foreground_pixel(&mut self) -> (r: (u8, u8, bool))
        requires
            old(self).wf(),
        ensures
            final(self).wf(),
            r == old(self).fg_now(),
            final(self).zero_sprite_rendered == if mask_render_sprites(old(self).mask) {
                old(self).front_sprite(0) == Some(0int)
            } else {
                old(self).zero_sprite_rendered
            },
            (*final(self) == Ppu { zero_sprite_rendered: final(self).zero_sprite_rendered, ..*old(self) }),
    {
        let mut fg_pixel: u8 = 0;
        let mut fg_palette: u8 = 0;
        let mut priority: bool = false;
        if self.mask & 0x10 != 0 {
            self.zero_sprite_rendered = false;
            let count = self.sprite_count;
            let mut i: u8 = 0;
            let mut found = false;
            while i < count && !found
                invariant
                    i <= count,
                    count == self.sprite_count,
                    self.wf(),
                    (*self == Ppu { zero_sprite_rendered: self.zero_sprite_rendered, ..*old(self) }),
                    !found ==> self.front_sprite(0) == self.front_sprite(i as int),
                    !found ==> fg_pixel == 0 && !self.zero_sprite_rendered,
                    found ==> i > 0 && self.front_sprite(0) == Some((i - 1) as int) && (fg_pixel, fg_palette, priority) == self.fg_now()
                        && fg_pixel != 0 && self.zero_sprite_rendered == (i == 1),
                    mask_render_sprites(self.mask),
                decreases count - i,
            {
                let k: usize = 4 * (i as usize);
                if self.sprite_scanline[k + 3] == 0 {
                    let lo = self.sprite_shifter_pattern_lo[i as usize];
                    let hi = self.sprite_shifter_pattern_hi[i as usize];
                    let attr = self.sprite_scanline[k + 2];
                    fg_pixel = (if hi & 0x80 != 0 { 2u8 } else { 0u8 }) | (if lo & 0x80 != 0 { 1u8 } else { 0u8 });
                    assert((attr & 0x03) + 4 <= 255) by (bit_vector);
                    fg_palette = (attr & 0x03) + 4;
                    priority = attr & 0x20 == 0;
                    if fg_pixel != 0 {
                        if i == 0 {
                            self.zero_sprite_rendered = true;
                        }
                        found = true;
                    }
                }
                if !found {
                    fg_pixel = 0;
                }
                i += 1;
            }
            if !found {
                fg_palette = 0;
                priority = false;
            }
        }
        (fg_pixel, fg_palette, priority)
    }

    /// Composes the pixel under the raster: background against the front
    /// sprite, flags a sprite-zero hit, and writes the resolved colour
    /// index into the frame at (cycle - 1, scan line) when that is on screen.
    pub fn render_pixel(&mut self, cart: &Cartridge)
        requires
            old(self).wf(),
        ensures
            final(self).wf(),
            final(self).same_timing(old(self)),
            ({
                let (bg_pixel, bg_palette) = old(self).bg_now();
                let (fg_pixel, fg_palette, fg_priority) = old(self).fg_now();
                let (pixel, palette) = composite_spec(bg_pixel, bg_palette, fg_pixel, fg_palette, fg_priority);
                let zero = if mask_render_sprites(old(self).mask) {
                    old(self).front_sprite(0) == Some(0int)
                } else {
                    old(self).zero_sprite_rendered
                };
                let hit = bg_pixel != 0 && fg_pixel != 0 && old(self).zero_hit_possible && zero
                    && mask_render_background(old(self).mask) && mask_render_sprites(old(self).mask)
                    && hit_window(old(self).mask, old(self).cycle);
                let x = old(self).cycle - 1;
                let y = old(self).scan_line as int;
                &&& final(self).zero_sprite_rendered == zero
                &&& final(self).status == if hit { old(self).status | STATUS_SPRITE_ZERO_HIT } else { old(self).status }
                &&& final(self).status & STATUS_SPRITE_OVERFLOW == old(self).status & STATUS_SPRITE_OVERFLOW
                &&& final(self).pal_positions@ == if 0 <= x < 256 && 0 <= y < 240 {
                    old(self).pal_positions@.update(y * 256 + x, old(self).pal_position(cart, palette, pixel))
                } else {
                    old(self).pal_positions@
                }
            }),
            (*final(self) == Ppu {
                zero_sprite_rendered: final(self).zero_sprite_rendered,
                status: final(self).status,
                pal_positions: final(self).pal_positions,
                ..*old(self)
            }),
    {
        let (bg_pixel, bg_palette) = self.background_pixel();
        let (fg_pixel, fg_palette, priority) = self.foreground_pixel();
        let (pixel, palette) = composite(bg_pixel, bg_palette, fg_pixel, fg_palette, priority);
        if bg_pixel != 0 && fg_pixel != 0 && self.zero_hit_possible && self.zero_sprite_rendered
            && self.mask & 0x08 != 0 && self.mask & 0x10 != 0 {
            let window = if !(self.mask & 0x02 != 0 && self.mask & 0x04 != 0) {
                self.cycle >= 9 && self.cycle < 258
            } else {
                self.cycle >= 1 && self.cycle < 258
            };
            if window {
                self.status = self.status | 0x40;
            }
        }
        proof {
            let st = old(self).status;
            assert((st | 0x40) & 0x80 == st & 0x80 && (st | 0x40) & 0x20 == st & 0x20) by (bit_vector);
        }
        let x: i16 = self.cycle - 1;
        let y: i16 = self.scan_line;
        if x >= 0 && x < 256 && y >= 0 && y < 240 {
            let c = self.get_pal_position(palette, pixel, cart);
            let idx: usize = (y as usize) * 256 + (x as usize);
            self.pal_positions.set(idx, c as u8);
        }
    }

    /// One step of the background fetch cycle, chosen by (cycle - 1) mod 8:
    /// 0 loads the shifters and fetches the next tile id, 2 its palette
    /// bits, 4 and 6 the low and high pattern bytes, 7 moves one tile right.
    pub fn background_phase(&mut self, cart: &Cartridge)
        requires
            old(self).wf(),
            1 <= old(self).cycle,
        ensures
            final(self).wf(),
            ({
                let v = old(self).vram_addr;
                let phase = (old(self).cycle - 1) % 8;
                if phase == 0 {
                    *final(self) == Ppu {
                        bg_next_tile_id: old(self).mem_read(cart, tile_addr(v)),
                        ..old(self).with_background_loaded()
                    }
                } else if phase == 2 {
                    *final(self) == Ppu {
                        bg_next_tile_attrib: attr_select(old(self).mem_read(cart, attr_addr(v)), v),
                        ..*old(self)
                    }
                } else if phase == 4 {
                    *final(self) == Ppu {
                        bg_next_tile_lsb: old(self).mem_read(cart, bg_pattern_addr(old(self).control, old(self).bg_next_tile_id, v)),
                        ..*old(self)
                    }
                } else if phase == 6 {
                    *final(self) == Ppu {
                        bg_next_tile_msb: old(self).mem_read(
                            cart,
                            (bg_pattern_addr(old(self).control, old(self).bg_next_tile_id, v) + 8) as u16,
                        ),
                        ..*old(self)
                    }
                } else if phase == 7 && rendering(old(self).mask) {
                    *final(self) == Ppu { vram_addr: coarse_x_incremented(v), ..*old(self) }
                } else {
                    *final(self) == *old(self)
                }
            }),
    {
        let phase = (self.cycle - 1) % 8;
        let v = self.vram_addr;
        if phase == 0 {
            self.load_background_shifters();
            self.bg_next_tile_id = self.ppu_read(0x2000 | (v & 0x0FFF), cart);
        } else if phase == 2 {
            let a: u16 = 0x23C0 | (((v >> 11u16) & 1) << 11u16) | (((v >> 10u16) & 1) << 10u16)
                | ((((v >> 5u16) & 0x001F) >> 2u16) << 3u16) | ((v & 0x001F) >> 2u16);
            let b = self.ppu_read(a, cart);
            let b1 = if ((v >> 5u16) & 0x001F) & 0x02 != 0 { b >> 4u8 } else { b };
            let b2 = if (v & 0x001F) & 0x02 != 0 { b1 >> 2u8 } else { b1 };
            self.bg_next_tile_attrib = b2 & 0x03;
        } else if phase == 4 || phase == 6 {
            let id = self.bg_next_tile_id;
            let pb: u16 = if self.control & 0x10 != 0 { 1u16 } else { 0u16 };
            assert(pb << 12u16 <= 0x1000 && (id as u16) << 4u16 <= 0x0FF0 && (v >> 12u16) & 0x0007 <= 7) by (bit_vector)
                requires
                    pb <= 1,
            ;
            let a: u16 = (pb << 12u16) + ((id as u16) << 4u16) + ((v >> 12u16) & 0x0007);
            if phase == 4 {
                self.bg_next_tile_lsb = self.ppu_read(a, cart);
            } else {
                self.bg_next_tile_msb = self.ppu_read(a + 8, cart);
            }
        } else if phase == 7 {
            self.increment_scroll_x();
        }
    }

    /// Whether this cycle shifts and fetches for the background.
    pub open spec fn fetch_cycle(&self) -> bool {
        (2 <= self.cycle < 258) || (321 <= self.cycle < 338)
    }

    /// The background shifters (pattern low, high, attribute low, high)
    /// as the pixel of this cycle sees them: shifted on fetch cycles while
    /// background rendering is on, then reloaded in their low halves on
    /// the first cycle of each fetch group.
    pub open spec fn bg_shifters_at_pixel(&self) -> (u16, u16, u16, u16) {
        let shift = self.fetch_cycle() && mask_render_background(self.mask);
        let pl = if shift { self.bg_shifter_pattern_lo << 1u16 } else { self.bg_shifter_pattern_lo };
        let ph = if shift { self.bg_shifter_pattern_hi << 1u16 } else { self.bg_shifter_pattern_hi };
        let al = if shift { self.bg_shifter_attrib_lo << 1u16 } else { self.bg_shifter_attrib_lo };
        let ah = if shift { self.bg_shifter_attrib_hi << 1u16 } else { self.bg_shifter_attrib_hi };
        if self.fetch_cycle() && (self.cycle - 1) % 8 == 0 {
            ((pl & 0xFF00) | (self.bg_next_tile_lsb as u16),
             (ph & 0xFF00) | (self.bg_next_tile_msb as u16),
             (al & 0xFF00) | (if self.bg_next_tile_attrib & 0x01 != 0 { 0x00FFu16 } else { 0u16 }),
             (ah & 0xFF00) | (if self.bg_next_tile_attrib & 0x02 != 0 { 0x00FFu16 } else { 0u16 }))
        } else {
            (pl, ph, al, ah)
        }
    }

    /// The line buffer as the pixel of this cycle sees it: on fetch cycles
    /// each active sprite's x counts down while above zero.
    pub open spec fn sprite_line_at_pixel(&self) -> Seq<u8> {
        Seq::new(32, |k: int| {
            let x = self.sprite_scanline@[k];
            if self.fetch_cycle() && k % 4 == 3 && self.sprite_active(k / 4) && x > 0 { (x - 1) as u8 } else { x }
        })
    }

    /// A sprite pattern shifter as the pixel of this cycle sees it: on
    /// fetch cycles an active sprite whose x is zero shifts by one pixel.
    pub open spec fn sprite_bits_at_pixel(&self, bits: Seq<u8>) -> Seq<u8> {
        Seq::new(8, |i: int| {
            if self.fetch_cycle() && self.sprite_active(i) && self.sprite_scanline@[4 * i + 3] == 0 {
                bits[i] << 1u8
            } else {
                bits[i]
            }
        })
    }

    /// The pixel and palette composed on this cycle (see `composite_spec`),
    /// from the background and the front sprite after this cycle's shifts.
    pub open spec fn pixel_at(&self) -> (u8, u8) {
        let (pl, ph, al, ah) = self.bg_shifters_at_pixel();
        let mux = 0x8000u16 >> (self.fine_x & 7) as u16;
        let (bg, bgp) = if mask_render_background(self.mask) {
            (pair_bits16(pl, ph, mux), pair_bits16(al, ah, mux))
        } else {
            (0u8, 0u8)
        };
        let line = self.sprite_line_at_pixel();
        let lo = self.sprite_bits_at_pixel(self.sprite_shifter_pattern_lo@);
        let hi = self.sprite_bits_at_pixel(self.sprite_shifter_pattern_hi@);
        let (fg, fgp, prio) = if mask_render_sprites(self.mask) {
            match front_sprite_of(self.sprite_count, line, lo, hi, 0) {
                Some(i) => (sprite_pixel(lo[i], hi[i]), ((line[4 * i + 2] & 0x03) + 4) as u8, line[4 * i + 2] & 0x20 == 0),
                None => (0u8, 0u8, false),
            }
        } else {
            (0u8, 0u8, false)
        };
        composite_spec(bg, bgp, fg, fgp, prio)
    }

    /// The shifts and background fetch of a fetch cycle; on other cycles
    /// nothing. Afterwards the unit shows the pixel that `pixel_at` names.
    pub fn shift_and_fetch(&mut self, cart: &Cartridge)
        requires
            old(self).wf(),
            old(self).cycle >= 1,
        ensures
            final(self).wf(),
            (*final(self) == Ppu {
                bg_shifter_pattern_lo: final(self).bg_shifter_pattern_lo,
                bg_shifter_pattern_hi: final(self).bg_shifter_pattern_hi,
                bg_shifter_attrib_lo: final(self).bg_shifter_attrib_lo,
                bg_shifter_attrib_hi: final(self).bg_shifter_attrib_hi,
                sprite_scanline: final(self).sprite_scanline,
                sprite_shifter_pattern_lo: final(self).sprite_shifter_pattern_lo,
                sprite_shifter_pattern_hi: final(self).sprite_shifter_pattern_hi,
                bg_next_tile_id: final(self).bg_next_tile_id,
                bg_next_tile_attrib: final(self).bg_next_tile_attrib,
                bg_next_tile_lsb: final(self).bg_next_tile_lsb,
                bg_next_tile_msb: final(self).bg_next_tile_msb,
                vram_addr: final(self).vram_addr,
                ..*old(self)
            }),
            composite_spec(final(self).bg_now().0, final(self).bg_now().1, final(self).fg_now().0,
                final(self).fg_now().1, final(self).fg_now().2) == old(self).pixel_at(),
    {
        let ghost p0 = *self;
        if (self.cycle >= 2 && self.cycle < 258) || (self.cycle >= 321 && self.cycle < 338) {
            self.update_shifters();
            let ghost p1 = *self;
            proof {
                assert forall|k: int| 0 <= k < 32 implies #[trigger] p1.sprite_scanline@[k] == p0.sprite_line_at_pixel()[k] by {
                    if k % 4 == 3 {
                        let i = k / 4;
                        assert(4 * i + 3 == k);
                        assert(p1.sprite_scanline@[4 * i + 3] == p0.sprite_line_at_pixel()[4 * i + 3]);
                    }
                }
                assert(p1.sprite_scanline@ =~= p0.sprite_line_at_pixel());
                assert(p1.sprite_shifter_pattern_lo@ =~= p0.sprite_bits_at_pixel(p0.sprite_shifter_pattern_lo@));
                assert(p1.sprite_shifter_pattern_hi@ =~= p0.sprite_bits_at_pixel(p0.sprite_shifter_pattern_hi@));
            }
            self.background_phase(cart);
        } else {
            proof {
                assert(p0.sprite_scanline@ =~= p0.sprite_line_at_pixel());
                assert(p0.sprite_shifter_pattern_lo@ =~= p0.sprite_bits_at_pixel(p0.sprite_shifter_pattern_lo@));
                assert(p0.sprite_shifter_pattern_hi@ =~= p0.sprite_bits_at_pixel(p0.sprite_shifter_pattern_hi@));
            }
        }
    }

    /// Advances the unit by one cycle: background fetches and scroll
    /// updates on the visible and pre-render lines, sprite evaluation at
    /// cycle 257 and sprite pattern loads at cycle 340 of visible lines,
    /// vertical blank (and the interrupt, when enabled) at line 241 cycle 1,
    /// one pixel composed, and the raster moved on. Returns the count of
    /// cycles run.
    #[verifier::rlimit(50)]
    pub fn clock(&mut self, cart: &Cartridge) -> (r: u64)
        requires
            old(self).wf(),
        ensures
            final(self).wf(),
            (final(self).scan_line, final(self).cycle) == next_position(old(self).scan_line, old(self).cycle),
            final(self).frame_complete == (old(self).frame_complete || (old(self).scan_line == 260 && old(self).cycle == 340)),
            final(self).nmi == (old(self).nmi || (old(self).scan_line == 241 && old(self).cycle == 1
                && ctrl_enable_nmi(old(self).control))),
            old(self).scan_line == 241 && old(self).cycle == 1 ==> final(self).status & STATUS_VERTICAL_BLANK != 0,
            old(self).scan_line == -1 && old(self).cycle == 1 ==> final(self).status & STATUS_VERTICAL_BLANK == 0,
            final(self).control == old(self).control,
            final(self).mask == old(self).mask,
            final(self).counter == old(self).counter.wrapping_add(1),
            r == final(self).counter,
            final(self).oam == old(self).oam,
            old(self).cycle == 257 && 0 <= old(self).scan_line < 240 ==> ({
                let line = old(self).scan_line as int;
                let tall = ctrl_sprite_size(old(self).control);
                let found = line_sprites(old(self).oam@, 64, line, tall);
                &&& final(self).sprite_count as int == if found.len() < 8 { found.len() as int } else { 8 }
                &&& (final(self).status & STATUS_SPRITE_OVERFLOW != 0) == (found.len() > 8)
                &&& final(self).zero_hit_possible == sprite_on_line(old(self).oam@, 0, line, tall)
                &&& forall|j: int, k: int| 0 <= j < final(self).sprite_count && 0 <= k < 4
                    ==> #[trigger] final(self).sprite_scanline@[4 * j + k] == old(self).oam@[4 * found[j] + k]
                &&& forall|k: int| 4 * final(self).sprite_count <= k < 32 ==> #[trigger] final(self).sprite_scanline@[k] == 0xFF
                &&& forall|i: int| 0 <= i < 8 ==> #[trigger] final(self).sprite_shifter_pattern_lo@[i] == 0
                &&& forall|i: int| 0 <= i < 8 ==> #[trigger] final(self).sprite_shifter_pattern_hi@[i] == 0
            }),
            1 <= old(self).cycle <= 256 && 0 <= old(self).scan_line < 240 ==> ({
                let (pixel, palette) = old(self).pixel_at();
                final(self).pal_positions@ == old(self).pal_positions@.update(
                    old(self).scan_line * 256 + old(self).cycle - 1,
                    old(self).pal_position(cart, palette, pixel),
                )
            }),
    {
        let sl = self.scan_line;
        if sl >= -1 && sl < 240 {
            let cy = self.cycle;
            if sl == -1 && cy == 1 {
                let st = self.status;
                assert((st & 0x1F) & 0x80 == 0) by (bit_vector);
                self.status = st & 0x1F;
                self.sprite_shifter_pattern_lo = filled(8, 0);
                self.sprite_shifter_pattern_hi = filled(8, 0);
            }
            if cy >= 1 {
                self.shift_and_fetch(cart);
            }
            if cy == 256 {
                self.increment_scroll_y();
            }
            if cy == 257 {
                self.load_background_shifters();
                self.transfer_address_x();
            }
            if cy == 338 || cy == 340 {
                self.bg_next_tile_id = self.ppu_read(0x2000 | (self.vram_addr & 0x0FFF), cart);
            }
            if sl == -1 && cy >= 280 && cy < 305 {
                self.transfer_address_y();
            }
            if cy == 257 && sl >= 0 {
                self.evaluate_sprites();
            }
            if cy == 340 {
                self.load_sprite_patterns(cart);
            }
        }
        if sl == 241 && self.cycle == 1 {
            let st = self.status;
            assert((st | 0x80) & 0x80 != 0) by (bit_vector);
            self.status = st | 0x80;
            if self.control & 0x80 != 0 {
                self.nmi = true;
            }
        }
        self.render_pixel(cart);
        self.cycle = self.cycle + 1;
        if self.cycle >= 341 {
            self.cycle = 0;
            self.scan_line = self.scan_line + 1;
            if self.scan_line >= 261 {
                self.scan_line = -1;
                self.frame_complete = true;
            }
        }
        self.counter = self.counter.wrapping_add(1);
        self.counter
    }

    /// Returns the registers, scroll state and raster to their power-on
    /// values (line 0, cycle 0); memories are kept.
    pub fn reset(&mut self)
        requires
            old(self).wf(),
        ensures
            final(self).wf(),
            (*final(self) == Ppu {
                fine_x: 0,
                address_latch: 0,
                ppu_data_buffer: 0,
                scan_line: 0,
                cycle: 0,
                bg_next_tile_id: 0,
                bg_next_tile_attrib: 0,
                bg_next_tile_lsb: 0,
                bg_next_tile_msb: 0,
                bg_shifter_pattern_lo: 0,
                bg_shifter_pattern_hi: 0,
                bg_shifter_attrib_lo: 0,
                bg_shifter_attrib_hi: 0,
                status: 0,
                mask: 0,
                control: 0,
                vram_addr: 0,
                tram_addr: 0,
                ..*old(self)
            }),
    {
        self.fine_x = 0;
        self.address_latch = 0;
        self.ppu_data_buffer = 0;
        self.scan_line = 0;
        self.cycle = 0;
        self.bg_next_tile_id = 0;
        self.bg_next_tile_attrib = 0;
        self.bg_next_tile_lsb = 0;
        self.bg_next_tile_msb = 0;
        self.bg_shifter_pattern_lo = 0;
        self.bg_shifter_pattern_hi = 0;
        self.bg_shifter_attrib_lo = 0;
        self.bg_shifter_attrib_hi = 0;
        self.status = 0;
        self.mask = 0;
        self.control = 0;
        self.vram_addr = 0;
        self.tram_addr = 0;
    }
}

} // verus!
