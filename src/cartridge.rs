//! Cartridge images in the iNES layout and the fixed-bank mapper.
use vstd::prelude::*;

verus! {

/// Size of one program bank, in bytes.
pub const PRG_BANK_SIZE: usize = 16384;

/// Size of one character (pattern) bank, in bytes.
pub const CHR_BANK_SIZE: usize = 8192;

/// Size of the fixed header at the start of an image.
pub const HEADER_SIZE: usize = 16;

/// Size of the optional trainer block that follows the header.
pub const TRAINER_SIZE: usize = 512;

/// How the four logical name tables fold onto the two physical ones.
#[derive(PartialEq, Eq, Structural, Clone, Copy, Debug)]
pub enum Mirror {
    HORIZONTAL,
    VERTICAL,
}

impl Default for Mirror {
    fn default() -> (r: Mirror)
        ensures
            r == Mirror::HORIZONTAL,
    {
        Mirror::HORIZONTAL
    }
}

/// Address translation of a cartridge: CPU addresses into program memory,
/// PPU addresses into character memory.
pub trait Mapper: Sized {
    /// The offset that a CPU address maps to, or `None` where the mapper
    /// does not claim the address.
    spec fn cpu_map(&self, addr: u16) -> Option<u32>;

    /// The offset that a PPU address maps to, or `None`.
    spec fn ppu_map(&self, addr: u16) -> Option<u32>;

    fn cpu_map_read(&self, addr: u16, mapped_addr: &mut u32) -> (r: bool)
        ensures
            r == self.cpu_map(addr).is_some(),
            r ==> *final(mapped_addr) == self.cpu_map(addr).unwrap(),
            !r ==> *final(mapped_addr) == *old(mapped_addr),
    ;

    fn cpu_map_write(&self, addr: u16, mapped_addr: &mut u32) -> (r: bool)
        ensures
            r == self.cpu_map(addr).is_some(),
            r ==> *final(mapped_addr) == self.cpu_map(addr).unwrap(),
            !r ==> *final(mapped_addr) == *old(mapped_addr),
    ;

    fn ppu_map_read(&self, addr: u16, mapped_addr: &mut u32) -> (r: bool)
        ensures
            r == self.ppu_map(addr).is_some(),
            r ==> *final(mapped_addr) == self.ppu_map(addr).unwrap(),
            !r ==> *final(mapped_addr) == *old(mapped_addr),
    ;

    fn ppu_map_write(&self, addr: u16, mapped_addr: &mut u32) -> (r: bool)
        ensures
            r == self.ppu_map(addr).is_some(),
            r ==> *final(mapped_addr) == self.ppu_map(addr).unwrap(),
            !r ==> *final(mapped_addr) == *old(mapped_addr),
    ;

    fn new(prg_banks: u8, chr_banks: u8) -> Self;
}

/// The fixed-bank mapper: program memory at 0x8000 and up, mirrored when
/// only one bank is present; character memory below 0x2000, unbanked.
#[derive(Clone, Copy, Debug, Default)]
pub struct Mapper000 {
    pub n_prg_banks: u8,
    pub n_chr_banks: u8,
}

/// Where the fixed-bank mapper sends a CPU address.
pub open spec fn nrom_cpu_map(n_prg_banks: u8, addr: u16) -> Option<u32> {
    if addr >= 0x8000 {
        if n_prg_banks > 1 {
            Some((addr & 0x7FFF) as u32)
        } else {
            Some((addr & 0x3FFF) as u32)
        }
    } else {
        None
    }
}

/// Where the fixed-bank mapper sends a PPU address.
pub open spec fn nrom_ppu_map(addr: u16) -> Option<u32> {
    if addr <= 0x1FFF {
        Some(addr as u32)
    } else {
        None
    }
}

impl Mapper for Mapper000 {
    open spec fn cpu_map(&self, addr: u16) -> Option<u32> {
        nrom_cpu_map(self.n_prg_banks, addr)
    }

    open spec fn ppu_map(&self, addr: u16) -> Option<u32> {
        nrom_ppu_map(addr)
    }

    fn new(prg_banks: u8, chr_banks: u8) -> (r: Mapper000)
        ensures
            r.n_prg_banks == prg_banks,
            r.n_chr_banks == chr_banks,
    {
        Mapper000 { n_prg_banks: prg_banks, n_chr_banks: chr_banks }
    }

    fn cpu_map_read(&self, addr: u16, mapped_addr: &mut u32) -> (r: bool) {
        if addr >= 0x8000 {
            if self.n_prg_banks > 1 {
                *mapped_addr = (addr & 0x7FFF) as u32;
            } else {
                *mapped_addr = (addr & 0x3FFF) as u32;
            }
            true
        } else {
            false
        }
    }

    fn cpu_map_write(&self, addr: u16, mapped_addr: &mut u32) -> (r: bool) {
        self.cpu_map_read(addr, mapped_addr)
    }

    fn ppu_map_read(&self, addr: u16, mapped_addr: &mut u32) -> (r: bool) {
        if addr <= 0x1FFF {
            *mapped_addr = addr as u32;
            true
        } else {
            false
        }
    }

    fn ppu_map_write(&self, addr: u16, mapped_addr: &mut u32) -> (r: bool) {
        self.ppu_map_read(addr, mapped_addr)
    }
}

/// Why an image could not be loaded.
#[derive(PartialEq, Eq, Structural, Clone, Copy, Debug)]
pub enum CartridgeError {
    /// The image ends before the header, or before the data it declares.
    Truncated,
    /// The first four bytes are not the format's magic.
    BadMagic,
    /// The header names a mapper that is not supported.
    UnsupportedMapper(u8),
}

/// A loaded image: program and character memory and the mapper over them.
pub struct Cartridge {
    pub v_prg_memory: Vec<u8>,
    pub v_chr_memory: Vec<u8>,
    pub p_mapper: Mapper000,
    pub mapper_id: u8,
    pub mirror: Mirror,
}

/// The image starts with the magic bytes "NES" and 0x1A.
pub open spec fn has_magic(rom: Seq<u8>) -> bool {
    rom.len() >= 4 && rom[0] == 0x4E && rom[1] == 0x45 && rom[2] == 0x53 && rom[3] == 0x1A
}

/// The mapper id, split over the high nibbles of header bytes 6 and 7.
pub open spec fn header_mapper_id(rom: Seq<u8>) -> u8 {
    ((rom[7] >> 4u8) << 4u8) | (rom[6] >> 4u8)
}

/// The mirroring that header byte 6 selects.
pub open spec fn header_mirror(rom: Seq<u8>) -> Mirror {
    if rom[6] & 0x01 != 0 { Mirror::VERTICAL } else { Mirror::HORIZONTAL }
}

/// Where program data starts: after the header and the trainer, if any.
pub open spec fn prg_start(rom: Seq<u8>) -> int {
    if rom[6] & 0x04 != 0 { HEADER_SIZE + TRAINER_SIZE } else { HEADER_SIZE as int }
}

/// Where character data starts.
pub open spec fn chr_start(rom: Seq<u8>) -> int {
    prg_start(rom) + rom[4] * PRG_BANK_SIZE
}

/// Where the data that the header declares ends.
pub open spec fn image_end(rom: Seq<u8>) -> int {
    chr_start(rom) + rom[5] * CHR_BANK_SIZE
}

/// The outcome of loading an image, as a function of its bytes.
pub open spec fn load_outcome(rom: Seq<u8>) -> Result<(), CartridgeError> {
    if rom.len() < HEADER_SIZE {
        Err(CartridgeError::Truncated)
    } else if !has_magic(rom) {
        Err(CartridgeError::BadMagic)
    } else if header_mapper_id(rom) != 0 {
        Err(CartridgeError::UnsupportedMapper(header_mapper_id(rom)))
    } else if rom.len() < image_end(rom) {
        Err(CartridgeError::Truncated)
    } else {
        Ok(())
    }
}

/// Copies `len` bytes of `rom` from `start` on.
fn copy_range(rom: &Vec<u8>, start: usize, len: usize) -> (r: Vec<u8>)
    requires
        start + len <= rom@.len(),
    ensures
        r@ == rom@.subrange(start as int, start + len),
{
    let mut r: Vec<u8> = Vec::with_capacity(len);
    let n: usize = rom.len();
    let mut i: usize = 0;
    while i < len
        invariant
            i <= len,
            n == rom@.len(),
            start + len <= rom@.len(),
            r@ == rom@.subrange(start as int, start + i),
        decreases len - i,
    {
        let k: usize = start + i;
        r.push(rom[k]);
        i += 1;
        assert(r@ =~= rom@.subrange(start as int, start + i));
    }
    r
}

impl Cartridge {
    /// Memory sizes agree with the bank counts of the mapper.
    pub open spec fn wf(&self) -> bool {
        &&& self.v_prg_memory@.len() == self.p_mapper.n_prg_banks * PRG_BANK_SIZE
        &&& self.v_chr_memory@.len() == self.p_mapper.n_chr_banks * CHR_BANK_SIZE
    }

    /// The byte that a CPU read of `addr` takes from the cartridge, if it
    /// claims the address.
    pub open spec fn cpu_peek(&self, addr: u16) -> Option<u8> {
        match self.p_mapper.cpu_map(addr) {
            Some(m) => if m < self.v_prg_memory@.len() {
                Some(self.v_prg_memory@[m as int])
            } else {
                None
            },
            None => None,
        }
    }

    /// The byte that a PPU read of `addr` takes from the cartridge, if it
    /// claims the address.
    pub open spec fn ppu_peek(&self, addr: u16) -> Option<u8> {
        match self.p_mapper.ppu_map(addr) {
            Some(m) => if m < self.v_chr_memory@.len() {
                Some(self.v_chr_memory@[m as int])
            } else {
                None
            },
            None => None,
        }
    }

    /// Parses an image. Fails on a short image, a wrong magic or a mapper
    /// other than the fixed-bank one; otherwise program and character
    /// memory are the declared banks, read after the header and trainer.
    pub fn new(rom: &Vec<u8>) -> (r: Result<Cartridge, CartridgeError>)
        ensures
            r.is_err() <==> load_outcome(rom@).is_err(),
            r.is_err() ==> r == Err::<Cartridge, CartridgeError>(load_outcome(rom@)->Err_0),
            r matches Ok(c) ==> {
                &&& c.wf()
                &&& c.mapper_id == 0
                &&& c.p_mapper.n_prg_banks == rom@[4]
                &&& c.p_mapper.n_chr_banks == rom@[5]
                &&& c.mirror == header_mirror(rom@)
                &&& c.v_prg_memory@ == rom@.subrange(prg_start(rom@), chr_start(rom@))
                &&& c.v_chr_memory@ == rom@.subrange(chr_start(rom@), image_end(rom@))
            },
    {
        if rom.len() < HEADER_SIZE {
            return Err(CartridgeError::Truncated);
        }
        if !(rom[0] == 0x4E && rom[1] == 0x45 && rom[2] == 0x53 && rom[3] == 0x1A) {
            return Err(CartridgeError::BadMagic);
        }
        let mapper1 = rom[6];
        let mapper2 = rom[7];
        let mapper_id: u8 = ((mapper2 >> 4u8) << 4u8) | (mapper1 >> 4u8);
        if mapper_id != 0 {
            return Err(CartridgeError::UnsupportedMapper(mapper_id));
        }
        let mirror = if mapper1 & 0x01 != 0 { Mirror::VERTICAL } else { Mirror::HORIZONTAL };
        let start: usize = if mapper1 & 0x04 != 0 { HEADER_SIZE + TRAINER_SIZE } else { HEADER_SIZE };
        let prg_banks = rom[4];
        let chr_banks = rom[5];
        let prg_len: usize = prg_banks as usize * PRG_BANK_SIZE;
        let chr_len: usize = chr_banks as usize * CHR_BANK_SIZE;
        if rom.len() < start || rom.len() - start < prg_len || rom.len() - start - prg_len < chr_len {
            return Err(CartridgeError::Truncated);
        }
        let v_prg_memory = copy_range(rom, start, prg_len);
        let v_chr_memory = copy_range(rom, start + prg_len, chr_len);
        Ok(Cartridge {
            v_prg_memory,
            v_chr_memory,
            p_mapper: Mapper000::new(prg_banks, chr_banks),
            mapper_id,
            mirror,
        })
    }

    /// A CPU read: the cartridge answers where its mapper claims the
    /// address and the offset lies in program memory.
    pub fn cpu_read(&self, addr: usize, data: &mut u8) -> (r: bool)
        ensures
            r == self.cpu_peek(addr as u16).is_some(),
            r ==> *final(data) == self.cpu_peek(addr as u16).unwrap(),
            !r ==> *final(data) == *old(data),
    {
        let mut mapped_addr: u32 = 0;
        if self.p_mapper.cpu_map_read(addr as u16, &mut mapped_addr) {
            if (mapped_addr as usize) < self.v_prg_memory.len() {
                *data = self.v_prg_memory[mapped_addr as usize];
                return true;
            }
        }
        false
    }

    /// A CPU write into program memory, where the mapper claims the address.
    pub fn cpu_write(&mut self, addr: usize, data: u8) -> (r: bool)
        ensures
            r == old(self).cpu_peek(addr as u16).is_some(),
            r ==> final(self).v_prg_memory@ == old(self).v_prg_memory@.update(
                old(self).p_mapper.cpu_map(addr as u16).unwrap() as int,
                data,
            ),
            !r ==> *final(self) == *old(self),
            final(self).v_chr_memory@ == old(self).v_chr_memory@,
            final(self).p_mapper == old(self).p_mapper,
            final(self).mapper_id == old(self).mapper_id,
            final(self).mirror == old(self).mirror,
    {
        let mut mapped_addr: u32 = 0;
        if self.p_mapper.cpu_map_write(addr as u16, &mut mapped_addr) {
            if (mapped_addr as usize) < self.v_prg_memory.len() {
                self.v_prg_memory.set(mapped_addr as usize, data);
                return true;
            }
        }
        false
    }

    /// A PPU read: the cartridge answers where its mapper claims the
    /// address and the offset lies in character memory.
    pub fn ppu_read(&self, addr: u16, data: &mut u8) -> (r: bool)
        ensures
            r == self.ppu_peek(addr).is_some(),
            r ==> *final(data) == self.ppu_peek(addr).unwrap(),
            !r ==> *final(data) == *old(data),
    {
        let mut mapped_addr: u32 = 0;
        if self.p_mapper.ppu_map_read(addr, &mut mapped_addr) {
            if (mapped_addr as usize) < self.v_chr_memory.len() {
                *data = self.v_chr_memory[mapped_addr as usize];
                return true;
            }
        }
        false
    }

    /// A PPU write into character memory, where the mapper claims the address.
    pub fn ppu_write(&mut self, addr: usize, data: u8) -> (r: bool)
        ensures
            r == old(self).ppu_peek(addr as u16).is_some(),
            r ==> final(self).v_chr_memory@ == old(self).v_chr_memory@.update(
                old(self).p_mapper.ppu_map(addr as u16).unwrap() as int,
                data,
            ),
            !r ==> *final(self) == *old(self),
            final(self).v_prg_memory@ == old(self).v_prg_memory@,
            final(self).p_mapper == old(self).p_mapper,
            final(self).mapper_id == old(self).mapper_id,
            final(self).mirror == old(self).mirror,
    {
        let mut mapped_addr: u32 = 0;
        if self.p_mapper.ppu_map_write(addr as u16, &mut mapped_addr) {
            if (mapped_addr as usize) < self.v_chr_memory.len() {
                self.v_chr_memory.set(mapped_addr as usize, data);
                return true;
            }
        }
        false
    }
}

} // verus!
