//! The CPU's address space: RAM, the picture and audio units' registers,
//! sprite DMA, the controllers, and the cartridge.
use vstd::prelude::*;
use crate::apu::Apu;
use crate::cartridge::{Cartridge, Mapper};
use crate::ppu::Ppu;

verus! {

/// Bytes of system RAM, mirrored over 0x0000 to 0x1FFF.
pub const RAM_SIZE: usize = 2048;

/// The bus and the devices on it.
pub struct Bus {
    pub ppu: Ppu,
    pub apu: Apu,
    pub cpu_ram: Vec<u8>,
    pub cart: Cartridge,
    /// The shift registers that controller reads take bits from.
    pub controller_state: Vec<u8>,
    /// The live button state of each controller, latched on a write.
    pub controller: Vec<u8>,
    pub dma_page: u8,
    pub dma_addr: u8,
    pub dma_data: u8,
    pub dma_transfer: bool,
    pub dma_dummy: bool,
}

impl Bus {
    pub open spec fn wf(&self) -> bool {
        &&& self.ppu.wf()
        &&& self.apu.wf()
        &&& self.cart.wf()
        &&& self.cpu_ram@.len() == RAM_SIZE
        &&& self.controller_state@.len() == 2
        &&& self.controller@.len() == 2
    }

    /// An address whose read has no side effect: RAM, or the range from
    /// 0x4018 up (the cartridge or open space).
    pub open spec fn quiet(addr: u16) -> bool {
        addr <= 0x1FFF || addr >= 0x4018
    }

    /// What a read of a quiet address yields.
    pub open spec fn peek(&self, addr: u16) -> u8 {
        match self.cart.cpu_peek(addr) {
            Some(v) => v,
            None => if addr <= 0x1FFF { self.cpu_ram@[(addr & 0x07FF) as int] } else { 0 },
        }
    }

    /// The picture unit's raster position and interrupt line are the same
    /// in `b0` and `b1`: no CPU access moves them.
    pub open spec fn keeps_raster(b0: Bus, b1: Bus) -> bool {
        &&& b1.ppu.scan_line == b0.ppu.scan_line
        &&& b1.ppu.cycle == b0.ppu.cycle
        &&& b1.ppu.nmi == b0.ppu.nmi
        &&& b1.ppu.frame_complete == b0.ppu.frame_complete
    }

    /// The effect of a CPU read of `addr`: from `b0` to `b1`, yielding
    /// `data`. The cartridge answers first where it claims the address;
    /// then RAM (masked to 2 KiB), the picture unit's registers (masked to
    /// 8), the audio status (0), and the controllers, whose reads shift out
    /// one bit each, top bit first. Anything else reads as 0.
    pub open spec fn read_effect(b0: Bus, b1: Bus, addr: u16, rdonly: bool, data: u8) -> bool {
        match b0.cart.cpu_peek(addr) {
            Some(v) => data == v && b1 == b0,
            None => if addr <= 0x1FFF {
                data == b0.cpu_ram@[(addr & 0x07FF) as int] && b1 == b0
            } else if addr <= 0x3FFF {
                &&& b1 == Bus { ppu: b1.ppu, ..b0 }
                &&& Ppu::register_read(b0.ppu, b1.ppu, &b0.cart, (addr & 0x0007) as usize, rdonly, data)
            } else if addr == 0x4016 || addr == 0x4017 {
                let i = (addr & 0x0001) as int;
                let st = b0.controller_state@[i];
                &&& data == (if st & 0x80 != 0 { 1u8 } else { 0u8 })
                &&& b1 == Bus { controller_state: b1.controller_state, ..b0 }
                &&& b1.controller_state@ == b0.controller_state@.update(i, st << 1u8)
            } else {
                data == 0 && b1 == b0
            },
        }
    }

    /// The effect of a CPU write of `data` at `addr`: from `b0` to `b1`.
    /// The cartridge takes it first where it claims the address; then RAM,
    /// the picture unit's registers, the audio registers (0x4000 to 0x4013
    /// and 0x4015), the DMA page (0x4014, which starts a transfer), and the
    /// controllers (either address latches that controller's buttons).
    pub open spec fn write_effect(b0: Bus, b1: Bus, addr: u16, data: u8) -> bool {
        if b0.cart.cpu_peek(addr).is_some() {
            &&& b1 == Bus { cart: b1.cart, ..b0 }
            &&& b1.cart.v_prg_memory@ == b0.cart.v_prg_memory@.update(b0.cart.p_mapper.cpu_map(addr).unwrap() as int, data)
            &&& b1.cart.v_chr_memory@ == b0.cart.v_chr_memory@
            &&& b1.cart.p_mapper == b0.cart.p_mapper
            &&& b1.cart.mapper_id == b0.cart.mapper_id
            &&& b1.cart.mirror == b0.cart.mirror
        } else if addr <= 0x1FFF {
            &&& b1 == Bus { cpu_ram: b1.cpu_ram, ..b0 }
            &&& b1.cpu_ram@ == b0.cpu_ram@.update((addr & 0x07FF) as int, data)
        } else if addr <= 0x3FFF {
            &&& b1 == Bus { ppu: b1.ppu, cart: b1.cart, ..b0 }
            &&& Ppu::register_write(b0.ppu, b1.ppu, b0.cart, b1.cart, (addr & 0x0007) as usize, data)
        } else if addr <= 0x4013 || addr == 0x4015 {
            &&& b1 == Bus { apu: b1.apu, ..b0 }
            &&& Apu::register_write(b0.apu, b1.apu, addr, data)
        } else if addr == 0x4014 {
            b1 == Bus { dma_page: data, dma_addr: 0, dma_transfer: true, ..b0 }
        } else if addr == 0x4016 || addr == 0x4017 {
            let i = (addr & 0x0001) as int;
            &&& b1 == Bus { controller_state: b1.controller_state, ..b0 }
            &&& b1.controller_state@ == b0.controller_state@.update(i, b0.controller@[i])
        } else {
            b1 == b0
        }
    }

    /// A bus with `cart` inserted: RAM cleared, controllers released, no
    /// DMA under way.
    pub fn new(cart: Cartridge) -> (r: Bus)
        requires
            cart.wf(),
        ensures
            r.wf(),
            r.cart == cart,
            forall|i: int| 0 <= i < RAM_SIZE ==> r.cpu_ram@[i] == 0,
            r.controller@ == seq![0u8, 0u8],
            r.controller_state@ == seq![0u8, 0u8],
            !r.dma_transfer,
            !r.dma_dummy,
    {
        let mut cpu_ram: Vec<u8> = Vec::with_capacity(RAM_SIZE);
        let mut i: usize = 0;
        while i < RAM_SIZE
            invariant
                i <= RAM_SIZE,
                cpu_ram@.len() == i,
                forall|j: int| 0 <= j < i ==> cpu_ram@[j] == 0,
            decreases RAM_SIZE - i,
        {
            cpu_ram.push(0);
            i += 1;
        }
        let controller: Vec<u8> = vec![0u8, 0u8];
        let controller_state: Vec<u8> = vec![0u8, 0u8];
        assert(controller@ =~= seq![0u8, 0u8]);
        assert(controller_state@ =~= seq![0u8, 0u8]);
        Bus {
            ppu: Ppu::new(),
            apu: Apu::new(),
            cpu_ram,
            cart,
            controller_state,
            controller,
            dma_page: 0,
            dma_addr: 0,
            dma_data: 0,
            dma_transfer: false,
            dma_dummy: false,
        }
    }

    /// Clears the DMA state (ready to wait for its alignment cycle) and
    /// resets the picture unit.
    pub fn reset(&mut self)
        requires
            old(self).wf(),
        ensures
            final(self).wf(),
            final(self).dma_page == 0,
            final(self).dma_addr == 0,
            final(self).dma_data == 0,
            final(self).dma_dummy,
            !final(self).dma_transfer,
            final(self).ppu.scan_line == 0 && final(self).ppu.cycle == 0,
            final(self).ppu.status == 0 && final(self).ppu.control == 0 && final(self).ppu.mask == 0,
            final(self).cpu_ram == old(self).cpu_ram,
            final(self).cart == old(self).cart,
            final(self).apu == old(self).apu,
    {
        self.dma_page = 0;
        self.dma_addr = 0;
        self.dma_data = 0;
        self.dma_dummy = true;
        self.dma_transfer = false;
        self.ppu.reset();
    }

    /// A CPU write; see `write_effect`.
    pub fn write(&mut self, addr: u16, data: u8)
        requires
            old(self).wf(),
        ensures
            final(self).wf(),
            Bus::write_effect(*old(self), *final(self), addr, data),
            Bus::keeps_raster(*old(self), *final(self)),
            addr <= 0x1FFF ==> (*final(self) == Bus { cpu_ram: final(self).cpu_ram, ..*old(self) })
                && final(self).cpu_ram@ == old(self).cpu_ram@.update((addr & 0x07FF) as int, data),
    {
        if self.cart.cpu_write(addr as usize, data) {
        } else if addr <= 0x1FFF {
            assert(addr & 0x07FF < 2048) by (bit_vector);
            self.cpu_ram.set((addr & 0x07FF) as usize, data);
        } else if addr <= 0x3FFF {
            self.ppu.cpu_write((addr & 0x0007) as usize, data, &mut self.cart);
        } else if addr <= 0x4013 || addr == 0x4015 {
            self.apu.cpu_write(addr, data);
        } else if addr == 0x4014 {
            self.dma_page = data;
            self.dma_addr = 0;
            self.dma_transfer = true;
        } else if addr == 0x4016 || addr == 0x4017 {
            assert(addr & 0x0001 < 2) by (bit_vector);
            let i = (addr & 0x0001) as usize;
            let c = self.controller[i];
            self.controller_state.set(i, c);
        }
    }

    /// A CPU read; see `read_effect`. A read-only access (for inspection)
    /// leaves the picture unit's registers as they are.
    pub fn read(&mut self, addr: u16, rdonly: bool) -> (data: u8)
        requires
            old(self).wf(),
        ensures
            final(self).wf(),
            Bus::read_effect(*old(self), *final(self), addr, rdonly, data),
            Bus::keeps_raster(*old(self), *final(self)),
            Bus::quiet(addr) ==> *final(self) == *old(self) && data == old(self).peek(addr),
    {
        let mut data: u8 = 0;
        if self.cart.cpu_read(addr as usize, &mut data) {
        } else if addr <= 0x1FFF {
            assert(addr & 0x07FF < 2048) by (bit_vector);
            data = self.cpu_ram[(addr & 0x07FF) as usize];
        } else if addr <= 0x3FFF {
            data = self.ppu.cpu_read((addr & 0x0007) as usize, rdonly, &self.cart);
        } else if addr == 0x4016 || addr == 0x4017 {
            assert(addr & 0x0001 < 2) by (bit_vector);
            let i = (addr & 0x0001) as usize;
            let st = self.controller_state[i];
            data = if st & 0x80 != 0 { 1 } else { 0 };
            self.controller_state.set(i, st << 1u8);
        } else if addr == 0x4015 {
            data = self.apu.cpu_read((addr & 0x00FF) as u8);
        }
        data
    }

    /// The picture unit, for the owner to drive.
    pub fn get_ppu(&mut self) -> (r: &mut Ppu)
        ensures
            *r == old(self).ppu,
            (*final(self) == Bus { ppu: *final(r), ..*old(self) }),
    {
        &mut self.ppu
    }

    /// Replaces the cartridge.
    pub fn insert_cartridge(&mut self, cart: Cartridge)
        requires
            old(self).wf(),
            cart.wf(),
        ensures
            final(self).wf(),
            (*final(self) == Bus { cart: cart, ..*old(self) }),
    {
        self.cart = cart;
    }
}

} // verus!
