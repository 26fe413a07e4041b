//! The whole console: the clock loop that drives the picture unit, the
//! audio unit and the CPU at their fixed ratio, sprite DMA, interrupt
//! delivery and the pacing of audio samples.
use vstd::prelude::*;
use crate::bus::Bus;
use crate::cartridge::{Cartridge, CartridgeError, load_outcome};
use crate::cpu::{word, Cpu};
use crate::ppu::{ctrl_enable_nmi, next_position, Ppu, SCREEN_SIZE};

verus! {

/// The picture unit's clock rate, in ticks per second.
pub const PPU_CLOCK_HZ: u64 = 5369318;

/// A console with a cartridge inserted.
pub struct Nes {
    pub cpu: Cpu,
    pub bus: Bus,
    pub selected_palette: u8,
    pub emulation_run: bool,
    pub draw_mode: bool,
    /// Ticks run since power-on.
    pub cycles: u64,
    /// Audio samples per second.
    pub sample_rate: u64,
    /// Accumulated sample time, in units of 1 / (rate x clock) seconds.
    pub audio_time: u64,
}

impl Nes {
    pub open spec fn wf(&self) -> bool {
        &&& self.bus.wf()
        &&& self.cpu.wf()
        &&& self.sample_rate <= PPU_CLOCK_HZ
        &&& self.audio_time < PPU_CLOCK_HZ
    }

    /// A console with the cartridge in `rom`; fails as loading the
    /// cartridge does.
    pub fn new(rom: &Vec<u8>) -> (r: Result<Nes, CartridgeError>)
        ensures
            r.is_err() <==> load_outcome(rom@).is_err(),
            r matches Ok(n) ==> n.wf() && n.cycles == 0 && n.sample_rate == 0 && n.emulation_run,
    {
        match Cartridge::new(rom) {
            Ok(cart) => Ok(Nes {
                cpu: Cpu::new(),
                bus: Bus::new(cart),
                selected_palette: 0,
                emulation_run: true,
                draw_mode: false,
                cycles: 0,
                sample_rate: 0,
                audio_time: 0,
            }),
            Err(e) => Err(e),
        }
    }

    /// Resets the CPU and, through it, the bus.
    pub fn reset(&mut self)
        requires
            old(self).wf(),
        ensures
            final(self).wf(),
            final(self).cpu.pc == word(old(self).bus.peek(0xFFFC), old(self).bus.peek(0xFFFD)),
            final(self).cpu.stkp == 0xFD,
            final(self).cpu.status == 0x20,
    {
        self.cpu.reset(&mut self.bus);
    }

    /// Sets the audio sample rate; rates above the picture unit's clock
    /// are refused (one tick yields at most one sample).
    pub fn set_sample_frequency(&mut self, sample_rate: u32) -> (ok: bool)
        requires
            old(self).wf(),
        ensures
            final(self).wf(),
            ok == (sample_rate as u64 <= PPU_CLOCK_HZ),
            ok ==> final(self).sample_rate == sample_rate && final(self).audio_time == 0,
            !ok ==> *final(self) == *old(self),
    {
        if sample_rate as u64 <= PPU_CLOCK_HZ {
            self.sample_rate = sample_rate as u64;
            self.audio_time = 0;
            true
        } else {
            false
        }
    }

    /// Sets the buttons of controller `player` (0 or 1).
    pub fn set_controller_state(&mut self, state: u8, player: usize)
        requires
            old(self).wf(),
            player < 2,
        ensures
            final(self).wf(),
            final(self).bus.controller@ == old(self).bus.controller@.update(player as int, state),
    {
        self.bus.controller.set(player, state);
    }

    /// A copy of the frame: one colour index per pixel, row by row.
    pub fn get_pal_positions(&self) -> (r: Vec<u8>)
        requires
            self.wf(),
        ensures
            r@ == self.bus.ppu.pal_positions@,
            r@.len() == SCREEN_SIZE,
    {
        self.bus.ppu.pal_positions.clone()
    }

    /// One sprite-DMA cycle on tick `cycles`, from bus `b0` to `b1`:
    /// while waiting, an odd tick ends the wait; then even ticks read the
    /// next byte of the source page, and odd ticks write it into attribute
    /// memory and move on, ending the transfer when the offset wraps to 0.
    pub open spec fn dma_effect(cycles: u64, b0: Bus, b1: Bus) -> bool {
        if b0.dma_dummy {
            b1 == Bus { dma_dummy: cycles % 2 == 0, ..b0 }
        } else if cycles % 2 == 0 {
            Bus::read_effect(b0, Bus { dma_data: b0.dma_data, ..b1 }, word(b0.dma_addr, b0.dma_page), false, b1.dma_data)
        } else {
            let a = b0.dma_addr;
            &&& b1 == Bus {
                ppu: b1.ppu,
                dma_addr: a.wrapping_add(1),
                dma_transfer: a != 255,
                dma_dummy: a == 255,
                ..b0
            }
            &&& b1.ppu == Ppu { oam: b1.ppu.oam, ..b0.ppu }
            &&& b1.ppu.oam@ == b0.ppu.oam@.update(a as int, b0.dma_data)
        }
    }

    /// The parts of one tick of console `n0` that ends with CPU `c_end`
    /// and bus `b_end`: `mid` is the bus after the picture unit (its
    /// interrupt line taken) and the audio unit have run; on every third
    /// tick the CPU runs on it, or a DMA cycle in its place, giving `c1`
    /// and `b2`; a raised interrupt then enters the CPU.
    pub open spec fn tick_parts(n0: Nes, mid: Bus, b2: Bus, c1: Cpu, c_end: Cpu, b_end: Bus) -> bool {
        let ppu = n0.bus.ppu;
        let nmi_taken = ppu.nmi || (ppu.scan_line == 241 && ppu.cycle == 1 && ctrl_enable_nmi(ppu.control));
        let cpu_tick = n0.cycles % 3 == 0;
        let dma = n0.bus.dma_transfer;
        &&& mid == Bus { ppu: mid.ppu, apu: n0.bus.apu.clocked(), ..n0.bus }
        &&& !mid.ppu.nmi
        &&& cpu_tick && dma ==> c1 == n0.cpu && Nes::dma_effect(n0.cycles, mid, b2)
        &&& cpu_tick && !dma ==> Cpu::clock_effect(n0.cpu, mid, c1, b2)
        &&& !cpu_tick ==> c1 == n0.cpu && b2 == mid
        &&& nmi_taken ==> Cpu::nmi_effect(c1, b2, c_end, b_end)
        &&& !nmi_taken ==> c_end == c1 && b_end == b2
    }

    /// One sprite-DMA cycle, in place of a CPU cycle: waits for an odd
    /// cycle to align, then alternately reads a byte of the source page
    /// (even cycles) and writes it into attribute memory (odd cycles);
    /// the transfer ends when the offset wraps to 0.
    fn dma_cycle(&mut self)
        requires
            old(self).wf(),
            old(self).bus.dma_transfer,
        ensures
            final(self).wf(),
            (*final(self) == Nes { bus: final(self).bus, ..*old(self) }),
            Nes::dma_effect(old(self).cycles, old(self).bus, final(self).bus),
            final(self).bus.ppu.scan_line == old(self).bus.ppu.scan_line,
            final(self).bus.ppu.cycle == old(self).bus.ppu.cycle,
            final(self).bus.ppu.nmi == old(self).bus.ppu.nmi,
            final(self).bus.ppu.frame_complete == old(self).bus.ppu.frame_complete,
    {
        if self.bus.dma_dummy {
            if self.cycles % 2 == 1 {
                self.bus.dma_dummy = false;
            }
        } else if self.cycles % 2 == 0 {
            let page = self.bus.dma_page;
            let addr = self.bus.dma_addr;
            let a: u16 = (page as u16) * 256 + (addr as u16);
            let data = self.bus.read(a, false);
            self.bus.dma_data = data;
        } else {
            let addr = self.bus.dma_addr;
            let data = self.bus.dma_data;
            self.bus.ppu.set_oam(addr as usize, data);
            self.bus.dma_addr = addr.wrapping_add(1);
            if self.bus.dma_addr == 0 {
                self.bus.dma_transfer = false;
                self.bus.dma_dummy = true;
            }
        }
    }

    /// One tick of the console: the picture and audio units every tick;
    /// the CPU every third tick, or a DMA cycle in its place while a
    /// transfer runs (the CPU then makes no progress); a raised picture
    /// interrupt delivered to the CPU once; and the sample clock advanced.
    /// Returns whether a new audio sample is due.
    pub fn clock(&mut self) -> (sample_ready: bool)
        requires
            old(self).wf(),
        ensures
            final(self).wf(),
            final(self).cycles == old(self).cycles.wrapping_add(1),
            final(self).sample_rate == old(self).sample_rate,
            exists|mid: Bus, b2: Bus, c1: Cpu|
                #[trigger] Nes::tick_parts(*old(self), mid, b2, c1, final(self).cpu, final(self).bus),
            (final(self).bus.ppu.scan_line, final(self).bus.ppu.cycle)
                == next_position(old(self).bus.ppu.scan_line, old(self).bus.ppu.cycle),
            final(self).bus.ppu.frame_complete == (old(self).bus.ppu.frame_complete
                || (old(self).bus.ppu.scan_line == 260 && old(self).bus.ppu.cycle == 340)),
            !final(self).bus.ppu.nmi,
            sample_ready == (old(self).audio_time + old(self).sample_rate >= PPU_CLOCK_HZ),
            final(self).audio_time == if sample_ready {
                old(self).audio_time + old(self).sample_rate - PPU_CLOCK_HZ
            } else {
                old(self).audio_time + old(self).sample_rate
            },
            ({
                let ppu = old(self).bus.ppu;
                let nmi_taken = ppu.nmi || (ppu.scan_line == 241 && ppu.cycle == 1 && ctrl_enable_nmi(ppu.control));
                let cpu_tick = old(self).cycles % 3 == 0;
                let cpu_runs = cpu_tick && !old(self).bus.dma_transfer;
                &&& nmi_taken ==> final(self).cpu.pc == word(final(self).bus.peek(0xFFFA), final(self).bus.peek(0xFFFB))
                    && final(self).cpu.cycles == 8
                &&& !nmi_taken && !cpu_runs ==> final(self).cpu == old(self).cpu
                &&& final(self).cpu.clock_count == if cpu_runs {
                    old(self).cpu.clock_count.wrapping_add(1)
                } else {
                    old(self).cpu.clock_count
                }
            }),
    {
        self.bus.ppu.clock(&self.bus.cart);
        let nmi = self.bus.ppu.nmi;
        self.bus.ppu.nmi = false;
        self.bus.apu.clock();
        let ghost mid = self.bus;
        if self.cycles % 3 == 0 {
            if self.bus.dma_transfer {
                self.dma_cycle();
            } else {
                self.cpu.clock(&mut self.bus);
            }
        }
        let ghost b2 = self.bus;
        let ghost c1 = self.cpu;
        let mut sample_ready = false;
        self.audio_time = self.audio_time + self.sample_rate;
        if self.audio_time >= PPU_CLOCK_HZ {
            self.audio_time = self.audio_time - PPU_CLOCK_HZ;
            sample_ready = true;
        }
        if nmi {
            self.cpu.nmi(&mut self.bus);
        }
        self.cycles = self.cycles.wrapping_add(1);
        assert(Nes::tick_parts(*old(self), mid, b2, c1, self.cpu, self.bus));
        sample_ready
    }

    /// Runs ticks until an audio sample is due: the system advances by
    /// exactly as many ticks as that takes. Returns the number of ticks.
    pub fn clock_until_sample(&mut self) -> (ticks: u64)
        requires
            old(self).wf(),
            old(self).sample_rate > 0,
        ensures
            final(self).wf(),
            final(self).sample_rate == old(self).sample_rate,
            ticks >= 1,
            final(self).cycles as int == (old(self).cycles + ticks) % 0x1_0000_0000_0000_0000,
            old(self).audio_time + (ticks - 1) * old(self).sample_rate < PPU_CLOCK_HZ,
            PPU_CLOCK_HZ <= old(self).audio_time + ticks * old(self).sample_rate,
            final(self).audio_time == old(self).audio_time + ticks * old(self).sample_rate - PPU_CLOCK_HZ,
    {
        let mut ticks: u64 = 0;
        let mut ready = false;
        while !ready
            invariant
                self.wf(),
                self.sample_rate == old(self).sample_rate,
                self.sample_rate > 0,
                ready ==> ticks >= 1 && ticks <= PPU_CLOCK_HZ,
                !ready ==> ticks <= self.audio_time,
                self.cycles as int == (old(self).cycles + ticks) % 0x1_0000_0000_0000_0000,
                self.audio_time + (if ready { PPU_CLOCK_HZ as int } else { 0int })
                    == old(self).audio_time + ticks * self.sample_rate,
                ready ==> old(self).audio_time + (ticks - 1) * self.sample_rate < PPU_CLOCK_HZ,
                !ready ==> old(self).audio_time + ticks * self.sample_rate < PPU_CLOCK_HZ,
            decreases (if ready { 0int } else { PPU_CLOCK_HZ - self.audio_time + 1 }),
        {
            ready = self.clock();
            proof {
                let r = self.sample_rate as int;
                let t = ticks as int;
                assert((t + 1) * r == t * r + r) by (nonlinear_arith);
            }
            ticks = ticks + 1;
        }
        ticks
    }
}

} // verus!
