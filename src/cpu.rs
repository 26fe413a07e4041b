//! The CPU: registers and flags, the addressing modes, the operations,
//! and the clocked fetch-decode-execute cycle with interrupts.
use vstd::prelude::*;
use crate::alu::{add_with_carry, adc_spec, branch_spec, branch_target, index_address, indexed_spec, sbc_spec, subtract_with_carry};
use crate::bus::Bus;
use crate::opcodes::{decode, instruction, AddrMode, Op};

verus! {

/// The status flags, one bit each from carry (bit 0) to negative (bit 7).
#[derive(PartialEq, Eq, Structural, Clone, Copy, Debug)]
pub enum FLAGS6502 {
    /// Carry
    C,
    /// Zero
    Z,
    /// Interrupt disable
    I,
    /// Decimal mode (stored, no effect)
    D,
    /// Break
    B,
    /// Unused, reads as set
    U,
    /// Overflow
    V,
    /// Negative
    N,
}

/// The bit of a flag in the status register.
pub open spec fn flag_mask(f: FLAGS6502) -> u8 {
    match f {
        FLAGS6502::C => 0x01,
        FLAGS6502::Z => 0x02,
        FLAGS6502::I => 0x04,
        FLAGS6502::D => 0x08,
        FLAGS6502::B => 0x10,
        FLAGS6502::U => 0x20,
        FLAGS6502::V => 0x40,
        FLAGS6502::N => 0x80,
    }
}

fn mask_of(f: FLAGS6502) -> (r: u8)
    ensures
        r == flag_mask(f),
{
    match f {
        FLAGS6502::C => 0x01,
        FLAGS6502::Z => 0x02,
        FLAGS6502::I => 0x04,
        FLAGS6502::D => 0x08,
        FLAGS6502::B => 0x10,
        FLAGS6502::U => 0x20,
        FLAGS6502::V => 0x40,
        FLAGS6502::N => 0x80,
    }
}

/// Flag `f` is set in status `s`.
pub open spec fn has_flag(s: u8, f: FLAGS6502) -> bool {
    s & flag_mask(f) != 0
}

/// Status `s` with flag `f` set to `v`.
pub open spec fn with_flag(s: u8, f: FLAGS6502, v: bool) -> u8 {
    if v { s | flag_mask(f) } else { s & !flag_mask(f) }
}

/// Status `s` with zero and negative taken from `v`.
pub open spec fn with_zn(s: u8, v: u8) -> u8 {
    with_flag(with_flag(s, FLAGS6502::Z, v == 0), FLAGS6502::N, v & 0x80 != 0)
}

/// The address of stack slot `sp`, in page 1.
pub open spec fn stack_addr(sp: u8) -> u16 {
    (0x0100 + sp) as u16
}

/// A little-endian word from two bytes.
pub open spec fn word(lo: u8, hi: u8) -> u16 {
    ((hi as u16) * 256 + lo) as u16
}

/// The addressing modes whose indexing can cross a page.
pub open spec fn page_sensitive(m: AddrMode) -> bool {
    m == AddrMode::ABX || m == AddrMode::ABY || m == AddrMode::IZY
}

/// The operations that take the addressing mode's page-crossing cycle
/// (reads of the operand), among them the absolute-X forms of NOP.
pub open spec fn takes_extra(op: Op, opcode: u8) -> bool {
    match op {
        Op::ADC | Op::AND | Op::CMP | Op::EOR | Op::LDA | Op::LDX | Op::LDY | Op::ORA | Op::SBC => true,
        Op::NOP => opcode == 0x1C || opcode == 0x3C || opcode == 0x5C || opcode == 0x7C || opcode == 0xDC
            || opcode == 0xFC,
        _ => false,
    }
}

/// The conditional branches.
pub open spec fn is_branch(op: Op) -> bool {
    match op {
        Op::BCC | Op::BCS | Op::BEQ | Op::BNE | Op::BMI | Op::BPL | Op::BVC | Op::BVS => true,
        _ => false,
    }
}

/// The CPU's registers and the state of the instruction under way.
pub struct Cpu {
    pub status: u8,
    pub a: u8,
    pub x: u8,
    pub y: u8,
    pub stkp: u8,
    pub pc: u16,
    /// The operand of the current instruction.
    pub fetched: u8,
    /// The effective address of the current instruction.
    pub addr_abs: u16,
    /// The sign-extended offset of a branch.
    pub addr_rel: u16,
    pub opcode: u8,
    /// Cycles left of the current instruction.
    pub cycles: u8,
    /// Cycles run since power-on.
    pub clock_count: u64,
}

proof fn lemma_word(lo: u8, hi: u8)
    ensures
        ((hi as u16) << 8u16) | (lo as u16) == word(lo, hi),
{
    let h = hi as u16;
    let l = lo as u16;
    assert((h << 8u16) | l == h * 256 + l) by (bit_vector)
        requires
            h < 256,
            l < 256,
    ;
}

proof fn lemma_low_bits(v: u16)
    ensures
        v < 2048 ==> v & 0x07FF == v,
        v & 0x00FF == v % 256,
        (v >> 8u16) & 0x00FF == (v / 256) % 256,
        v & 0x80 != 0 <==> v % 256 >= 128,
        v & 0xFF00 == (v / 256) * 256,
{
    assert(v & 0xFF00 == (v / 256) * 256) by (bit_vector);
    assert(v < 2048 ==> v & 0x07FF == v) by (bit_vector);
    assert(v & 0x00FF == v % 256) by (bit_vector);
    assert((v >> 8u16) & 0x00FF == (v / 256) % 256) by (bit_vector);
    assert(v & 0x80 != 0 <==> v % 256 >= 128) by (bit_vector);
}

/// The effect of fetching the operand: none in implied mode, where the
/// operand is already in place; otherwise a read of the effective address.
pub open spec fn fetch_effect(c: Cpu, b0: Bus, b1: Bus, fetched: u8) -> bool {
    if instruction(c.opcode).addrmode == AddrMode::IMP {
        fetched == c.fetched && b1 == b0
    } else {
        Bus::read_effect(b0, b1, c.addr_abs, false, fetched)
    }
}

/// The bus after an operation wrote `v` at its effective address, or, in
/// implied mode, where the operation works on the accumulator, as it was.
pub open spec fn store_effect(c: Cpu, b0: Bus, b1: Bus, v: u8) -> bool {
    if instruction(c.opcode).addrmode == AddrMode::IMP {
        b1 == b0
    } else {
        Bus::quiet(c.addr_abs) ==> Bus::write_effect(b0, b1, c.addr_abs, v)
    }
}

/// The shift and rotate results, each with its carry out.
pub open spec fn asl_spec(f: u8) -> (u8, bool) {
    (((f * 2) % 256) as u8, f >= 128)
}

pub open spec fn lsr_spec(f: u8) -> (u8, bool) {
    ((f / 2) as u8, f % 2 == 1)
}

pub open spec fn rol_spec(f: u8, c: bool) -> (u8, bool) {
    (((f * 2 + (if c { 1int } else { 0int })) % 256) as u8, f >= 128)
}

pub open spec fn ror_spec(f: u8, c: bool) -> (u8, bool) {
    ((f / 2 + (if c { 128int } else { 0int })) as u8, f % 2 == 1)
}

#[allow(non_snake_case)]
impl Cpu {
    /// The cycles left of an instruction never exceed its longest form:
    /// 8 from the table, 2 for a branch to another page, 1 for indexing.
    pub open spec fn wf(&self) -> bool {
        self.cycles <= 10
    }

    /// A powered-on CPU with every register at zero.
    pub fn new() -> (r: Cpu)
        ensures
            r.wf(),
            r.a == 0 && r.x == 0 && r.y == 0 && r.stkp == 0 && r.pc == 0 && r.status == 0,
            r.cycles == 0,
            r.clock_count == 0,
    {
        Cpu {
            status: 0,
            a: 0,
            x: 0,
            y: 0,
            stkp: 0,
            pc: 0,
            fetched: 0,
            addr_abs: 0,
            addr_rel: 0,
            opcode: 0,
            cycles: 0,
            clock_count: 0,
        }
    }

    /// 1 when flag `f` is set, else 0.
    pub fn get_flag(&self, f: FLAGS6502) -> (r: u8)
        ensures
            r == if has_flag(self.status, f) { 1u8 } else { 0u8 },
    {
        if self.status & mask_of(f) != 0 { 1 } else { 0 }
    }

    /// Sets or clears flag `f`.
    pub fn set_flag(&mut self, f: FLAGS6502, v: bool)
        ensures
            (*final(self) == Cpu { status: with_flag(old(self).status, f, v), ..*old(self) }),
    {
        if v {
            self.status = self.status | mask_of(f);
        } else {
            self.status = self.status & !mask_of(f);
        }
    }

    fn set_zn(&mut self, v: u8)
        ensures
            (*final(self) == Cpu { status: with_zn(old(self).status, v), ..*old(self) }),
    {
        self.set_flag(FLAGS6502::Z, v == 0);
        self.set_flag(FLAGS6502::N, v & 0x80 != 0);
    }

    /// A read on the bus.
    pub fn read(&self, bus: &mut Bus, addr: u16, b_read_only: bool) -> (r: u8)
        requires
            old(bus).wf(),
        ensures
            final(bus).wf(),
            Bus::keeps_raster(*old(bus), *final(bus)),
            Bus::read_effect(*old(bus), *final(bus), addr, b_read_only, r),
            Bus::quiet(addr) ==> *final(bus) == *old(bus) && r == old(bus).peek(addr),
    {
        bus.read(addr, b_read_only)
    }

    /// A write on the bus.
    pub fn write(&self, bus: &mut Bus, addr: u16, data: u8)
        requires
            old(bus).wf(),
        ensures
            final(bus).wf(),
            Bus::keeps_raster(*old(bus), *final(bus)),
            Bus::write_effect(*old(bus), *final(bus), addr, data),
            addr <= 0x1FFF ==> (*final(bus) == Bus { cpu_ram: final(bus).cpu_ram, ..*old(bus) })
                && final(bus).cpu_ram@ == old(bus).cpu_ram@.update((addr & 0x07FF) as int, data),
    {
        bus.write(addr, data)
    }

    fn push_to_stack(&mut self, bus: &mut Bus, value: u8)
        requires
            old(bus).wf(),
        ensures
            final(bus).wf(),
            Bus::keeps_raster(*old(bus), *final(bus)),
            (*final(bus) == Bus { cpu_ram: final(bus).cpu_ram, ..*old(bus) }),
            final(bus).cpu_ram@ == old(bus).cpu_ram@.update(stack_addr(old(self).stkp) as int, value),
            (*final(self) == Cpu { stkp: old(self).stkp.wrapping_sub(1), ..*old(self) }),
    {
        let addr: u16 = 0x0100 + self.stkp as u16;
        proof {
            lemma_low_bits(addr);
        }
        self.write(bus, addr, value);
        self.stkp = self.stkp.wrapping_sub(1);
    }

    fn pop_from_stack(&mut self, bus: &mut Bus) -> (r: u8)
        requires
            old(bus).wf(),
        ensures
            *final(bus) == *old(bus),
            r == old(bus).cpu_ram@[stack_addr(old(self).stkp.wrapping_add(1)) as int],
            (*final(self) == Cpu { stkp: old(self).stkp.wrapping_add(1), ..*old(self) }),
    {
        self.stkp = self.stkp.wrapping_add(1);
        let addr: u16 = 0x0100 + self.stkp as u16;
        proof {
            lemma_low_bits(addr);
        }
        self.read(bus, addr, false)
    }

    /// Reads the byte at the program counter and moves past it.
    fn pcread(&mut self, bus: &mut Bus) -> (r: u16)
        requires
            old(bus).wf(),
        ensures
            final(bus).wf(),
            Bus::keeps_raster(*old(bus), *final(bus)),
            r < 256,
            Bus::read_effect(*old(bus), *final(bus), old(self).pc, false, r as u8),
            Bus::quiet(old(self).pc) ==> *final(bus) == *old(bus) && r == old(bus).peek(old(self).pc),
            (*final(self) == Cpu { pc: old(self).pc.wrapping_add(1), ..*old(self) }),
    {
        let result = self.read(bus, self.pc, false) as u16;
        self.pc = self.pc.wrapping_add(1);
        result
    }

    /// Loads the operand from the effective address, except in implied mode.
    fn fetch(&mut self, bus: &mut Bus)
        requires
            old(bus).wf(),
        ensures
            final(bus).wf(),
            Bus::keeps_raster(*old(bus), *final(bus)),
            fetch_effect(*old(self), *old(bus), *final(bus), final(self).fetched),
            Bus::quiet(old(self).addr_abs) || instruction(old(self).opcode).addrmode == AddrMode::IMP
                ==> *final(bus) == *old(bus),
            (*final(self) == Cpu { fetched: final(self).fetched, ..*old(self) }),
    {
        if decode(self.opcode).addrmode != AddrMode::IMP {
            self.fetched = self.read(bus, self.addr_abs, false);
        }
    }

    /// Stores a result: into the accumulator in implied mode, else at the
    /// effective address.
    fn store_result(&mut self, bus: &mut Bus, v: u8)
        requires
            old(bus).wf(),
        ensures
            final(bus).wf(),
            Bus::keeps_raster(*old(bus), *final(bus)),
            store_effect(*old(self), *old(bus), *final(bus), v),
            (*final(self) == Cpu {
                a: if instruction(old(self).opcode).addrmode == AddrMode::IMP { v } else { old(self).a },
                ..*old(self)
            }),
    {
        if decode(self.opcode).addrmode == AddrMode::IMP {
            self.a = v;
        } else {
            self.write(bus, self.addr_abs, v);
        }
    }

    /// Takes a branch when `flag` holds: one cycle more, and another when
    /// the target lies on another page.
    fn branchrel(&mut self, flag: bool)
        requires
            old(self).cycles <= 8,
        ensures
            !flag ==> *final(self) == *old(self),
            flag ==> (*final(self) == Cpu {
                pc: branch_spec(old(self).pc, old(self).addr_rel).0,
                addr_abs: branch_spec(old(self).pc, old(self).addr_rel).0,
                cycles: (old(self).cycles + branch_spec(old(self).pc, old(self).addr_rel).1) as u8,
                ..*old(self)
            }),
    {
        if flag {
            let (target, extra) = branch_target(self.pc, self.addr_rel);
            self.cycles = self.cycles + extra;
            self.addr_abs = target;
            self.pc = target;
        }
    }

    /// Addressing mode, implied: the operand is the accumulator.
    pub fn IMP(&mut self, bus: &mut Bus) -> (r: u8)
        ensures
            r == 0,
            *final(bus) == *old(bus),
            (*final(self) == Cpu { fetched: old(self).a, ..*old(self) }),
    {
        self.fetched = self.a;
        0
    }

    /// Addressing mode, immediate: the operand is the next program byte.
    pub fn IMM(&mut self, bus: &mut Bus) -> (r: u8)
        ensures
            r == 0,
            *final(bus) == *old(bus),
            (*final(self) == Cpu { addr_abs: old(self).pc, pc: old(self).pc.wrapping_add(1), ..*old(self) }),
    {
        self.addr_abs = self.pc;
        self.pc = self.pc.wrapping_add(1);
        0
    }

    /// Addressing mode, zero page: the next program byte is the address.
    pub fn ZP0(&mut self, bus: &mut Bus) -> (r: u8)
        requires
            old(bus).wf(),
        ensures
            r == 0,
            final(bus).wf(),
            Bus::keeps_raster(*old(bus), *final(bus)),
            (*final(self) == Cpu { addr_abs: final(self).addr_abs, pc: old(self).pc.wrapping_add(1), ..*old(self) }),
            final(self).addr_abs < 256,
            Bus::read_effect(*old(bus), *final(bus), old(self).pc, false, final(self).addr_abs as u8),
    {
        let t = self.pcread(bus);
        self.addr_abs = t;
        0
    }

    /// Addressing mode, zero page plus X, wrapping within page 0.
    pub fn ZPX(&mut self, bus: &mut Bus) -> (r: u8)
        requires
            old(bus).wf(),
        ensures
            r == 0,
            final(bus).wf(),
            Bus::keeps_raster(*old(bus), *final(bus)),
            (*final(self) == Cpu { addr_abs: final(self).addr_abs, pc: old(self).pc.wrapping_add(1), ..*old(self) }),
            exists|t: u8| #[trigger] Bus::read_effect(*old(bus), *final(bus), old(self).pc, false, t)
                && final(self).addr_abs == (t + old(self).x) % 256,
    {
        let t = self.pcread(bus);
        self.addr_abs = (t + self.x as u16) % 256;
        assert(Bus::read_effect(*old(bus), *bus, old(self).pc, false, t as u8));
        0
    }

    /// Addressing mode, zero page plus Y, wrapping within page 0.
    pub fn ZPY(&mut self, bus: &mut Bus) -> (r: u8)
        requires
            old(bus).wf(),
        ensures
            r == 0,
            final(bus).wf(),
            Bus::keeps_raster(*old(bus), *final(bus)),
            (*final(self) == Cpu { addr_abs: final(self).addr_abs, pc: old(self).pc.wrapping_add(1), ..*old(self) }),
            exists|t: u8| #[trigger] Bus::read_effect(*old(bus), *final(bus), old(self).pc, false, t)
                && final(self).addr_abs == (t + old(self).y) % 256,
    {
        let t = self.pcread(bus);
        self.addr_abs = (t + self.y as u16) % 256;
        assert(Bus::read_effect(*old(bus), *bus, old(self).pc, false, t as u8));
        0
    }

    /// Addressing mode, relative: the next program byte, sign-extended, is
    /// a branch offset.
    pub fn REL(&mut self, bus: &mut Bus) -> (r: u8)
        requires
            old(bus).wf(),
        ensures
            r == 0,
            final(bus).wf(),
            Bus::keeps_raster(*old(bus), *final(bus)),
            (*final(self) == Cpu { addr_rel: final(self).addr_rel, pc: old(self).pc.wrapping_add(1), ..*old(self) }),
            exists|t: u8| #[trigger] Bus::read_effect(*old(bus), *final(bus), old(self).pc, false, t)
                && final(self).addr_rel == if t >= 128 { (t + 0xFF00) as u16 } else { t as u16 },
    {
        let t = self.pcread(bus);
        self.addr_rel = if t >= 128 { t + 0xFF00 } else { t };
        assert(Bus::read_effect(*old(bus), *bus, old(self).pc, false, t as u8));
        0
    }

    /// Two reads in turn: `a1` then `a2`, yielding `v1` and `v2`.
    pub open spec fn reads2(b0: Bus, b2: Bus, a1: u16, v1: u8, a2: u16, v2: u8) -> bool {
        exists|m: Bus| #[trigger] Bus::read_effect(b0, m, a1, false, v1) && Bus::read_effect(m, b2, a2, false, v2)
    }

    /// Addressing mode, absolute: the next two program bytes, low first.
    pub fn ABS(&mut self, bus: &mut Bus) -> (r: u8)
        requires
            old(bus).wf(),
        ensures
            r == 0,
            final(bus).wf(),
            Bus::keeps_raster(*old(bus), *final(bus)),
            (*final(self) == Cpu { addr_abs: final(self).addr_abs, pc: old(self).pc.wrapping_add(2), ..*old(self) }),
            exists|lo: u8, hi: u8| #[trigger] Cpu::reads2(*old(bus), *final(bus), old(self).pc, lo, old(self).pc.wrapping_add(1), hi)
                && final(self).addr_abs == word(lo, hi),
    {
        let lo = self.pcread(bus);
        let ghost m = *bus;
        let hi = self.pcread(bus);
        proof {
            lemma_word(lo as u8, hi as u8);
            assert(Bus::read_effect(*old(bus), m, old(self).pc, false, lo as u8));
            assert(Cpu::reads2(*old(bus), *bus, old(self).pc, lo as u8, old(self).pc.wrapping_add(1), hi as u8));
        }
        self.addr_abs = (hi << 8u16) | lo;
        0
    }

    fn absolute_indexed(&mut self, bus: &mut Bus, idx: u8) -> (r: u8)
        requires
            old(bus).wf(),
        ensures
            final(bus).wf(),
            r <= 1,
            Bus::keeps_raster(*old(bus), *final(bus)),
            (*final(self) == Cpu { addr_abs: final(self).addr_abs, pc: old(self).pc.wrapping_add(2), ..*old(self) }),
            exists|lo: u8, hi: u8| #[trigger] Cpu::reads2(*old(bus), *final(bus), old(self).pc, lo, old(self).pc.wrapping_add(1), hi)
                && (final(self).addr_abs, r) == indexed_spec(lo, hi, idx),
    {
        let lo = self.pcread(bus);
        let ghost m = *bus;
        let hi = self.pcread(bus);
        proof {
            assert(Bus::read_effect(*old(bus), m, old(self).pc, false, lo as u8));
            assert(Cpu::reads2(*old(bus), *bus, old(self).pc, lo as u8, old(self).pc.wrapping_add(1), hi as u8));
        }
        let (addr, crossed) = index_address(lo as u8, hi as u8, idx);
        self.addr_abs = addr;
        crossed
    }

    /// Addressing mode, absolute plus X; 1 when indexing crossed a page.
    pub fn ABX(&mut self, bus: &mut Bus) -> (r: u8)
        requires
            old(bus).wf(),
        ensures
            final(bus).wf(),
            r <= 1,
            Bus::keeps_raster(*old(bus), *final(bus)),
            (*final(self) == Cpu { addr_abs: final(self).addr_abs, pc: old(self).pc.wrapping_add(2), ..*old(self) }),
            exists|lo: u8, hi: u8| #[trigger] Cpu::reads2(*old(bus), *final(bus), old(self).pc, lo, old(self).pc.wrapping_add(1), hi)
                && (final(self).addr_abs, r) == indexed_spec(lo, hi, old(self).x),
    {
        let x = self.x;
        self.absolute_indexed(bus, x)
    }

    /// Addressing mode, absolute plus Y; 1 when indexing crossed a page.
    pub fn ABY(&mut self, bus: &mut Bus) -> (r: u8)
        requires
            old(bus).wf(),
        ensures
            final(bus).wf(),
            r <= 1,
            Bus::keeps_raster(*old(bus), *final(bus)),
            (*final(self) == Cpu { addr_abs: final(self).addr_abs, pc: old(self).pc.wrapping_add(2), ..*old(self) }),
            exists|lo: u8, hi: u8| #[trigger] Cpu::reads2(*old(bus), *final(bus), old(self).pc, lo, old(self).pc.wrapping_add(1), hi)
                && (final(self).addr_abs, r) == indexed_spec(lo, hi, old(self).y),
    {
        let y = self.y;
        self.absolute_indexed(bus, y)
    }

    /// The second pointer byte of an indirect jump: the next byte, except
    /// that a pointer ending in 0xFF wraps to the start of its own page.
    pub open spec fn indirect_high(lo: u8, hi: u8) -> u16 {
        if lo == 0xFF { word(0, hi) } else { (word(lo, hi) + 1) as u16 }
    }

    /// Addressing mode, indirect: the address is read from a pointer (its
    /// high byte first). As on the hardware, a pointer whose low byte is
    /// 0xFF takes its high byte from the start of the same page.
    pub fn IND(&mut self, bus: &mut Bus) -> (r: u8)
        requires
            old(bus).wf(),
        ensures
            r == 0,
            final(bus).wf(),
            Bus::keeps_raster(*old(bus), *final(bus)),
            (*final(self) == Cpu { addr_abs: final(self).addr_abs, pc: old(self).pc.wrapping_add(2), ..*old(self) }),
            exists|m: Bus, lo: u8, hi: u8, al: u8, ah: u8|
                #[trigger] Cpu::reads2(*old(bus), m, old(self).pc, lo, old(self).pc.wrapping_add(1), hi)
                && #[trigger] Cpu::reads2(m, *final(bus), Cpu::indirect_high(lo, hi), ah, word(lo, hi), al)
                && final(self).addr_abs == word(al, ah),
    {
        let ptr_lo = self.pcread(bus);
        let ghost m1 = *bus;
        let ptr_hi = self.pcread(bus);
        let ghost m2 = *bus;
        proof {
            lemma_word(ptr_lo as u8, ptr_hi as u8);
            assert(Bus::read_effect(*old(bus), m1, old(self).pc, false, ptr_lo as u8));
            assert(Cpu::reads2(*old(bus), m2, old(self).pc, ptr_lo as u8, old(self).pc.wrapping_add(1), ptr_hi as u8));
        }
        let ptr: u16 = (ptr_hi << 8u16) | ptr_lo;
        proof {
            lemma_low_bits(ptr);
        }
        let ptr2: u16 = if ptr_lo == 0x00FF { ptr & 0xFF00 } else { ptr + 1 };
        let hi_addr = self.read(bus, ptr2, false) as u16;
        let ghost m3 = *bus;
        let lo_addr = self.read(bus, ptr, false) as u16;
        proof {
            lemma_word(lo_addr as u8, hi_addr as u8);
            assert(ptr2 == Cpu::indirect_high(ptr_lo as u8, ptr_hi as u8));
            assert(Bus::read_effect(m2, m3, ptr2, false, hi_addr as u8));
            assert(Cpu::reads2(m2, *bus, ptr2, hi_addr as u8, ptr, lo_addr as u8));
        }
        self.addr_abs = (hi_addr << 8u16) | lo_addr;
        0
    }

    /// Addressing mode, indexed indirect: the pointer is in page 0 at the
    /// next program byte plus X.
    pub fn IZX(&mut self, bus: &mut Bus) -> (r: u8)
        requires
            old(bus).wf(),
        ensures
            r == 0,
            final(bus).wf(),
            Bus::keeps_raster(*old(bus), *final(bus)),
            (*final(self) == Cpu { addr_abs: final(self).addr_abs, pc: old(self).pc.wrapping_add(1), ..*old(self) }),
            exists|m: Bus, t: u8, lo: u8, hi: u8|
                #[trigger] Bus::read_effect(*old(bus), m, old(self).pc, false, t)
                && #[trigger] Cpu::reads2(m, *final(bus), ((t + old(self).x) % 256) as u16, lo,
                    ((t + old(self).x + 1) % 256) as u16, hi)
                && final(self).addr_abs == word(lo, hi),
    {
        let t = self.pcread(bus);
        let ghost m1 = *bus;
        let ptr: u16 = t + self.x as u16;
        let lo = self.read(bus, ptr % 256, false) as u16;
        let ghost m2 = *bus;
        let hi = self.read(bus, (ptr + 1) % 256, false) as u16;
        proof {
            lemma_word(lo as u8, hi as u8);
            assert(Bus::read_effect(*old(bus), m1, old(self).pc, false, t as u8));
            assert(Bus::read_effect(m1, m2, ptr % 256, false, lo as u8));
            assert(Cpu::reads2(m1, *bus, ptr % 256, lo as u8, ((ptr + 1) % 256) as u16, hi as u8));
        }
        self.addr_abs = (hi << 8u16) | lo;
        0
    }

    /// Addressing mode, indirect indexed: the pointer is in page 0 at the
    /// next program byte, and Y is added to the address it holds; 1 when
    /// that crossed a page.
    pub fn IZY(&mut self, bus: &mut Bus) -> (r: u8)
        requires
            old(bus).wf(),
        ensures
            final(bus).wf(),
            r <= 1,
            Bus::keeps_raster(*old(bus), *final(bus)),
            (*final(self) == Cpu { addr_abs: final(self).addr_abs, pc: old(self).pc.wrapping_add(1), ..*old(self) }),
            exists|m: Bus, t: u8, lo: u8, hi: u8|
                #[trigger] Bus::read_effect(*old(bus), m, old(self).pc, false, t)
                && #[trigger] Cpu::reads2(m, *final(bus), t as u16, lo, ((t + 1) % 256) as u16, hi)
                && (final(self).addr_abs, r) == indexed_spec(lo, hi, old(self).y),
    {
        let t = self.pcread(bus);
        let ghost m1 = *bus;
        let lo = self.read(bus, t % 256, false);
        let ghost m2 = *bus;
        let hi = self.read(bus, (t + 1) % 256, false);
        proof {
            assert(Bus::read_effect(*old(bus), m1, old(self).pc, false, t as u8));
            assert(Bus::read_effect(m1, m2, t % 256, false, lo));
            assert(Cpu::reads2(m1, *bus, t as u16, lo, ((t + 1) % 256) as u16, hi));
        }
        let (addr, crossed) = index_address(lo, hi, self.y);
        self.addr_abs = addr;
        crossed
    }

    /// Loads the operand into accumulator; sets zero and negative.
    pub fn LDA(&mut self, bus: &mut Bus) -> (r: u8)
        requires
            old(bus).wf(),
        ensures
            r == 1,
            final(bus).wf(),
            Bus::keeps_raster(*old(bus), *final(bus)),
            fetch_effect(*old(self), *old(bus), *final(bus), final(self).fetched),
            (*final(self) == Cpu {
                a: final(self).fetched,
                status: with_zn(old(self).status, final(self).fetched),
                fetched: final(self).fetched,
                ..*old(self)
            }),
    {
        self.fetch(bus);
        self.a = self.fetched;
        let v = self.a;
        self.set_zn(v);
        1
    }

    /// Loads the operand into X; sets zero and negative.
    pub fn LDX(&mut self, bus: &mut Bus) -> (r: u8)
        requires
            old(bus).wf(),
        ensures
            r == 1,
            final(bus).wf(),
            Bus::keeps_raster(*old(bus), *final(bus)),
            fetch_effect(*old(self), *old(bus), *final(bus), final(self).fetched),
            (*final(self) == Cpu {
                x: final(self).fetched,
                status: with_zn(old(self).status, final(self).fetched),
                fetched: final(self).fetched,
                ..*old(self)
            }),
    {
        self.fetch(bus);
        self.x = self.fetched;
        let v = self.x;
        self.set_zn(v);
        1
    }

    /// Loads the operand into Y; sets zero and negative.
    pub fn LDY(&mut self, bus: &mut Bus) -> (r: u8)
        requires
            old(bus).wf(),
        ensures
            r == 1,
            final(bus).wf(),
            Bus::keeps_raster(*old(bus), *final(bus)),
            fetch_effect(*old(self), *old(bus), *final(bus), final(self).fetched),
            (*final(self) == Cpu {
                y: final(self).fetched,
                status: with_zn(old(self).status, final(self).fetched),
                fetched: final(self).fetched,
                ..*old(self)
            }),
    {
        self.fetch(bus);
        self.y = self.fetched;
        let v = self.y;
        self.set_zn(v);
        1
    }

    /// The accumulator and the operand; sets zero and negative.
    pub fn AND(&mut self, bus: &mut Bus) -> (r: u8)
        requires
            old(bus).wf(),
        ensures
            r == 1,
            final(bus).wf(),
            Bus::keeps_raster(*old(bus), *final(bus)),
            fetch_effect(*old(self), *old(bus), *final(bus), final(self).fetched),
            (*final(self) == Cpu {
                a: old(self).a & final(self).fetched,
                status: with_zn(old(self).status, old(self).a & final(self).fetched),
                fetched: final(self).fetched,
                ..*old(self)
            }),
    {
        self.fetch(bus);
        self.a = self.a & self.fetched;
        let v = self.a;
        self.set_zn(v);
        1
    }

    /// The accumulator exclusive or the operand; sets zero and negative.
    pub fn EOR(&mut self, bus: &mut Bus) -> (r: u8)
        requires
            old(bus).wf(),
        ensures
            r == 1,
            final(bus).wf(),
            Bus::keeps_raster(*old(bus), *final(bus)),
            fetch_effect(*old(self), *old(bus), *final(bus), final(self).fetched),
            (*final(self) == Cpu {
                a: old(self).a ^ final(self).fetched,
                status: with_zn(old(self).status, old(self).a ^ final(self).fetched),
                fetched: final(self).fetched,
                ..*old(self)
            }),
    {
        self.fetch(bus);
        self.a = self.a ^ self.fetched;
        let v = self.a;
        self.set_zn(v);
        1
    }

    /// The accumulator or the operand; sets zero and negative.
    pub fn ORA(&mut self, bus: &mut Bus) -> (r: u8)
        requires
            old(bus).wf(),
        ensures
            r == 1,
            final(bus).wf(),
            Bus::keeps_raster(*old(bus), *final(bus)),
            fetch_effect(*old(self), *old(bus), *final(bus), final(self).fetched),
            (*final(self) == Cpu {
                a: old(self).a | final(self).fetched,
                status: with_zn(old(self).status, old(self).a | final(self).fetched),
                fetched: final(self).fetched,
                ..*old(self)
            }),
    {
        self.fetch(bus);
        self.a = self.a | self.fetched;
        let v = self.a;
        self.set_zn(v);
        1
    }

    /// Adds the operand and the carry to the accumulator, in binary; sets carry, zero, overflow and negative.
    pub fn ADC(&mut self, bus: &mut Bus) -> (r: u8)
        requires
            old(bus).wf(),
        ensures
            r == 1,
            final(bus).wf(),
            Bus::keeps_raster(*old(bus), *final(bus)),
            fetch_effect(*old(self), *old(bus), *final(bus), final(self).fetched),
            ({
                let (v, c, o) = adc_spec(old(self).a, final(self).fetched, has_flag(old(self).status, FLAGS6502::C));
                *final(self) == Cpu {
                    a: v,
                    status: with_flag(with_flag(with_flag(with_flag(old(self).status, FLAGS6502::C, c), FLAGS6502::Z, v == 0),
                        FLAGS6502::V, o), FLAGS6502::N, v & 0x80 != 0),
                    fetched: final(self).fetched,
                    ..*old(self)
                }
            }),
    {
        self.fetch(bus);
        let carry = self.get_flag(FLAGS6502::C) == 1;
        let (v, c, o) = add_with_carry(self.a, self.fetched, carry);
        self.set_flag(FLAGS6502::C, c);
        self.set_flag(FLAGS6502::Z, v == 0);
        self.set_flag(FLAGS6502::V, o);
        self.set_flag(FLAGS6502::N, v & 0x80 != 0);
        self.a = v;
        1
    }

    /// Subtracts the operand and the borrow (carry clear) from the accumulator, in binary; sets carry, zero, overflow and negative.
    pub fn SBC(&mut self, bus: &mut Bus) -> (r: u8)
        requires
            old(bus).wf(),
        ensures
            r == 1,
            final(bus).wf(),
            Bus::keeps_raster(*old(bus), *final(bus)),
            fetch_effect(*old(self), *old(bus), *final(bus), final(self).fetched),
            ({
                let (v, c, o) = sbc_spec(old(self).a, final(self).fetched, has_flag(old(self).status, FLAGS6502::C));
                *final(self) == Cpu {
                    a: v,
                    status: with_flag(with_flag(with_flag(with_flag(old(self).status, FLAGS6502::C, c), FLAGS6502::Z, v == 0),
                        FLAGS6502::V, o), FLAGS6502::N, v & 0x80 != 0),
                    fetched: final(self).fetched,
                    ..*old(self)
                }
            }),
    {
        self.fetch(bus);
        let carry = self.get_flag(FLAGS6502::C) == 1;
        let (v, c, o) = subtract_with_carry(self.a, self.fetched, carry);
        self.set_flag(FLAGS6502::C, c);
        self.set_flag(FLAGS6502::Z, v == 0);
        self.set_flag(FLAGS6502::V, o);
        self.set_flag(FLAGS6502::N, v & 0x80 != 0);
        self.a = v;
        1
    }

    /// Compares the accumulator with the operand: carry when it is not below,
    /// zero when equal, negative from bit 7 of the difference.
    pub fn CMP(&mut self, bus: &mut Bus) -> (r: u8)
        requires
            old(bus).wf(),
        ensures
            r == 1,
            final(bus).wf(),
            Bus::keeps_raster(*old(bus), *final(bus)),
            fetch_effect(*old(self), *old(bus), *final(bus), final(self).fetched),
            ({
                let reg = old(self).a;
                let f = final(self).fetched;
                *final(self) == Cpu {
                    status: with_flag(with_flag(with_flag(old(self).status, FLAGS6502::C, reg >= f), FLAGS6502::Z, reg == f),
                        FLAGS6502::N, reg.wrapping_sub(f) & 0x80 != 0),
                    fetched: f,
                    ..*old(self)
                }
            }),
    {
        self.fetch(bus);
        let reg = self.a;
        let f = self.fetched;
        let temp = reg.wrapping_sub(f);
        self.set_flag(FLAGS6502::C, reg >= f);
        self.set_flag(FLAGS6502::Z, reg == f);
        self.set_flag(FLAGS6502::N, temp & 0x80 != 0);
        1
    }

    /// Compares X with the operand: carry when it is not below,
    /// zero when equal, negative from bit 7 of the difference.
    pub fn CPX(&mut self, bus: &mut Bus) -> (r: u8)
        requires
            old(bus).wf(),
        ensures
            r == 0,
            final(bus).wf(),
            Bus::keeps_raster(*old(bus), *final(bus)),
            fetch_effect(*old(self), *old(bus), *final(bus), final(self).fetched),
            ({
                let reg = old(self).x;
                let f = final(self).fetched;
                *final(self) == Cpu {
                    status: with_flag(with_flag(with_flag(old(self).status, FLAGS6502::C, reg >= f), FLAGS6502::Z, reg == f),
                        FLAGS6502::N, reg.wrapping_sub(f) & 0x80 != 0),
                    fetched: f,
                    ..*old(self)
                }
            }),
    {
        self.fetch(bus);
        let reg = self.x;
        let f = self.fetched;
        let temp = reg.wrapping_sub(f);
        self.set_flag(FLAGS6502::C, reg >= f);
        self.set_flag(FLAGS6502::Z, reg == f);
        self.set_flag(FLAGS6502::N, temp & 0x80 != 0);
        0
    }

    /// Compares Y with the operand: carry when it is not below,
    /// zero when equal, negative from bit 7 of the difference.
    pub fn CPY(&mut self, bus: &mut Bus) -> (r: u8)
        requires
            old(bus).wf(),
        ensures
            r == 0,
            final(bus).wf(),
            Bus::keeps_raster(*old(bus), *final(bus)),
            fetch_effect(*old(self), *old(bus), *final(bus), final(self).fetched),
            ({
                let reg = old(self).y;
                let f = final(self).fetched;
                *final(self) == Cpu {
                    status: with_flag(with_flag(with_flag(old(self).status, FLAGS6502::C, reg >= f), FLAGS6502::Z, reg == f),
                        FLAGS6502::N, reg.wrapping_sub(f) & 0x80 != 0),
                    fetched: f,
                    ..*old(self)
                }
            }),
    {
        self.fetch(bus);
        let reg = self.y;
        let f = self.fetched;
        let temp = reg.wrapping_sub(f);
        self.set_flag(FLAGS6502::C, reg >= f);
        self.set_flag(FLAGS6502::Z, reg == f);
        self.set_flag(FLAGS6502::N, temp & 0x80 != 0);
        0
    }

    /// Tests the operand: zero from the accumulator and the operand,
    /// overflow and negative from bits 6 and 7 of the operand.
    pub fn BIT(&mut self, bus: &mut Bus) -> (r: u8)
        requires
            old(bus).wf(),
        ensures
            r == 0,
            final(bus).wf(),
            Bus::keeps_raster(*old(bus), *final(bus)),
            fetch_effect(*old(self), *old(bus), *final(bus), final(self).fetched),
            ({
                let f = final(self).fetched;
                *final(self) == Cpu {
                    status: with_flag(with_flag(with_flag(old(self).status, FLAGS6502::Z, old(self).a & f == 0),
                        FLAGS6502::V, f & 0x40 != 0), FLAGS6502::N, f & 0x80 != 0),
                    fetched: f,
                    ..*old(self)
                }
            }),
    {
        self.fetch(bus);
        let f = self.fetched;
        let temp = self.a & f;
        self.set_flag(FLAGS6502::Z, temp == 0);
        self.set_flag(FLAGS6502::V, f & 0x40 != 0);
        self.set_flag(FLAGS6502::N, f & 0x80 != 0);
        0
    }

    /// Shifts left: the accumulator in implied mode, else the operand in
    /// memory, written back; sets carry, zero and negative.
    pub fn ASL(&mut self, bus: &mut Bus) -> (r: u8)
        requires
            old(bus).wf(),
        ensures
            r == 0,
            final(bus).wf(),
            Bus::keeps_raster(*old(bus), *final(bus)),
            ({
                let f = final(self).fetched;
                let (v, c) = asl_spec(f);
                let implied = instruction(old(self).opcode).addrmode == AddrMode::IMP;
                &&& Bus::quiet(old(self).addr_abs) || implied ==> fetch_effect(*old(self), *old(bus), *old(bus), f)
                    && store_effect(*old(self), *old(bus), *final(bus), v)
                &&& *final(self) == Cpu {
                    a: if implied { v } else { old(self).a },
                    status: with_flag(with_flag(with_flag(old(self).status, FLAGS6502::C, c), FLAGS6502::Z, v == 0),
                        FLAGS6502::N, v & 0x80 != 0),
                    fetched: f,
                    ..*old(self)
                }
            }),
    {
        self.fetch(bus);
        let f = self.fetched;
        let temp: u16 = (f as u16) * 2;
        let v = (temp % 256) as u8;
        let c = temp > 255;
        self.set_flag(FLAGS6502::C, c);
        self.set_flag(FLAGS6502::Z, v == 0);
        self.set_flag(FLAGS6502::N, v & 0x80 != 0);
        self.store_result(bus, v);
        0
    }

    /// Shifts right: the accumulator in implied mode, else the operand in
    /// memory, written back; sets carry, zero and negative.
    pub fn LSR(&mut self, bus: &mut Bus) -> (r: u8)
        requires
            old(bus).wf(),
        ensures
            r == 0,
            final(bus).wf(),
            Bus::keeps_raster(*old(bus), *final(bus)),
            ({
                let f = final(self).fetched;
                let (v, c) = lsr_spec(f);
                let implied = instruction(old(self).opcode).addrmode == AddrMode::IMP;
                &&& Bus::quiet(old(self).addr_abs) || implied ==> fetch_effect(*old(self), *old(bus), *old(bus), f)
                    && store_effect(*old(self), *old(bus), *final(bus), v)
                &&& *final(self) == Cpu {
                    a: if implied { v } else { old(self).a },
                    status: with_flag(with_flag(with_flag(old(self).status, FLAGS6502::C, c), FLAGS6502::Z, v == 0),
                        FLAGS6502::N, v & 0x80 != 0),
                    fetched: f,
                    ..*old(self)
                }
            }),
    {
        self.fetch(bus);
        let f = self.fetched;
        let v = f / 2;
        let c = f % 2 == 1;
        self.set_flag(FLAGS6502::C, c);
        self.set_flag(FLAGS6502::Z, v == 0);
        self.set_flag(FLAGS6502::N, v & 0x80 != 0);
        self.store_result(bus, v);
        0
    }

    /// Rotates left through the carry: the accumulator in implied mode, else the operand in
    /// memory, written back; sets carry, zero and negative.
    pub fn ROL(&mut self, bus: &mut Bus) -> (r: u8)
        requires
            old(bus).wf(),
        ensures
            r == 0,
            final(bus).wf(),
            Bus::keeps_raster(*old(bus), *final(bus)),
            ({
                let f = final(self).fetched;
                let (v, c) = rol_spec(f, has_flag(old(self).status, FLAGS6502::C));
                let implied = instruction(old(self).opcode).addrmode == AddrMode::IMP;
                &&& Bus::quiet(old(self).addr_abs) || implied ==> fetch_effect(*old(self), *old(bus), *old(bus), f)
                    && store_effect(*old(self), *old(bus), *final(bus), v)
                &&& *final(self) == Cpu {
                    a: if implied { v } else { old(self).a },
                    status: with_flag(with_flag(with_flag(old(self).status, FLAGS6502::C, c), FLAGS6502::Z, v == 0),
                        FLAGS6502::N, v & 0x80 != 0),
                    fetched: f,
                    ..*old(self)
                }
            }),
    {
        self.fetch(bus);
        let f = self.fetched;
        let cin: u16 = self.get_flag(FLAGS6502::C) as u16;
        let temp: u16 = (f as u16) * 2 + cin;
        let v = (temp % 256) as u8;
        let c = f >= 128;
        self.set_flag(FLAGS6502::C, c);
        self.set_flag(FLAGS6502::Z, v == 0);
        self.set_flag(FLAGS6502::N, v & 0x80 != 0);
        self.store_result(bus, v);
        0
    }

    /// Rotates right through the carry: the accumulator in implied mode, else the operand in
    /// memory, written back; sets carry, zero and negative.
    pub fn ROR(&mut self, bus: &mut Bus) -> (r: u8)
        requires
            old(bus).wf(),
        ensures
            r == 0,
            final(bus).wf(),
            Bus::keeps_raster(*old(bus), *final(bus)),
            ({
                let f = final(self).fetched;
                let (v, c) = ror_spec(f, has_flag(old(self).status, FLAGS6502::C));
                let implied = instruction(old(self).opcode).addrmode == AddrMode::IMP;
                &&& Bus::quiet(old(self).addr_abs) || implied ==> fetch_effect(*old(self), *old(bus), *old(bus), f)
                    && store_effect(*old(self), *old(bus), *final(bus), v)
                &&& *final(self) == Cpu {
                    a: if implied { v } else { old(self).a },
                    status: with_flag(with_flag(with_flag(old(self).status, FLAGS6502::C, c), FLAGS6502::Z, v == 0),
                        FLAGS6502::N, v & 0x80 != 0),
                    fetched: f,
                    ..*old(self)
                }
            }),
    {
        self.fetch(bus);
        let f = self.fetched;
        let cin: u8 = self.get_flag(FLAGS6502::C);
        let v = f / 2 + cin * 128;
        let c = f % 2 == 1;
        self.set_flag(FLAGS6502::C, c);
        self.set_flag(FLAGS6502::Z, v == 0);
        self.set_flag(FLAGS6502::N, v & 0x80 != 0);
        self.store_result(bus, v);
        0
    }

    /// Increments the operand in memory; sets zero and negative.
    pub fn INC(&mut self, bus: &mut Bus) -> (r: u8)
        requires
            old(bus).wf(),
        ensures
            r == 0,
            final(bus).wf(),
            Bus::keeps_raster(*old(bus), *final(bus)),
            ({
                let f = final(self).fetched;
                let v = f.wrapping_add(1);
                &&& Bus::quiet(old(self).addr_abs) ==> fetch_effect(*old(self), *old(bus), *old(bus), f)
                    && Bus::write_effect(*old(bus), *final(bus), old(self).addr_abs, v)
                &&& *final(self) == Cpu { status: with_zn(old(self).status, v), fetched: f, ..*old(self) }
            }),
    {
        self.fetch(bus);
        let f = self.fetched;
        let v = f.wrapping_add(1);
        self.write(bus, self.addr_abs, v);
        self.set_zn(v);
        0
    }

    /// Decrements the operand in memory; sets zero and negative.
    pub fn DEC(&mut self, bus: &mut Bus) -> (r: u8)
        requires
            old(bus).wf(),
        ensures
            r == 0,
            final(bus).wf(),
            Bus::keeps_raster(*old(bus), *final(bus)),
            ({
                let f = final(self).fetched;
                let v = f.wrapping_sub(1);
                &&& Bus::quiet(old(self).addr_abs) ==> fetch_effect(*old(self), *old(bus), *old(bus), f)
                    && Bus::write_effect(*old(bus), *final(bus), old(self).addr_abs, v)
                &&& *final(self) == Cpu { status: with_zn(old(self).status, v), fetched: f, ..*old(self) }
            }),
    {
        self.fetch(bus);
        let f = self.fetched;
        let v = f.wrapping_sub(1);
        self.write(bus, self.addr_abs, v);
        self.set_zn(v);
        0
    }

    /// Increments X; sets zero and negative.
    pub fn INX(&mut self, bus: &mut Bus) -> (r: u8)
        ensures
            r == 0,
            *final(bus) == *old(bus),
            (*final(self) == Cpu { x: old(self).x.wrapping_add(1), status: with_zn(old(self).status, old(self).x.wrapping_add(1)), ..*old(self) }),
    {
        self.x = self.x.wrapping_add(1);
        let v = self.x;
        self.set_zn(v);
        0
    }

    /// Increments Y; sets zero and negative.
    pub fn INY(&mut self, bus: &mut Bus) -> (r: u8)
        ensures
            r == 0,
            *final(bus) == *old(bus),
            (*final(self) == Cpu { y: old(self).y.wrapping_add(1), status: with_zn(old(self).status, old(self).y.wrapping_add(1)), ..*old(self) }),
    {
        self.y = self.y.wrapping_add(1);
        let v = self.y;
        self.set_zn(v);
        0
    }

    /// Decrements X; sets zero and negative.
    pub fn DEX(&mut self, bus: &mut Bus) -> (r: u8)
        ensures
            r == 0,
            *final(bus) == *old(bus),
            (*final(self) == Cpu { x: old(self).x.wrapping_sub(1), status: with_zn(old(self).status, old(self).x.wrapping_sub(1)), ..*old(self) }),
    {
        self.x = self.x.wrapping_sub(1);
        let v = self.x;
        self.set_zn(v);
        0
    }

    /// Decrements Y; sets zero and negative.
    pub fn DEY(&mut self, bus: &mut Bus) -> (r: u8)
        ensures
            r == 0,
            *final(bus) == *old(bus),
            (*final(self) == Cpu { y: old(self).y.wrapping_sub(1), status: with_zn(old(self).status, old(self).y.wrapping_sub(1)), ..*old(self) }),
    {
        self.y = self.y.wrapping_sub(1);
        let v = self.y;
        self.set_zn(v);
        0
    }

    /// Copies the accumulator to X; sets zero and negative.
    pub fn TAX(&mut self, bus: &mut Bus) -> (r: u8)
        ensures
            r == 0,
            *final(bus) == *old(bus),
            (*final(self) == Cpu { x: old(self).a, status: with_zn(old(self).status, old(self).a), ..*old(self) }),
    {
        self.x = self.a;
        let v = self.x;
        self.set_zn(v);
        0
    }

    /// Copies the accumulator to Y; sets zero and negative.
    pub fn TAY(&mut self, bus: &mut Bus) -> (r: u8)
        ensures
            r == 0,
            *final(bus) == *old(bus),
            (*final(self) == Cpu { y: old(self).a, status: with_zn(old(self).status, old(self).a), ..*old(self) }),
    {
        self.y = self.a;
        let v = self.y;
        self.set_zn(v);
        0
    }

    /// Copies the stack pointer to X; sets zero and negative.
    pub fn TSX(&mut self, bus: &mut Bus) -> (r: u8)
        ensures
            r == 0,
            *final(bus) == *old(bus),
            (*final(self) == Cpu { x: old(self).stkp, status: with_zn(old(self).status, old(self).stkp), ..*old(self) }),
    {
        self.x = self.stkp;
        let v = self.x;
        self.set_zn(v);
        0
    }

    /// Copies X to the accumulator; sets zero and negative.
    pub fn TXA(&mut self, bus: &mut Bus) -> (r: u8)
        ensures
            r == 0,
            *final(bus) == *old(bus),
            (*final(self) == Cpu { a: old(self).x, status: with_zn(old(self).status, old(self).x), ..*old(self) }),
    {
        self.a = self.x;
        let v = self.a;
        self.set_zn(v);
        0
    }

    /// Copies Y to the accumulator; sets zero and negative.
    pub fn TYA(&mut self, bus: &mut Bus) -> (r: u8)
        ensures
            r == 0,
            *final(bus) == *old(bus),
            (*final(self) == Cpu { a: old(self).y, status: with_zn(old(self).status, old(self).y), ..*old(self) }),
    {
        self.a = self.y;
        let v = self.a;
        self.set_zn(v);
        0
    }

    /// Copies X to the stack pointer.
    pub fn TXS(&mut self, bus: &mut Bus) -> (r: u8)
        ensures
            r == 0,
            *final(bus) == *old(bus),
            (*final(self) == Cpu { stkp: old(self).x, ..*old(self) }),
    {
        self.stkp = self.x;
        0
    }

    /// Clears carry.
    pub fn CLC(&mut self, bus: &mut Bus) -> (r: u8)
        ensures
            r == 0,
            *final(bus) == *old(bus),
            (*final(self) == Cpu { status: with_flag(old(self).status, FLAGS6502::C, false), ..*old(self) }),
    {
        self.set_flag(FLAGS6502::C, false);
        0
    }

    /// Clears decimal.
    pub fn CLD(&mut self, bus: &mut Bus) -> (r: u8)
        ensures
            r == 0,
            *final(bus) == *old(bus),
            (*final(self) == Cpu { status: with_flag(old(self).status, FLAGS6502::D, false), ..*old(self) }),
    {
        self.set_flag(FLAGS6502::D, false);
        0
    }

    /// Clears interrupt disable.
    pub fn CLI(&mut self, bus: &mut Bus) -> (r: u8)
        ensures
            r == 0,
            *final(bus) == *old(bus),
            (*final(self) == Cpu { status: with_flag(old(self).status, FLAGS6502::I, false), ..*old(self) }),
    {
        self.set_flag(FLAGS6502::I, false);
        0
    }

    /// Clears overflow.
    pub fn CLV(&mut self, bus: &mut Bus) -> (r: u8)
        ensures
            r == 0,
            *final(bus) == *old(bus),
            (*final(self) == Cpu { status: with_flag(old(self).status, FLAGS6502::V, false), ..*old(self) }),
    {
        self.set_flag(FLAGS6502::V, false);
        0
    }

    /// Sets carry.
    pub fn SEC(&mut self, bus: &mut Bus) -> (r: u8)
        ensures
            r == 0,
            *final(bus) == *old(bus),
            (*final(self) == Cpu { status: with_flag(old(self).status, FLAGS6502::C, true), ..*old(self) }),
    {
        self.set_flag(FLAGS6502::C, true);
        0
    }

    /// Sets decimal.
    pub fn SED(&mut self, bus: &mut Bus) -> (r: u8)
        ensures
            r == 0,
            *final(bus) == *old(bus),
            (*final(self) == Cpu { status: with_flag(old(self).status, FLAGS6502::D, true), ..*old(self) }),
    {
        self.set_flag(FLAGS6502::D, true);
        0
    }

    /// Sets interrupt disable.
    pub fn SEI(&mut self, bus: &mut Bus) -> (r: u8)
        ensures
            r == 0,
            *final(bus) == *old(bus),
            (*final(self) == Cpu { status: with_flag(old(self).status, FLAGS6502::I, true), ..*old(self) }),
    {
        self.set_flag(FLAGS6502::I, true);
        0
    }

    /// Branches when carry is clear.
    pub fn BCC(&mut self, bus: &mut Bus) -> (r: u8)
        requires
            old(self).cycles <= 8,
        ensures
            r == 0,
            *final(bus) == *old(bus),
            !(!has_flag(old(self).status, FLAGS6502::C)) ==> *final(self) == *old(self),
            !has_flag(old(self).status, FLAGS6502::C) ==> (*final(self) == Cpu {
                pc: branch_spec(old(self).pc, old(self).addr_rel).0,
                addr_abs: branch_spec(old(self).pc, old(self).addr_rel).0,
                cycles: (old(self).cycles + branch_spec(old(self).pc, old(self).addr_rel).1) as u8,
                ..*old(self)
            }),
    {
        let flag = self.get_flag(FLAGS6502::C) == 0;
        self.branchrel(flag);
        0
    }

    /// Branches when carry is set.
    pub fn BCS(&mut self, bus: &mut Bus) -> (r: u8)
        requires
            old(self).cycles <= 8,
        ensures
            r == 0,
            *final(bus) == *old(bus),
            !(has_flag(old(self).status, FLAGS6502::C)) ==> *final(self) == *old(self),
            has_flag(old(self).status, FLAGS6502::C) ==> (*final(self) == Cpu {
                pc: branch_spec(old(self).pc, old(self).addr_rel).0,
                addr_abs: branch_spec(old(self).pc, old(self).addr_rel).0,
                cycles: (old(self).cycles + branch_spec(old(self).pc, old(self).addr_rel).1) as u8,
                ..*old(self)
            }),
    {
        let flag = self.get_flag(FLAGS6502::C) == 1;
        self.branchrel(flag);
        0
    }

    /// Branches when zero is set.
    pub fn BEQ(&mut self, bus: &mut Bus) -> (r: u8)
        requires
            old(self).cycles <= 8,
        ensures
            r == 0,
            *final(bus) == *old(bus),
            !(has_flag(old(self).status, FLAGS6502::Z)) ==> *final(self) == *old(self),
            has_flag(old(self).status, FLAGS6502::Z) ==> (*final(self) == Cpu {
                pc: branch_spec(old(self).pc, old(self).addr_rel).0,
                addr_abs: branch_spec(old(self).pc, old(self).addr_rel).0,
                cycles: (old(self).cycles + branch_spec(old(self).pc, old(self).addr_rel).1) as u8,
                ..*old(self)
            }),
    {
        let flag = self.get_flag(FLAGS6502::Z) == 1;
        self.branchrel(flag);
        0
    }

    /// Branches when zero is clear.
    pub fn BNE(&mut self, bus: &mut Bus) -> (r: u8)
        requires
            old(self).cycles <= 8,
        ensures
            r == 0,
            *final(bus) == *old(bus),
            !(!has_flag(old(self).status, FLAGS6502::Z)) ==> *final(self) == *old(self),
            !has_flag(old(self).status, FLAGS6502::Z) ==> (*final(self) == Cpu {
                pc: branch_spec(old(self).pc, old(self).addr_rel).0,
                addr_abs: branch_spec(old(self).pc, old(self).addr_rel).0,
                cycles: (old(self).cycles + branch_spec(old(self).pc, old(self).addr_rel).1) as u8,
                ..*old(self)
            }),
    {
        let flag = self.get_flag(FLAGS6502::Z) == 0;
        self.branchrel(flag);
        0
    }

    /// Branches when negative is set.
    pub fn BMI(&mut self, bus: &mut Bus) -> (r: u8)
        requires
            old(self).cycles <= 8,
        ensures
            r == 0,
            *final(bus) == *old(bus),
            !(has_flag(old(self).status, FLAGS6502::N)) ==> *final(self) == *old(self),
            has_flag(old(self).status, FLAGS6502::N) ==> (*final(self) == Cpu {
                pc: branch_spec(old(self).pc, old(self).addr_rel).0,
                addr_abs: branch_spec(old(self).pc, old(self).addr_rel).0,
                cycles: (old(self).cycles + branch_spec(old(self).pc, old(self).addr_rel).1) as u8,
                ..*old(self)
            }),
    {
        let flag = self.get_flag(FLAGS6502::N) == 1;
        self.branchrel(flag);
        0
    }

    /// Branches when negative is clear.
    pub fn BPL(&mut self, bus: &mut Bus) -> (r: u8)
        requires
            old(self).cycles <= 8,
        ensures
            r == 0,
            *final(bus) == *old(bus),
            !(!has_flag(old(self).status, FLAGS6502::N)) ==> *final(self) == *old(self),
            !has_flag(old(self).status, FLAGS6502::N) ==> (*final(self) == Cpu {
                pc: branch_spec(old(self).pc, old(self).addr_rel).0,
                addr_abs: branch_spec(old(self).pc, old(self).addr_rel).0,
                cycles: (old(self).cycles + branch_spec(old(self).pc, old(self).addr_rel).1) as u8,
                ..*old(self)
            }),
    {
        let flag = self.get_flag(FLAGS6502::N) == 0;
        self.branchrel(flag);
        0
    }

    /// Branches when overflow is set.
    pub fn BVS(&mut self, bus: &mut Bus) -> (r: u8)
        requires
            old(self).cycles <= 8,
        ensures
            r == 0,
            *final(bus) == *old(bus),
            !(has_flag(old(self).status, FLAGS6502::V)) ==> *final(self) == *old(self),
            has_flag(old(self).status, FLAGS6502::V) ==> (*final(self) == Cpu {
                pc: branch_spec(old(self).pc, old(self).addr_rel).0,
                addr_abs: branch_spec(old(self).pc, old(self).addr_rel).0,
                cycles: (old(self).cycles + branch_spec(old(self).pc, old(self).addr_rel).1) as u8,
                ..*old(self)
            }),
    {
        let flag = self.get_flag(FLAGS6502::V) == 1;
        self.branchrel(flag);
        0
    }

    /// Branches when overflow is clear.
    pub fn BVC(&mut self, bus: &mut Bus) -> (r: u8)
        requires
            old(self).cycles <= 8,
        ensures
            r == 0,
            *final(bus) == *old(bus),
            !(!has_flag(old(self).status, FLAGS6502::V)) ==> *final(self) == *old(self),
            !has_flag(old(self).status, FLAGS6502::V) ==> (*final(self) == Cpu {
                pc: branch_spec(old(self).pc, old(self).addr_rel).0,
                addr_abs: branch_spec(old(self).pc, old(self).addr_rel).0,
                cycles: (old(self).cycles + branch_spec(old(self).pc, old(self).addr_rel).1) as u8,
                ..*old(self)
            }),
    {
        let flag = self.get_flag(FLAGS6502::V) == 0;
        self.branchrel(flag);
        0
    }

    /// Stores the accumulator at the effective address.
    pub fn STA(&mut self, bus: &mut Bus) -> (r: u8)
        requires
            old(bus).wf(),
        ensures
            r == 0,
            final(bus).wf(),
            Bus::keeps_raster(*old(bus), *final(bus)),
            Bus::write_effect(*old(bus), *final(bus), old(self).addr_abs, old(self).a),
            *final(self) == *old(self),
    {
        self.write(bus, self.addr_abs, self.a);
        0
    }

    /// Stores X at the effective address.
    pub fn STX(&mut self, bus: &mut Bus) -> (r: u8)
        requires
            old(bus).wf(),
        ensures
            r == 0,
            final(bus).wf(),
            Bus::keeps_raster(*old(bus), *final(bus)),
            Bus::write_effect(*old(bus), *final(bus), old(self).addr_abs, old(self).x),
            *final(self) == *old(self),
    {
        self.write(bus, self.addr_abs, self.x);
        0
    }

    /// Stores Y at the effective address.
    pub fn STY(&mut self, bus: &mut Bus) -> (r: u8)
        requires
            old(bus).wf(),
        ensures
            r == 0,
            final(bus).wf(),
            Bus::keeps_raster(*old(bus), *final(bus)),
            Bus::write_effect(*old(bus), *final(bus), old(self).addr_abs, old(self).y),
            *final(self) == *old(self),
    {
        self.write(bus, self.addr_abs, self.y);
        0
    }

    /// Jumps to the effective address.
    pub fn JMP(&mut self, bus: &mut Bus) -> (r: u8)
        ensures
            r == 0,
            *final(bus) == *old(bus),
            (*final(self) == Cpu { pc: old(self).addr_abs, ..*old(self) }),
    {
        self.pc = self.addr_abs;
        0
    }

    /// Calls a subroutine: pushes the address of the call's last byte,
    /// high byte first, and jumps to the effective address.
    pub fn JSR(&mut self, bus: &mut Bus) -> (r: u8)
        requires
            old(bus).wf(),
        ensures
            r == 0,
            final(bus).wf(),
            Bus::keeps_raster(*old(bus), *final(bus)),
            ({
                let p = old(self).pc.wrapping_sub(1);
                let sp = old(self).stkp;
                &&& *final(bus) == Bus { cpu_ram: final(bus).cpu_ram, ..*old(bus) }
                &&& final(bus).cpu_ram@ == old(bus).cpu_ram@.update(stack_addr(sp) as int, (p / 256) as u8)
                    .update(stack_addr(sp.wrapping_sub(1)) as int, (p % 256) as u8)
                &&& *final(self) == Cpu { pc: old(self).addr_abs, stkp: sp.wrapping_sub(2), ..*old(self) }
            }),
    {
        self.pc = self.pc.wrapping_sub(1);
        let p = self.pc;
        proof {
            lemma_low_bits(p);
        }
        self.push_to_stack(bus, ((p >> 8u16) & 0x00FF) as u8);
        self.push_to_stack(bus, (p & 0x00FF) as u8);
        self.pc = self.addr_abs;
        0
    }

    /// Returns from a subroutine: pops the return address, low byte
    /// first, and continues after it.
    pub fn RTS(&mut self, bus: &mut Bus) -> (r: u8)
        requires
            old(bus).wf(),
        ensures
            r == 0,
            *final(bus) == *old(bus),
            ({
                let sp = old(self).stkp;
                let ram = old(bus).cpu_ram@;
                let lo = ram[stack_addr(sp.wrapping_add(1)) as int];
                let hi = ram[stack_addr(sp.wrapping_add(2)) as int];
                *final(self) == Cpu { pc: word(lo, hi).wrapping_add(1), stkp: sp.wrapping_add(2), ..*old(self) }
            }),
    {
        let lo = self.pop_from_stack(bus) as u16;
        let hi = self.pop_from_stack(bus) as u16;
        proof {
            lemma_word(lo as u8, hi as u8);
        }
        self.pc = (hi << 8u16) | lo;
        self.pc = self.pc.wrapping_add(1);
        0
    }

    /// Returns from an interrupt: pops the status (break and unused
    /// cleared), then the program counter, low byte first.
    pub fn RTI(&mut self, bus: &mut Bus) -> (r: u8)
        requires
            old(bus).wf(),
        ensures
            r == 0,
            *final(bus) == *old(bus),
            ({
                let sp = old(self).stkp;
                let ram = old(bus).cpu_ram@;
                let st = ram[stack_addr(sp.wrapping_add(1)) as int];
                let lo = ram[stack_addr(sp.wrapping_add(2)) as int];
                let hi = ram[stack_addr(sp.wrapping_add(3)) as int];
                *final(self) == Cpu {
                    status: with_flag(with_flag(st, FLAGS6502::B, false), FLAGS6502::U, false),
                    pc: word(lo, hi),
                    stkp: sp.wrapping_add(3),
                    ..*old(self)
                }
            }),
    {
        self.status = self.pop_from_stack(bus);
        self.set_flag(FLAGS6502::B, false);
        self.set_flag(FLAGS6502::U, false);
        let lo = self.pop_from_stack(bus) as u16;
        let hi = self.pop_from_stack(bus) as u16;
        proof {
            lemma_word(lo as u8, hi as u8);
        }
        self.pc = (hi << 8u16) | lo;
        0
    }

    /// Pushes the accumulator.
    pub fn PHA(&mut self, bus: &mut Bus) -> (r: u8)
        requires
            old(bus).wf(),
        ensures
            r == 0,
            final(bus).wf(),
            Bus::keeps_raster(*old(bus), *final(bus)),
            (*final(bus) == Bus { cpu_ram: final(bus).cpu_ram, ..*old(bus) }),
            final(bus).cpu_ram@ == old(bus).cpu_ram@.update(stack_addr(old(self).stkp) as int, old(self).a),
            (*final(self) == Cpu { stkp: old(self).stkp.wrapping_sub(1), ..*old(self) }),
    {
        let a = self.a;
        self.push_to_stack(bus, a);
        0
    }

    /// Pushes the status with break and unused set, then clears both.
    pub fn PHP(&mut self, bus: &mut Bus) -> (r: u8)
        requires
            old(bus).wf(),
        ensures
            r == 0,
            final(bus).wf(),
            Bus::keeps_raster(*old(bus), *final(bus)),
            (*final(bus) == Bus { cpu_ram: final(bus).cpu_ram, ..*old(bus) }),
            final(bus).cpu_ram@ == old(bus).cpu_ram@.update(stack_addr(old(self).stkp) as int,
                with_flag(with_flag(old(self).status, FLAGS6502::B, true), FLAGS6502::U, true)),
            (*final(self) == Cpu {
                stkp: old(self).stkp.wrapping_sub(1),
                status: with_flag(with_flag(old(self).status, FLAGS6502::B, false), FLAGS6502::U, false),
                ..*old(self)
            }),
    {
        let s = self.status | mask_of(FLAGS6502::B) | mask_of(FLAGS6502::U);
        proof {
            let st = self.status;
            assert(st | 0x10 | 0x20 == (st | 0x10) | 0x20);
        }
        self.push_to_stack(bus, s);
        self.set_flag(FLAGS6502::B, false);
        self.set_flag(FLAGS6502::U, false);
        0
    }

    /// Pops the accumulator; sets zero and negative.
    pub fn PLA(&mut self, bus: &mut Bus) -> (r: u8)
        requires
            old(bus).wf(),
        ensures
            r == 0,
            *final(bus) == *old(bus),
            ({
                let v = old(bus).cpu_ram@[stack_addr(old(self).stkp.wrapping_add(1)) as int];
                *final(self) == Cpu { a: v, status: with_zn(old(self).status, v), stkp: old(self).stkp.wrapping_add(1), ..*old(self) }
            }),
    {
        self.a = self.pop_from_stack(bus);
        let v = self.a;
        self.set_zn(v);
        0
    }

    /// Pops the status, with unused set.
    pub fn PLP(&mut self, bus: &mut Bus) -> (r: u8)
        requires
            old(bus).wf(),
        ensures
            r == 0,
            *final(bus) == *old(bus),
            ({
                let v = old(bus).cpu_ram@[stack_addr(old(self).stkp.wrapping_add(1)) as int];
                *final(self) == Cpu { status: with_flag(v, FLAGS6502::U, true), stkp: old(self).stkp.wrapping_add(1), ..*old(self) }
            }),
    {
        self.status = self.pop_from_stack(bus);
        self.set_flag(FLAGS6502::U, true);
        0
    }

    /// Pushes the program counter, high byte first, then `status`, and
    /// loads the program counter from the vector at `vector`.
    fn interrupt_to(&mut self, bus: &mut Bus, status: u8, vector: u16)
        requires
            old(bus).wf(),
            vector >= 0x4018,
            vector < 0xFFFF,
        ensures
            final(bus).wf(),
            Bus::keeps_raster(*old(bus), *final(bus)),
            ({
                let p = old(self).pc;
                let sp = old(self).stkp;
                &&& *final(bus) == Bus { cpu_ram: final(bus).cpu_ram, ..*old(bus) }
                &&& final(bus).cpu_ram@ == old(bus).cpu_ram@.update(stack_addr(sp) as int, (p / 256) as u8)
                    .update(stack_addr(sp.wrapping_sub(1)) as int, (p % 256) as u8)
                    .update(stack_addr(sp.wrapping_sub(2)) as int, status)
                &&& *final(self) == Cpu {
                    pc: word(old(bus).peek(vector), old(bus).peek((vector + 1) as u16)),
                    stkp: sp.wrapping_sub(3),
                    ..*old(self)
                }
            }),
    {
        let p = self.pc;
        proof {
            lemma_low_bits(p);
        }
        self.push_to_stack(bus, ((p >> 8u16) & 0x00FF) as u8);
        self.push_to_stack(bus, (p & 0x00FF) as u8);
        self.push_to_stack(bus, status);
        let lo = self.read(bus, vector, false) as u16;
        let hi = self.read(bus, vector + 1, false) as u16;
        proof {
            lemma_word(lo as u8, hi as u8);
        }
        self.pc = (hi << 8u16) | lo;
    }

    /// Software interrupt: skips a byte, sets interrupt disable, pushes the
    /// program counter and the status with break set, and jumps through the
    /// vector at 0xFFFE.
    pub fn BRK(&mut self, bus: &mut Bus) -> (r: u8)
        requires
            old(bus).wf(),
        ensures
            r == 0,
            final(bus).wf(),
            Bus::keeps_raster(*old(bus), *final(bus)),
            ({
                let p = old(self).pc.wrapping_add(1);
                let sp = old(self).stkp;
                let s1 = with_flag(old(self).status, FLAGS6502::I, true);
                let pushed = with_flag(s1, FLAGS6502::B, true);
                &&& *final(bus) == Bus { cpu_ram: final(bus).cpu_ram, ..*old(bus) }
                &&& final(bus).cpu_ram@ == old(bus).cpu_ram@.update(stack_addr(sp) as int, (p / 256) as u8)
                    .update(stack_addr(sp.wrapping_sub(1)) as int, (p % 256) as u8)
                    .update(stack_addr(sp.wrapping_sub(2)) as int, pushed)
                &&& *final(self) == Cpu {
                    pc: word(old(bus).peek(0xFFFE), old(bus).peek(0xFFFF)),
                    stkp: sp.wrapping_sub(3),
                    status: with_flag(pushed, FLAGS6502::B, false),
                    ..*old(self)
                }
            }),
    {
        self.pc = self.pc.wrapping_add(1);
        self.set_flag(FLAGS6502::I, true);
        self.set_flag(FLAGS6502::B, true);
        let s = self.status;
        self.interrupt_to(bus, s, 0xFFFE);
        self.set_flag(FLAGS6502::B, false);
        0
    }

    /// No operation; the absolute-X forms take the page-crossing cycle.
    pub fn NOP(&mut self, bus: &mut Bus) -> (r: u8)
        ensures
            r == (if old(self).opcode == 0x1C || old(self).opcode == 0x3C || old(self).opcode == 0x5C
                || old(self).opcode == 0x7C || old(self).opcode == 0xDC || old(self).opcode == 0xFC { 1u8 } else { 0u8 }),
            *final(bus) == *old(bus),
            *final(self) == *old(self),
    {
        let op = self.opcode;
        if op == 0x1C || op == 0x3C || op == 0x5C || op == 0x7C || op == 0xDC || op == 0xFC {
            1
        } else {
            0
        }
    }

    /// An opcode without a documented operation: does nothing.
    pub fn XXX(&mut self, bus: &mut Bus) -> (r: u8)
        ensures
            r == 0,
            *final(bus) == *old(bus),
            *final(self) == *old(self),
    {
        0
    }

    /// The status that an interrupt pushes: break clear, unused and
    /// interrupt disable set.
    pub open spec fn interrupt_status(s: u8) -> u8 {
        with_flag(with_flag(with_flag(s, FLAGS6502::B, false), FLAGS6502::U, true), FLAGS6502::I, true)
    }

    /// Maskable interrupt, taken only while interrupt disable is clear:
    /// pushes the program counter and status and jumps through the vector
    /// at 0xFFFE; the entry takes 7 cycles.
    pub fn irq(&mut self, bus: &mut Bus)
        requires
            old(bus).wf(),
        ensures
            final(bus).wf(),
            Bus::keeps_raster(*old(bus), *final(bus)),
            has_flag(old(self).status, FLAGS6502::I) ==> *final(self) == *old(self) && *final(bus) == *old(bus),
            !has_flag(old(self).status, FLAGS6502::I) ==> ({
                let p = old(self).pc;
                let sp = old(self).stkp;
                let s = Cpu::interrupt_status(old(self).status);
                &&& *final(bus) == Bus { cpu_ram: final(bus).cpu_ram, ..*old(bus) }
                &&& final(bus).cpu_ram@ == old(bus).cpu_ram@.update(stack_addr(sp) as int, (p / 256) as u8)
                    .update(stack_addr(sp.wrapping_sub(1)) as int, (p % 256) as u8)
                    .update(stack_addr(sp.wrapping_sub(2)) as int, s)
                &&& *final(self) == Cpu {
                    pc: word(old(bus).peek(0xFFFE), old(bus).peek(0xFFFF)),
                    stkp: sp.wrapping_sub(3),
                    status: s,
                    addr_abs: 0xFFFE,
                    cycles: 7,
                    ..*old(self)
                }
            }),
    {
        if self.get_flag(FLAGS6502::I) == 0 {
            self.set_flag(FLAGS6502::B, false);
            self.set_flag(FLAGS6502::U, true);
            self.set_flag(FLAGS6502::I, true);
            let s = self.status;
            self.interrupt_to(bus, s, 0xFFFE);
            self.addr_abs = 0xFFFE;
            self.cycles = 7;
        }
    }

    /// What a non-maskable interrupt does, from CPU `c0` and bus `b0` to
    /// `c1` and `b1`; see `nmi`.
    pub open spec fn nmi_effect(c0: Cpu, b0: Bus, c1: Cpu, b1: Bus) -> bool {
        ({
            let p = c0.pc;
            let sp = c0.stkp;
            let s = Cpu::interrupt_status(c0.status);
            &&& b1 == Bus { cpu_ram: b1.cpu_ram, ..b0 }
            &&& b1.cpu_ram@ == b0.cpu_ram@.update(stack_addr(sp) as int, (p / 256) as u8)
                .update(stack_addr(sp.wrapping_sub(1)) as int, (p % 256) as u8)
                .update(stack_addr(sp.wrapping_sub(2)) as int, s)
            &&& c1 == Cpu {
                pc: word(b0.peek(0xFFFA), b0.peek(0xFFFB)),
                stkp: sp.wrapping_sub(3),
                status: s,
                addr_abs: 0xFFFA,
                cycles: 8,
                ..c0
            }
        })
    }

    /// Non-maskable interrupt: pushes the program counter and status and
    /// jumps through the vector at 0xFFFA; the entry takes 8 cycles.
    pub fn nmi(&mut self, bus: &mut Bus)
        requires
            old(bus).wf(),
        ensures
            final(bus).wf(),
            Cpu::nmi_effect(*old(self), *old(bus), *final(self), *final(bus)),
    {
        self.set_flag(FLAGS6502::B, false);
        self.set_flag(FLAGS6502::U, true);
        self.set_flag(FLAGS6502::I, true);
        let s = self.status;
        self.interrupt_to(bus, s, 0xFFFA);
        self.addr_abs = 0xFFFA;
        self.cycles = 8;
    }

    /// Resets: the program counter from the vector at 0xFFFC (low byte)
    /// and 0xFFFD, A, X and Y cleared, stack pointer 0xFD, status only the
    /// unused bit, 8 cycles to wait; the bus resets too.
    pub fn reset(&mut self, bus: &mut Bus)
        requires
            old(bus).wf(),
        ensures
            final(bus).wf(),
            final(self).pc == word(old(bus).peek(0xFFFC), old(bus).peek(0xFFFD)),
            final(self).stkp == 0xFD,
            final(self).status == flag_mask(FLAGS6502::U),
            final(self).a == 0 && final(self).x == 0 && final(self).y == 0,
            final(self).cycles == 8,
            final(self).addr_abs == 0 && final(self).addr_rel == 0 && final(self).fetched == 0,
            final(self).opcode == old(self).opcode,
            final(self).clock_count == old(self).clock_count,
            final(bus).cpu_ram == old(bus).cpu_ram,
            final(bus).cart == old(bus).cart,
            final(bus).dma_dummy && !final(bus).dma_transfer,
            final(bus).ppu.scan_line == 0 && final(bus).ppu.cycle == 0,
    {
        self.addr_abs = 0xFFFC;
        let lo = self.read(bus, 0xFFFC, false);
        let hi = self.read(bus, 0xFFFD, false);
        proof {
            lemma_word(lo, hi);
        }
        self.pc = ((hi as u16) << 8u16) | (lo as u16);
        self.a = 0;
        self.x = 0;
        self.y = 0;
        self.stkp = 0xFD;
        self.status = mask_of(FLAGS6502::U);
        self.addr_abs = 0;
        self.addr_rel = 0;
        self.fetched = 0;
        self.cycles = 8;
        bus.reset();
    }

    /// What addressing mode `mode` does, from CPU `c0` and bus `b0` to
    /// `c1` and `b1`, returning `r`: the contract of that mode's function.
    pub open spec fn mode_effect(mode: AddrMode, c0: Cpu, b0: Bus, c1: Cpu, b1: Bus, r: u8) -> bool {
        match mode {
            AddrMode::IMP => {
                &&& r == 0
                &&& b1 == b0
                &&& (c1 == Cpu { fetched: c0.a, ..c0 })
            },
            AddrMode::IMM => {
                &&& r == 0
                &&& b1 == b0
                &&& (c1 == Cpu { addr_abs: c0.pc, pc: c0.pc.wrapping_add(1), ..c0 })
            },
            AddrMode::ZP0 => {
                &&& r == 0
                &&& Bus::keeps_raster(b0, b1)
                &&& (c1 == Cpu { addr_abs: c1.addr_abs, pc: c0.pc.wrapping_add(1), ..c0 })
                &&& c1.addr_abs < 256
                &&& Bus::read_effect(b0, b1, c0.pc, false, c1.addr_abs as u8)
            },
            AddrMode::ZPX => {
                &&& r == 0
                &&& Bus::keeps_raster(b0, b1)
                &&& (c1 == Cpu { addr_abs: c1.addr_abs, pc: c0.pc.wrapping_add(1), ..c0 })
                &&& exists|t: u8| #[trigger] Bus::read_effect(b0, b1, c0.pc, false, t)
                    && c1.addr_abs == (t + c0.x) % 256
            },
            AddrMode::ZPY => {
                &&& r == 0
                &&& Bus::keeps_raster(b0, b1)
                &&& (c1 == Cpu { addr_abs: c1.addr_abs, pc: c0.pc.wrapping_add(1), ..c0 })
                &&& exists|t: u8| #[trigger] Bus::read_effect(b0, b1, c0.pc, false, t)
                    && c1.addr_abs == (t + c0.y) % 256
            },
            AddrMode::REL => {
                &&& r == 0
                &&& Bus::keeps_raster(b0, b1)
                &&& (c1 == Cpu { addr_rel: c1.addr_rel, pc: c0.pc.wrapping_add(1), ..c0 })
                &&& exists|t: u8| #[trigger] Bus::read_effect(b0, b1, c0.pc, false, t)
                    && c1.addr_rel == if t >= 128 { (t + 0xFF00) as u16 } else { t as u16 }
            },
            AddrMode::ABS => {
                &&& r == 0
                &&& Bus::keeps_raster(b0, b1)
                &&& (c1 == Cpu { addr_abs: c1.addr_abs, pc: c0.pc.wrapping_add(2), ..c0 })
                &&& exists|lo: u8, hi: u8| #[trigger] Cpu::reads2(b0, b1, c0.pc, lo, c0.pc.wrapping_add(1), hi)
                    && c1.addr_abs == word(lo, hi)
            },
            AddrMode::ABX => {
                &&& r <= 1
                &&& Bus::keeps_raster(b0, b1)
                &&& (c1 == Cpu { addr_abs: c1.addr_abs, pc: c0.pc.wrapping_add(2), ..c0 })
                &&& exists|lo: u8, hi: u8| #[trigger] Cpu::reads2(b0, b1, c0.pc, lo, c0.pc.wrapping_add(1), hi)
                    && (c1.addr_abs, r) == indexed_spec(lo, hi, c0.x)
            },
            AddrMode::ABY => {
                &&& r <= 1
                &&& Bus::keeps_raster(b0, b1)
                &&& (c1 == Cpu { addr_abs: c1.addr_abs, pc: c0.pc.wrapping_add(2), ..c0 })
                &&& exists|lo: u8, hi: u8| #[trigger] Cpu::reads2(b0, b1, c0.pc, lo, c0.pc.wrapping_add(1), hi)
                    && (c1.addr_abs, r) == indexed_spec(lo, hi, c0.y)
            },
            AddrMode::IND => {
                &&& r == 0
                &&& Bus::keeps_raster(b0, b1)
                &&& (c1 == Cpu { addr_abs: c1.addr_abs, pc: c0.pc.wrapping_add(2), ..c0 })
                &&& exists|m: Bus, lo: u8, hi: u8, al: u8, ah: u8|
                    #[trigger] Cpu::reads2(b0, m, c0.pc, lo, c0.pc.wrapping_add(1), hi)
                    && #[trigger] Cpu::reads2(m, b1, Cpu::indirect_high(lo, hi), ah, word(lo, hi), al)
                    && c1.addr_abs == word(al, ah)
            },
            AddrMode::IZX => {
                &&& r == 0
                &&& Bus::keeps_raster(b0, b1)
                &&& (c1 == Cpu { addr_abs: c1.addr_abs, pc: c0.pc.wrapping_add(1), ..c0 })
                &&& exists|m: Bus, t: u8, lo: u8, hi: u8|
                    #[trigger] Bus::read_effect(b0, m, c0.pc, false, t)
                    && #[trigger] Cpu::reads2(m, b1, ((t + c0.x) % 256) as u16, lo,
                        ((t + c0.x + 1) % 256) as u16, hi)
                    && c1.addr_abs == word(lo, hi)
            },
            AddrMode::IZY => {
                &&& r <= 1
                &&& Bus::keeps_raster(b0, b1)
                &&& (c1 == Cpu { addr_abs: c1.addr_abs, pc: c0.pc.wrapping_add(1), ..c0 })
                &&& exists|m: Bus, t: u8, lo: u8, hi: u8|
                    #[trigger] Bus::read_effect(b0, m, c0.pc, false, t)
                    && #[trigger] Cpu::reads2(m, b1, t as u16, lo, ((t + 1) % 256) as u16, hi)
                    && (c1.addr_abs, r) == indexed_spec(lo, hi, c0.y)
            },
        }
    }

    /// What operation `op` does, from CPU `c0` and bus `b0` to `c1` and
    /// `b1`, returning `r`: the contract of that operation's function.
    pub open spec fn op_effect(op: Op, c0: Cpu, b0: Bus, c1: Cpu, b1: Bus, r: u8) -> bool {
        match op {
            Op::ADC => {
                &&& r == 1
                &&& Bus::keeps_raster(b0, b1)
                &&& fetch_effect(c0, b0, b1, c1.fetched)
                &&& ({
                    let (v, c, o) = adc_spec(c0.a, c1.fetched, has_flag(c0.status, FLAGS6502::C));
                    c1 == Cpu {
                        a: v,
                        status: with_flag(with_flag(with_flag(with_flag(c0.status, FLAGS6502::C, c), FLAGS6502::Z, v == 0),
                            FLAGS6502::V, o), FLAGS6502::N, v & 0x80 != 0),
                        fetched: c1.fetched,
                        ..c0
                    }
                })
            },
            Op::AND => {
                &&& r == 1
                &&& Bus::keeps_raster(b0, b1)
                &&& fetch_effect(c0, b0, b1, c1.fetched)
                &&& (c1 == Cpu {
                    a: c0.a & c1.fetched,
                    status: with_zn(c0.status, c0.a & c1.fetched),
                    fetched: c1.fetched,
                    ..c0
                })
            },
            Op::ASL => {
                &&& r == 0
                &&& Bus::keeps_raster(b0, b1)
                &&& ({
                    let f = c1.fetched;
                    let (v, c) = asl_spec(f);
                    let implied = instruction(c0.opcode).addrmode == AddrMode::IMP;
                    &&& Bus::quiet(c0.addr_abs) || implied ==> fetch_effect(c0, b0, b0, f)
                        && store_effect(c0, b0, b1, v)
                    &&& c1 == Cpu {
                        a: if implied { v } else { c0.a },
                        status: with_flag(with_flag(with_flag(c0.status, FLAGS6502::C, c), FLAGS6502::Z, v == 0),
                            FLAGS6502::N, v & 0x80 != 0),
                        fetched: f,
                        ..c0
                    }
                })
            },
            Op::BCC => {
                &&& r == 0
                &&& b1 == b0
                &&& !(!has_flag(c0.status, FLAGS6502::C)) ==> c1 == c0
                &&& !has_flag(c0.status, FLAGS6502::C) ==> (c1 == Cpu {
                    pc: branch_spec(c0.pc, c0.addr_rel).0,
                    addr_abs: branch_spec(c0.pc, c0.addr_rel).0,
                    cycles: (c0.cycles + branch_spec(c0.pc, c0.addr_rel).1) as u8,
                    ..c0
                })
            },
            Op::BCS => {
                &&& r == 0
                &&& b1 == b0
                &&& !(has_flag(c0.status, FLAGS6502::C)) ==> c1 == c0
                &&& has_flag(c0.status, FLAGS6502::C) ==> (c1 == Cpu {
                    pc: branch_spec(c0.pc, c0.addr_rel).0,
                    addr_abs: branch_spec(c0.pc, c0.addr_rel).0,
                    cycles: (c0.cycles + branch_spec(c0.pc, c0.addr_rel).1) as u8,
                    ..c0
                })
            },
            Op::BEQ => {
                &&& r == 0
                &&& b1 == b0
                &&& !(has_flag(c0.status, FLAGS6502::Z)) ==> c1 == c0
                &&& has_flag(c0.status, FLAGS6502::Z) ==> (c1 == Cpu {
                    pc: branch_spec(c0.pc, c0.addr_rel).0,
                    addr_abs: branch_spec(c0.pc, c0.addr_rel).0,
                    cycles: (c0.cycles + branch_spec(c0.pc, c0.addr_rel).1) as u8,
                    ..c0
                })
            },
            Op::BIT => {
                &&& r == 0
                &&& Bus::keeps_raster(b0, b1)
                &&& fetch_effect(c0, b0, b1, c1.fetched)
                &&& ({
                    let f = c1.fetched;
                    c1 == Cpu {
                        status: with_flag(with_flag(with_flag(c0.status, FLAGS6502::Z, c0.a & f == 0),
                            FLAGS6502::V, f & 0x40 != 0), FLAGS6502::N, f & 0x80 != 0),
                        fetched: f,
                        ..c0
                    }
                })
            },
            Op::BMI => {
                &&& r == 0
                &&& b1 == b0
                &&& !(has_flag(c0.status, FLAGS6502::N)) ==> c1 == c0
                &&& has_flag(c0.status, FLAGS6502::N) ==> (c1 == Cpu {
                    pc: branch_spec(c0.pc, c0.addr_rel).0,
                    addr_abs: branch_spec(c0.pc, c0.addr_rel).0,
                    cycles: (c0.cycles + branch_spec(c0.pc, c0.addr_rel).1) as u8,
                    ..c0
                })
            },
            Op::BNE => {
                &&& r == 0
                &&& b1 == b0
                &&& !(!has_flag(c0.status, FLAGS6502::Z)) ==> c1 == c0
                &&& !has_flag(c0.status, FLAGS6502::Z) ==> (c1 == Cpu {
                    pc: branch_spec(c0.pc, c0.addr_rel).0,
                    addr_abs: branch_spec(c0.pc, c0.addr_rel).0,
                    cycles: (c0.cycles + branch_spec(c0.pc, c0.addr_rel).1) as u8,
                    ..c0
                })
            },
            Op::BPL => {
                &&& r == 0
                &&& b1 == b0
                &&& !(!has_flag(c0.status, FLAGS6502::N)) ==> c1 == c0
                &&& !has_flag(c0.status, FLAGS6502::N) ==> (c1 == Cpu {
                    pc: branch_spec(c0.pc, c0.addr_rel).0,
                    addr_abs: branch_spec(c0.pc, c0.addr_rel).0,
                    cycles: (c0.cycles + branch_spec(c0.pc, c0.addr_rel).1) as u8,
                    ..c0
                })
            },
            Op::BRK => {
                &&& r == 0
                &&& Bus::keeps_raster(b0, b1)
                &&& ({
                    let p = c0.pc.wrapping_add(1);
                    let sp = c0.stkp;
                    let s1 = with_flag(c0.status, FLAGS6502::I, true);
                    let pushed = with_flag(s1, FLAGS6502::B, true);
                    &&& b1 == Bus { cpu_ram: b1.cpu_ram, ..b0 }
                    &&& b1.cpu_ram@ == b0.cpu_ram@.update(stack_addr(sp) as int, (p / 256) as u8)
                        .update(stack_addr(sp.wrapping_sub(1)) as int, (p % 256) as u8)
                        .update(stack_addr(sp.wrapping_sub(2)) as int, pushed)
                    &&& c1 == Cpu {
                        pc: word(b0.peek(0xFFFE), b0.peek(0xFFFF)),
                        stkp: sp.wrapping_sub(3),
                        status: with_flag(pushed, FLAGS6502::B, false),
                        ..c0
                    }
                })
            },
            Op::BVC => {
                &&& r == 0
                &&& b1 == b0
                &&& !(!has_flag(c0.status, FLAGS6502::V)) ==> c1 == c0
                &&& !has_flag(c0.status, FLAGS6502::V) ==> (c1 == Cpu {
                    pc: branch_spec(c0.pc, c0.addr_rel).0,
                    addr_abs: branch_spec(c0.pc, c0.addr_rel).0,
                    cycles: (c0.cycles + branch_spec(c0.pc, c0.addr_rel).1) as u8,
                    ..c0
                })
            },
            Op::BVS => {
                &&& r == 0
                &&& b1 == b0
                &&& !(has_flag(c0.status, FLAGS6502::V)) ==> c1 == c0
                &&& has_flag(c0.status, FLAGS6502::V) ==> (c1 == Cpu {
                    pc: branch_spec(c0.pc, c0.addr_rel).0,
                    addr_abs: branch_spec(c0.pc, c0.addr_rel).0,
                    cycles: (c0.cycles + branch_spec(c0.pc, c0.addr_rel).1) as u8,
                    ..c0
                })
            },
            Op::CLC => {
                &&& r == 0
                &&& b1 == b0
                &&& (c1 == Cpu { status: with_flag(c0.status, FLAGS6502::C, false), ..c0 })
            },
            Op::CLD => {
                &&& r == 0
                &&& b1 == b0
                &&& (c1 == Cpu { status: with_flag(c0.status, FLAGS6502::D, false), ..c0 })
            },
            Op::CLI => {
                &&& r == 0
                &&& b1 == b0
                &&& (c1 == Cpu { status: with_flag(c0.status, FLAGS6502::I, false), ..c0 })
            },
            Op::CLV => {
                &&& r == 0
                &&& b1 == b0
                &&& (c1 == Cpu { status: with_flag(c0.status, FLAGS6502::V, false), ..c0 })
            },
            Op::CMP => {
                &&& r == 1
                &&& Bus::keeps_raster(b0, b1)
                &&& fetch_effect(c0, b0, b1, c1.fetched)
                &&& ({
                    let reg = c0.a;
                    let f = c1.fetched;
                    c1 == Cpu {
                        status: with_flag(with_flag(with_flag(c0.status, FLAGS6502::C, reg >= f), FLAGS6502::Z, reg == f),
                            FLAGS6502::N, reg.wrapping_sub(f) & 0x80 != 0),
                        fetched: f,
                        ..c0
                    }
                })
            },
            Op::CPX => {
                &&& r == 0
                &&& Bus::keeps_raster(b0, b1)
                &&& fetch_effect(c0, b0, b1, c1.fetched)
                &&& ({
                    let reg = c0.x;
                    let f = c1.fetched;
                    c1 == Cpu {
                        status: with_flag(with_flag(with_flag(c0.status, FLAGS6502::C, reg >= f), FLAGS6502::Z, reg == f),
                            FLAGS6502::N, reg.wrapping_sub(f) & 0x80 != 0),
                        fetched: f,
                        ..c0
                    }
                })
            },
            Op::CPY => {
                &&& r == 0
                &&& Bus::keeps_raster(b0, b1)
                &&& fetch_effect(c0, b0, b1, c1.fetched)
                &&& ({
                    let reg = c0.y;
                    let f = c1.fetched;
                    c1 == Cpu {
                        status: with_flag(with_flag(with_flag(c0.status, FLAGS6502::C, reg >= f), FLAGS6502::Z, reg == f),
                            FLAGS6502::N, reg.wrapping_sub(f) & 0x80 != 0),
                        fetched: f,
                        ..c0
                    }
                })
            },
            Op::DEC => {
                &&& r == 0
                &&& Bus::keeps_raster(b0, b1)
                &&& ({
                    let f = c1.fetched;
                    let v = f.wrapping_sub(1);
                    &&& Bus::quiet(c0.addr_abs) ==> fetch_effect(c0, b0, b0, f)
                        && Bus::write_effect(b0, b1, c0.addr_abs, v)
                    &&& c1 == Cpu { status: with_zn(c0.status, v), fetched: f, ..c0 }
                })
            },
            Op::DEX => {
                &&& r == 0
                &&& b1 == b0
                &&& (c1 == Cpu { x: c0.x.wrapping_sub(1), status: with_zn(c0.status, c0.x.wrapping_sub(1)), ..c0 })
            },
            Op::DEY => {
                &&& r == 0
                &&& b1 == b0
                &&& (c1 == Cpu { y: c0.y.wrapping_sub(1), status: with_zn(c0.status, c0.y.wrapping_sub(1)), ..c0 })
            },
            Op::EOR => {
                &&& r == 1
                &&& Bus::keeps_raster(b0, b1)
                &&& fetch_effect(c0, b0, b1, c1.fetched)
                &&& (c1 == Cpu {
                    a: c0.a ^ c1.fetched,
                    status: with_zn(c0.status, c0.a ^ c1.fetched),
                    fetched: c1.fetched,
                    ..c0
                })
            },
            Op::INC => {
                &&& r == 0
                &&& Bus::keeps_raster(b0, b1)
                &&& ({
                    let f = c1.fetched;
                    let v = f.wrapping_add(1);
                    &&& Bus::quiet(c0.addr_abs) ==> fetch_effect(c0, b0, b0, f)
                        && Bus::write_effect(b0, b1, c0.addr_abs, v)
                    &&& c1 == Cpu { status: with_zn(c0.status, v), fetched: f, ..c0 }
                })
            },
            Op::INX => {
                &&& r == 0
                &&& b1 == b0
                &&& (c1 == Cpu { x: c0.x.wrapping_add(1), status: with_zn(c0.status, c0.x.wrapping_add(1)), ..c0 })
            },
            Op::INY => {
                &&& r == 0
                &&& b1 == b0
                &&& (c1 == Cpu { y: c0.y.wrapping_add(1), status: with_zn(c0.status, c0.y.wrapping_add(1)), ..c0 })
            },
            Op::JMP => {
                &&& r == 0
                &&& b1 == b0
                &&& (c1 == Cpu { pc: c0.addr_abs, ..c0 })
            },
            Op::JSR => {
                &&& r == 0
                &&& Bus::keeps_raster(b0, b1)
                &&& ({
                    let p = c0.pc.wrapping_sub(1);
                    let sp = c0.stkp;
                    &&& b1 == Bus { cpu_ram: b1.cpu_ram, ..b0 }
                    &&& b1.cpu_ram@ == b0.cpu_ram@.update(stack_addr(sp) as int, (p / 256) as u8)
                        .update(stack_addr(sp.wrapping_sub(1)) as int, (p % 256) as u8)
                    &&& c1 == Cpu { pc: c0.addr_abs, stkp: sp.wrapping_sub(2), ..c0 }
                })
            },
            Op::LDA => {
                &&& r == 1
                &&& Bus::keeps_raster(b0, b1)
                &&& fetch_effect(c0, b0, b1, c1.fetched)
                &&& (c1 == Cpu {
                    a: c1.fetched,
                    status: with_zn(c0.status, c1.fetched),
                    fetched: c1.fetched,
                    ..c0
                })
            },
            Op::LDX => {
                &&& r == 1
                &&& Bus::keeps_raster(b0, b1)
                &&& fetch_effect(c0, b0, b1, c1.fetched)
                &&& (c1 == Cpu {
                    x: c1.fetched,
                    status: with_zn(c0.status, c1.fetched),
                    fetched: c1.fetched,
                    ..c0
                })
            },
            Op::LDY => {
                &&& r == 1
                &&& Bus::keeps_raster(b0, b1)
                &&& fetch_effect(c0, b0, b1, c1.fetched)
                &&& (c1 == Cpu {
                    y: c1.fetched,
                    status: with_zn(c0.status, c1.fetched),
                    fetched: c1.fetched,
                    ..c0
                })
            },
            Op::LSR => {
                &&& r == 0
                &&& Bus::keeps_raster(b0, b1)
                &&& ({
                    let f = c1.fetched;
                    let (v, c) = lsr_spec(f);
                    let implied = instruction(c0.opcode).addrmode == AddrMode::IMP;
                    &&& Bus::quiet(c0.addr_abs) || implied ==> fetch_effect(c0, b0, b0, f)
                        && store_effect(c0, b0, b1, v)
                    &&& c1 == Cpu {
                        a: if implied { v } else { c0.a },
                        status: with_flag(with_flag(with_flag(c0.status, FLAGS6502::C, c), FLAGS6502::Z, v == 0),
                            FLAGS6502::N, v & 0x80 != 0),
                        fetched: f,
                        ..c0
                    }
                })
            },
            Op::NOP => {
                &&& r == (if c0.opcode == 0x1C || c0.opcode == 0x3C || c0.opcode == 0x5C
                    || c0.opcode == 0x7C || c0.opcode == 0xDC || c0.opcode == 0xFC { 1u8 } else { 0u8 })
                &&& b1 == b0
                &&& c1 == c0
            },
            Op::ORA => {
                &&& r == 1
                &&& Bus::keeps_raster(b0, b1)
                &&& fetch_effect(c0, b0, b1, c1.fetched)
                &&& (c1 == Cpu {
                    a: c0.a | c1.fetched,
                    status: with_zn(c0.status, c0.a | c1.fetched),
                    fetched: c1.fetched,
                    ..c0
                })
            },
            Op::PHA => {
                &&& r == 0
                &&& Bus::keeps_raster(b0, b1)
                &&& (b1 == Bus { cpu_ram: b1.cpu_ram, ..b0 })
                &&& b1.cpu_ram@ == b0.cpu_ram@.update(stack_addr(c0.stkp) as int, c0.a)
                &&& (c1 == Cpu { stkp: c0.stkp.wrapping_sub(1), ..c0 })
            },
            Op::PHP => {
                &&& r == 0
                &&& Bus::keeps_raster(b0, b1)
                &&& (b1 == Bus { cpu_ram: b1.cpu_ram, ..b0 })
                &&& b1.cpu_ram@ == b0.cpu_ram@.update(stack_addr(c0.stkp) as int,
                    with_flag(with_flag(c0.status, FLAGS6502::B, true), FLAGS6502::U, true))
                &&& (c1 == Cpu {
                    stkp: c0.stkp.wrapping_sub(1),
                    status: with_flag(with_flag(c0.status, FLAGS6502::B, false), FLAGS6502::U, false),
                    ..c0
                })
            },
            Op::PLA => {
                &&& r == 0
                &&& b1 == b0
                &&& ({
                    let v = b0.cpu_ram@[stack_addr(c0.stkp.wrapping_add(1)) as int];
                    c1 == Cpu { a: v, status: with_zn(c0.status, v), stkp: c0.stkp.wrapping_add(1), ..c0 }
                })
            },
            Op::PLP => {
                &&& r == 0
                &&& b1 == b0
                &&& ({
                    let v = b0.cpu_ram@[stack_addr(c0.stkp.wrapping_add(1)) as int];
                    c1 == Cpu { status: with_flag(v, FLAGS6502::U, true), stkp: c0.stkp.wrapping_add(1), ..c0 }
                })
            },
            Op::ROL => {
                &&& r == 0
                &&& Bus::keeps_raster(b0, b1)
                &&& ({
                    let f = c1.fetched;
                    let (v, c) = rol_spec(f, has_flag(c0.status, FLAGS6502::C));
                    let implied = instruction(c0.opcode).addrmode == AddrMode::IMP;
                    &&& Bus::quiet(c0.addr_abs) || implied ==> fetch_effect(c0, b0, b0, f)
                        && store_effect(c0, b0, b1, v)
                    &&& c1 == Cpu {
                        a: if implied { v } else { c0.a },
                        status: with_flag(with_flag(with_flag(c0.status, FLAGS6502::C, c), FLAGS6502::Z, v == 0),
                            FLAGS6502::N, v & 0x80 != 0),
                        fetched: f,
                        ..c0
                    }
                })
            },
            Op::ROR => {
                &&& r == 0
                &&& Bus::keeps_raster(b0, b1)
                &&& ({
                    let f = c1.fetched;
                    let (v, c) = ror_spec(f, has_flag(c0.status, FLAGS6502::C));
                    let implied = instruction(c0.opcode).addrmode == AddrMode::IMP;
                    &&& Bus::quiet(c0.addr_abs) || implied ==> fetch_effect(c0, b0, b0, f)
                        && store_effect(c0, b0, b1, v)
                    &&& c1 == Cpu {
                        a: if implied { v } else { c0.a },
                        status: with_flag(with_flag(with_flag(c0.status, FLAGS6502::C, c), FLAGS6502::Z, v == 0),
                            FLAGS6502::N, v & 0x80 != 0),
                        fetched: f,
                        ..c0
                    }
                })
            },
            Op::RTI => {
                &&& r == 0
                &&& b1 == b0
                &&& ({
                    let sp = c0.stkp;
                    let ram = b0.cpu_ram@;
                    let st = ram[stack_addr(sp.wrapping_add(1)) as int];
                    let lo = ram[stack_addr(sp.wrapping_add(2)) as int];
                    let hi = ram[stack_addr(sp.wrapping_add(3)) as int];
                    c1 == Cpu {
                        status: with_flag(with_flag(st, FLAGS6502::B, false), FLAGS6502::U, false),
                        pc: word(lo, hi),
                        stkp: sp.wrapping_add(3),
                        ..c0
                    }
                })
            },
            Op::RTS => {
                &&& r == 0
                &&& b1 == b0
                &&& ({
                    let sp = c0.stkp;
                    let ram = b0.cpu_ram@;
                    let lo = ram[stack_addr(sp.wrapping_add(1)) as int];
                    let hi = ram[stack_addr(sp.wrapping_add(2)) as int];
                    c1 == Cpu { pc: word(lo, hi).wrapping_add(1), stkp: sp.wrapping_add(2), ..c0 }
                })
            },
            Op::SBC => {
                &&& r == 1
                &&& Bus::keeps_raster(b0, b1)
                &&& fetch_effect(c0, b0, b1, c1.fetched)
                &&& ({
                    let (v, c, o) = sbc_spec(c0.a, c1.fetched, has_flag(c0.status, FLAGS6502::C));
                    c1 == Cpu {
                        a: v,
                        status: with_flag(with_flag(with_flag(with_flag(c0.status, FLAGS6502::C, c), FLAGS6502::Z, v == 0),
                            FLAGS6502::V, o), FLAGS6502::N, v & 0x80 != 0),
                        fetched: c1.fetched,
                        ..c0
                    }
                })
            },
            Op::SEC => {
                &&& r == 0
                &&& b1 == b0
                &&& (c1 == Cpu { status: with_flag(c0.status, FLAGS6502::C, true), ..c0 })
            },
            Op::SED => {
                &&& r == 0
                &&& b1 == b0
                &&& (c1 == Cpu { status: with_flag(c0.status, FLAGS6502::D, true), ..c0 })
            },
            Op::SEI => {
                &&& r == 0
                &&& b1 == b0
                &&& (c1 == Cpu { status: with_flag(c0.status, FLAGS6502::I, true), ..c0 })
            },
            Op::STA => {
                &&& r == 0
                &&& Bus::keeps_raster(b0, b1)
                &&& Bus::write_effect(b0, b1, c0.addr_abs, c0.a)
                &&& c1 == c0
            },
            Op::STX => {
                &&& r == 0
                &&& Bus::keeps_raster(b0, b1)
                &&& Bus::write_effect(b0, b1, c0.addr_abs, c0.x)
                &&& c1 == c0
            },
            Op::STY => {
                &&& r == 0
                &&& Bus::keeps_raster(b0, b1)
                &&& Bus::write_effect(b0, b1, c0.addr_abs, c0.y)
                &&& c1 == c0
            },
            Op::TAX => {
                &&& r == 0
                &&& b1 == b0
                &&& (c1 == Cpu { x: c0.a, status: with_zn(c0.status, c0.a), ..c0 })
            },
            Op::TAY => {
                &&& r == 0
                &&& b1 == b0
                &&& (c1 == Cpu { y: c0.a, status: with_zn(c0.status, c0.a), ..c0 })
            },
            Op::TSX => {
                &&& r == 0
                &&& b1 == b0
                &&& (c1 == Cpu { x: c0.stkp, status: with_zn(c0.status, c0.stkp), ..c0 })
            },
            Op::TXA => {
                &&& r == 0
                &&& b1 == b0
                &&& (c1 == Cpu { a: c0.x, status: with_zn(c0.status, c0.x), ..c0 })
            },
            Op::TXS => {
                &&& r == 0
                &&& b1 == b0
                &&& (c1 == Cpu { stkp: c0.x, ..c0 })
            },
            Op::TYA => {
                &&& r == 0
                &&& b1 == b0
                &&& (c1 == Cpu { a: c0.y, status: with_zn(c0.status, c0.y), ..c0 })
            },
            Op::XXX => {
                &&& r == 0
                &&& b1 == b0
                &&& c1 == c0
            },
        }
    }

    /// Runs an addressing mode; 1 where it may cost an extra cycle.
    fn run_addrmode(&mut self, bus: &mut Bus, mode: AddrMode) -> (r: u8)
        requires
            old(bus).wf(),
        ensures
            final(bus).wf(),
            Bus::keeps_raster(*old(bus), *final(bus)),
            r <= 1,
            r == 1 ==> page_sensitive(mode),
            Cpu::mode_effect(mode, *old(self), *old(bus), *final(self), *final(bus), r),
            final(self).cycles == old(self).cycles,
            final(self).opcode == old(self).opcode,
            final(self).clock_count == old(self).clock_count,
    {
        match mode {
            AddrMode::IMP => self.IMP(bus),
            AddrMode::IMM => self.IMM(bus),
            AddrMode::ZP0 => self.ZP0(bus),
            AddrMode::ZPX => self.ZPX(bus),
            AddrMode::ZPY => self.ZPY(bus),
            AddrMode::REL => self.REL(bus),
            AddrMode::ABS => self.ABS(bus),
            AddrMode::ABX => self.ABX(bus),
            AddrMode::ABY => self.ABY(bus),
            AddrMode::IND => self.IND(bus),
            AddrMode::IZX => self.IZX(bus),
            AddrMode::IZY => self.IZY(bus),
        }
    }

    /// Runs an operation; 1 where it takes the addressing mode's extra cycle.
    fn run_op(&mut self, bus: &mut Bus, op: Op) -> (r: u8)
        requires
            old(bus).wf(),
            old(self).cycles <= 8,
        ensures
            final(bus).wf(),
            Bus::keeps_raster(*old(bus), *final(bus)),
            r <= 1,
            r == 1 ==> takes_extra(op, old(self).opcode),
            Cpu::op_effect(op, *old(self), *old(bus), *final(self), *final(bus), r),
            old(self).cycles <= final(self).cycles <= old(self).cycles + 2,
            !is_branch(op) ==> final(self).cycles == old(self).cycles,
            final(self).opcode == old(self).opcode,
            final(self).clock_count == old(self).clock_count,
    {
        match op {
            Op::ADC => self.ADC(bus),
            Op::AND => self.AND(bus),
            Op::ASL => self.ASL(bus),
            Op::BCC => self.BCC(bus),
            Op::BCS => self.BCS(bus),
            Op::BEQ => self.BEQ(bus),
            Op::BIT => self.BIT(bus),
            Op::BMI => self.BMI(bus),
            Op::BNE => self.BNE(bus),
            Op::BPL => self.BPL(bus),
            Op::BRK => self.BRK(bus),
            Op::BVC => self.BVC(bus),
            Op::BVS => self.BVS(bus),
            Op::CLC => self.CLC(bus),
            Op::CLD => self.CLD(bus),
            Op::CLI => self.CLI(bus),
            Op::CLV => self.CLV(bus),
            Op::CMP => self.CMP(bus),
            Op::CPX => self.CPX(bus),
            Op::CPY => self.CPY(bus),
            Op::DEC => self.DEC(bus),
            Op::DEX => self.DEX(bus),
            Op::DEY => self.DEY(bus),
            Op::EOR => self.EOR(bus),
            Op::INC => self.INC(bus),
            Op::INX => self.INX(bus),
            Op::INY => self.INY(bus),
            Op::JMP => self.JMP(bus),
            Op::JSR => self.JSR(bus),
            Op::LDA => self.LDA(bus),
            Op::LDX => self.LDX(bus),
            Op::LDY => self.LDY(bus),
            Op::LSR => self.LSR(bus),
            Op::NOP => self.NOP(bus),
            Op::ORA => self.ORA(bus),
            Op::PHA => self.PHA(bus),
            Op::PHP => self.PHP(bus),
            Op::PLA => self.PLA(bus),
            Op::PLP => self.PLP(bus),
            Op::ROL => self.ROL(bus),
            Op::ROR => self.ROR(bus),
            Op::RTI => self.RTI(bus),
            Op::RTS => self.RTS(bus),
            Op::SBC => self.SBC(bus),
            Op::SEC => self.SEC(bus),
            Op::SED => self.SED(bus),
            Op::SEI => self.SEI(bus),
            Op::STA => self.STA(bus),
            Op::STX => self.STX(bus),
            Op::STY => self.STY(bus),
            Op::TAX => self.TAX(bus),
            Op::TAY => self.TAY(bus),
            Op::TSX => self.TSX(bus),
            Op::TXA => self.TXA(bus),
            Op::TXS => self.TXS(bus),
            Op::TYA => self.TYA(bus),
            Op::XXX => self.XXX(bus),
        }
    }

    /// The start of an instruction: the opcode read at the program
    /// counter, the unused flag set, the counter moved past the opcode, and
    /// the table's cycle count loaded.
    pub open spec fn fetched_opcode(c0: Cpu, b0: Bus, c1: Cpu, b1: Bus) -> bool {
        &&& Bus::read_effect(b0, b1, c0.pc, false, c1.opcode)
        &&& c1 == Cpu {
            opcode: c1.opcode,
            status: with_flag(c0.status, FLAGS6502::U, true),
            pc: c0.pc.wrapping_add(1),
            cycles: instruction(c1.opcode).cycles,
            ..c0
        }
    }

    /// One whole instruction from CPU `c0` and bus `b0` to `c1` and `b1`:
    /// the opcode fetch, the decoded addressing mode, then the decoded
    /// operation; the cycles left are the table's count (with any branch
    /// cycles), plus one when both the mode and the operation ask for the
    /// page-crossing cycle, less the cycle just run.
    pub open spec fn step_effect(c0: Cpu, b0: Bus, c1: Cpu, b1: Bus) -> bool {
        exists|ba: Bus, ca: Cpu, bb: Bus, cb: Cpu, cc: Cpu, e1: u8, e2: u8|
            #[trigger] Cpu::fetched_opcode(c0, b0, ca, ba)
            && #[trigger] Cpu::mode_effect(instruction(ca.opcode).addrmode, ca, ba, cb, bb, e1)
            && #[trigger] Cpu::op_effect(instruction(ca.opcode).operate, cb, bb, cc, b1, e2)
            && c1 == Cpu {
                cycles: (cc.cycles + (if e1 == 1 && e2 == 1 { 1int } else { 0int }) - 1) as u8,
                status: with_flag(cc.status, FLAGS6502::U, true),
                clock_count: c0.clock_count.wrapping_add(1),
                ..cc
            }
    }

    /// One cycle from CPU `c0` and bus `b0` to `c1` and `b1`: a count
    /// down while an instruction is under way, else a whole instruction
    /// (see `step_effect`).
    pub open spec fn clock_effect(c0: Cpu, b0: Bus, c1: Cpu, b1: Bus) -> bool {
        &&& c0.cycles != 0 ==> b1 == b0 && c1 == Cpu {
            cycles: (c0.cycles - 1) as u8,
            clock_count: c0.clock_count.wrapping_add(1),
            ..c0
        }
        &&& c0.cycles == 0 ==> Cpu::step_effect(c0, b0, c1, b1)
    }

    /// Advances one cycle. With no cycles left of the current instruction,
    /// fetches the opcode at the program counter, runs its addressing mode
    /// and operation, and sets the cycles to the table's count plus one
    /// when both the mode and the operation ask for the extra cycle (and
    /// the branch cycles); then counts one cycle down.
    pub fn clock(&mut self, bus: &mut Bus)
        requires
            old(bus).wf(),
            old(self).wf(),
        ensures
            final(bus).wf(),
            final(self).wf(),
            Bus::keeps_raster(*old(bus), *final(bus)),
            final(self).clock_count == old(self).clock_count.wrapping_add(1),
            old(self).cycles != 0 ==> *final(bus) == *old(bus) && (*final(self) == Cpu {
                cycles: (old(self).cycles - 1) as u8,
                clock_count: old(self).clock_count.wrapping_add(1),
                ..*old(self)
            }),
            old(self).cycles == 0 ==> Cpu::step_effect(*old(self), *old(bus), *final(self), *final(bus)),
            Cpu::clock_effect(*old(self), *old(bus), *final(self), *final(bus)),
            old(self).cycles == 0 ==> {
                let ins = instruction(final(self).opcode);
                &&& Bus::quiet(old(self).pc) ==> final(self).opcode == old(bus).peek(old(self).pc)
                &&& has_flag(final(self).status, FLAGS6502::U)
                &&& ins.cycles <= final(self).cycles + 1 <= ins.cycles + 3
                &&& !is_branch(ins.operate) ==> final(self).cycles + 1 <= ins.cycles + 1
                &&& !is_branch(ins.operate) && final(self).cycles + 1 == ins.cycles + 1
                    ==> page_sensitive(ins.addrmode) && takes_extra(ins.operate, final(self).opcode)
            },
    {
        if self.cycles == 0 {
            self.opcode = self.read(bus, self.pc, false);
            self.set_flag(FLAGS6502::U, true);
            self.pc = self.pc.wrapping_add(1);
            let instr = decode(self.opcode);
            self.cycles = instr.cycles;
            let ghost ca = *self;
            let ghost ba = *bus;
            let additional_cycle1 = self.run_addrmode(bus, instr.addrmode);
            let ghost cb = *self;
            let ghost bb = *bus;
            let additional_cycle2 = self.run_op(bus, instr.operate);
            let ghost cc = *self;
            assert(Cpu::fetched_opcode(*old(self), *old(bus), ca, ba));
            let extra: u8 = if additional_cycle1 != 0 && additional_cycle2 != 0 { 1 } else { 0 };
            self.cycles = self.cycles + extra;
            let st = self.status;
            assert((st | 0x20) & 0x20 != 0) by (bit_vector);
            self.set_flag(FLAGS6502::U, true);
        }
        self.cycles = self.cycles - 1;
        self.clock_count = self.clock_count.wrapping_add(1);
    }

    /// Whether the current instruction has finished.
    pub fn is_complete(&self) -> (r: bool)
        ensures
            r == (self.cycles == 0),
    {
        self.cycles == 0
    }
}

} // verus!
