//! The instruction table: for each of the 256 opcode bytes, its
//! operation, addressing mode and base cycle count.
use vstd::prelude::*;

verus! {

/// How an instruction finds its operand.
#[derive(PartialEq, Eq, Structural, Clone, Copy, Debug)]
pub enum AddrMode {
    IMP, IMM, ZP0, ZPX, ZPY, REL, ABS, ABX, ABY, IND, IZX, IZY,
}

/// What an instruction does. `XXX` stands for the opcodes that have no
/// documented operation; they run as no-ops of their table length.
#[allow(non_camel_case_types)]
#[derive(PartialEq, Eq, Structural, Clone, Copy, Debug)]
pub enum Op {
    ADC, AND, ASL, BCC, BCS, BEQ, BIT, BMI, BNE, BPL, BRK, BVC, BVS, CLC, CLD, CLI, CLV, CMP, CPX, CPY, DEC, DEX, DEY, EOR, INC, INX, INY, JMP, JSR, LDA, LDX, LDY, LSR, NOP, ORA, PHA, PHP, PLA, PLP, ROL, ROR, RTI, RTS, SBC, SEC, SED, SEI, STA, STX, STY, TAX, TAY, TSX, TXA, TXS, TYA, XXX,
}

/// One slot of the instruction table.
#[derive(PartialEq, Eq, Structural, Clone, Copy, Debug)]
pub struct Instruction {
    pub operate: Op,
    pub addrmode: AddrMode,
    pub cycles: u8,
}

impl Instruction {
    pub fn new_i(operate: Op, addrmode: AddrMode, cycles: u8) -> (r: Instruction)
        ensures
            r == (Instruction { operate, addrmode, cycles }),
    {
        Instruction { operate, addrmode, cycles }
    }
}

/// The table entry of opcode `opcode`.
pub open spec fn instruction(opcode: u8) -> Instruction {
    match opcode {
        0x00 => Instruction { operate: Op::BRK, addrmode: AddrMode::IMM, cycles: 7 },
        0x01 => Instruction { operate: Op::ORA, addrmode: AddrMode::IZX, cycles: 6 },
        0x02 => Instruction { operate: Op::XXX, addrmode: AddrMode::IMP, cycles: 2 },
        0x03 => Instruction { operate: Op::XXX, addrmode: AddrMode::IMP, cycles: 8 },
        0x04 => Instruction { operate: Op::NOP, addrmode: AddrMode::IMP, cycles: 3 },
        0x05 => Instruction { operate: Op::ORA, addrmode: AddrMode::ZP0, cycles: 3 },
        0x06 => Instruction { operate: Op::ASL, addrmode: AddrMode::ZP0, cycles: 5 },
        0x07 => Instruction { operate: Op::XXX, addrmode: AddrMode::IMP, cycles: 5 },
        0x08 => Instruction { operate: Op::PHP, addrmode: AddrMode::IMP, cycles: 3 },
        0x09 => Instruction { operate: Op::ORA, addrmode: AddrMode::IMM, cycles: 2 },
        0x0A => Instruction { operate: Op::ASL, addrmode: AddrMode::IMP, cycles: 2 },
        0x0B => Instruction { operate: Op::XXX, addrmode: AddrMode::IMP, cycles: 2 },
        0x0C => Instruction { operate: Op::NOP, addrmode: AddrMode::IMP, cycles: 4 },
        0x0D => Instruction { operate: Op::ORA, addrmode: AddrMode::ABS, cycles: 4 },
        0x0E => Instruction { operate: Op::ASL, addrmode: AddrMode::ABS, cycles: 6 },
        0x0F => Instruction { operate: Op::XXX, addrmode: AddrMode::IMP, cycles: 6 },
        0x10 => Instruction { operate: Op::BPL, addrmode: AddrMode::REL, cycles: 2 },
        0x11 => Instruction { operate: Op::ORA, addrmode: AddrMode::IZY, cycles: 5 },
        0x12 => Instruction { operate: Op::XXX, addrmode: AddrMode::IMP, cycles: 2 },
        0x13 => Instruction { operate: Op::XXX, addrmode: AddrMode::IMP, cycles: 8 },
        0x14 => Instruction { operate: Op::NOP, addrmode: AddrMode::IMP, cycles: 4 },
        0x15 => Instruction { operate: Op::ORA, addrmode: AddrMode::ZPX, cycles: 4 },
        0x16 => Instruction { operate: Op::ASL, addrmode: AddrMode::ZPX, cycles: 6 },
        0x17 => Instruction { operate: Op::XXX, addrmode: AddrMode::IMP, cycles: 6 },
        0x18 => Instruction { operate: Op::CLC, addrmode: AddrMode::IMP, cycles: 2 },
        0x19 => Instruction { operate: Op::ORA, addrmode: AddrMode::ABY, cycles: 4 },
        0x1A => Instruction { operate: Op::NOP, addrmode: AddrMode::IMP, cycles: 2 },
        0x1B => Instruction { operate: Op::XXX, addrmode: AddrMode::IMP, cycles: 7 },
        0x1C => Instruction { operate: Op::NOP, addrmode: AddrMode::IMP, cycles: 4 },
        0x1D => Instruction { operate: Op::ORA, addrmode: AddrMode::ABX, cycles: 4 },
        0x1E => Instruction { operate: Op::ASL, addrmode: AddrMode::ABX, cycles: 7 },
        0x1F => Instruction { operate: Op::XXX, addrmode: AddrMode::IMP, cycles: 7 },
        0x20 => Instruction { operate: Op::JSR, addrmode: AddrMode::ABS, cycles: 6 },
        0x21 => Instruction { operate: Op::AND, addrmode: AddrMode::IZX, cycles: 6 },
        0x22 => Instruction { operate: Op::XXX, addrmode: AddrMode::IMP, cycles: 2 },
        0x23 => Instruction { operate: Op::XXX, addrmode: AddrMode::IMP, cycles: 8 },
        0x24 => Instruction { operate: Op::BIT, addrmode: AddrMode::ZP0, cycles: 3 },
        0x25 => Instruction { operate: Op::AND, addrmode: AddrMode::ZP0, cycles: 3 },
        0x26 => Instruction { operate: Op::ROL, addrmode: AddrMode::ZP0, cycles: 5 },
        0x27 => Instruction { operate: Op::XXX, addrmode: AddrMode::IMP, cycles: 5 },
        0x28 => Instruction { operate: Op::PLP, addrmode: AddrMode::IMP, cycles: 4 },
        0x29 => Instruction { operate: Op::AND, addrmode: AddrMode::IMM, cycles: 2 },
        0x2A => Instruction { operate: Op::ROL, addrmode: AddrMode::IMP, cycles: 2 },
        0x2B => Instruction { operate: Op::XXX, addrmode: AddrMode::IMP, cycles: 2 },
        0x2C => Instruction { operate: Op::BIT, addrmode: AddrMode::ABS, cycles: 4 },
        0x2D => Instruction { operate: Op::AND, addrmode: AddrMode::ABS, cycles: 4 },
        0x2E => Instruction { operate: Op::ROL, addrmode: AddrMode::ABS, cycles: 6 },
        0x2F => Instruction { operate: Op::XXX, addrmode: AddrMode::IMP, cycles: 6 },
        0x30 => Instruction { operate: Op::BMI, addrmode: AddrMode::REL, cycles: 2 },
        0x31 => Instruction { operate: Op::AND, addrmode: AddrMode::IZY, cycles: 5 },
        0x32 => Instruction { operate: Op::XXX, addrmode: AddrMode::IMP, cycles: 2 },
        0x33 => Instruction { operate: Op::XXX, addrmode: AddrMode::IMP, cycles: 8 },
        0x34 => Instruction { operate: Op::NOP, addrmode: AddrMode::IMP, cycles: 4 },
        0x35 => Instruction { operate: Op::AND, addrmode: AddrMode::ZPX, cycles: 4 },
        0x36 => Instruction { operate: Op::ROL, addrmode: AddrMode::ZPX, cycles: 6 },
        0x37 => Instruction { operate: Op::XXX, addrmode: AddrMode::IMP, cycles: 6 },
        0x38 => Instruction { operate: Op::SEC, addrmode: AddrMode::IMP, cycles: 2 },
        0x39 => Instruction { operate: Op::AND, addrmode: AddrMode::ABY, cycles: 4 },
        0x3A => Instruction { operate: Op::NOP, addrmode: AddrMode::IMP, cycles: 2 },
        0x3B => Instruction { operate: Op::XXX, addrmode: AddrMode::IMP, cycles: 7 },
        0x3C => Instruction { operate: Op::NOP, addrmode: AddrMode::IMP, cycles: 4 },
        0x3D => Instruction { operate: Op::AND, addrmode: AddrMode::ABX, cycles: 4 },
        0x3E => Instruction { operate: Op::ROL, addrmode: AddrMode::ABX, cycles: 7 },
        0x3F => Instruction { operate: Op::XXX, addrmode: AddrMode::IMP, cycles: 7 },
        0x40 => Instruction { operate: Op::RTI, addrmode: AddrMode::IMP, cycles: 6 },
        0x41 => Instruction { operate: Op::EOR, addrmode: AddrMode::IZX, cycles: 6 },
        0x42 => Instruction { operate: Op::XXX, addrmode: AddrMode::IMP, cycles: 2 },
        0x43 => Instruction { operate: Op::XXX, addrmode: AddrMode::IMP, cycles: 8 },
        0x44 => Instruction { operate: Op::NOP, addrmode: AddrMode::IMP, cycles: 3 },
        0x45 => Instruction { operate: Op::EOR, addrmode: AddrMode::ZP0, cycles: 3 },
        0x46 => Instruction { operate: Op::LSR, addrmode: AddrMode::ZP0, cycles: 5 },
        0x47 => Instruction { operate: Op::XXX, addrmode: AddrMode::IMP, cycles: 5 },
        0x48 => Instruction { operate: Op::PHA, addrmode: AddrMode::IMP, cycles: 3 },
        0x49 => Instruction { operate: Op::EOR, addrmode: AddrMode::IMM, cycles: 2 },
        0x4A => Instruction { operate: Op::LSR, addrmode: AddrMode::IMP, cycles: 2 },
        0x4B => Instruction { operate: Op::XXX, addrmode: AddrMode::IMP, cycles: 2 },
        0x4C => Instruction { operate: Op::JMP, addrmode: AddrMode::ABS, cycles: 3 },
        0x4D => Instruction { operate: Op::EOR, addrmode: AddrMode::ABS, cycles: 4 },
        0x4E => Instruction { operate: Op::LSR, addrmode: AddrMode::ABS, cycles: 6 },
        0x4F => Instruction { operate: Op::XXX, addrmode: AddrMode::IMP, cycles: 6 },
        0x50 => Instruction { operate: Op::BVC, addrmode: AddrMode::REL, cycles: 2 },
        0x51 => Instruction { operate: Op::EOR, addrmode: AddrMode::IZY, cycles: 5 },
        0x52 => Instruction { operate: Op::XXX, addrmode: AddrMode::IMP, cycles: 2 },
        0x53 => Instruction { operate: Op::XXX, addrmode: AddrMode::IMP, cycles: 8 },
        0x54 => Instruction { operate: Op::NOP, addrmode: AddrMode::IMP, cycles: 4 },
        0x55 => Instruction { operate: Op::EOR, addrmode: AddrMode::ZPX, cycles: 4 },
        0x56 => Instruction { operate: Op::LSR, addrmode: AddrMode::ZPX, cycles: 6 },
        0x57 => Instruction { operate: Op::XXX, addrmode: AddrMode::IMP, cycles: 6 },
        0x58 => Instruction { operate: Op::CLI, addrmode: AddrMode::IMP, cycles: 2 },
        0x59 => Instruction { operate: Op::EOR, addrmode: AddrMode::ABY, cycles: 4 },
        0x5A => Instruction { operate: Op::NOP, addrmode: AddrMode::IMP, cycles: 2 },
        0x5B => Instruction { operate: Op::XXX, addrmode: AddrMode::IMP, cycles: 7 },
        0x5C => Instruction { operate: Op::NOP, addrmode: AddrMode::IMP, cycles: 4 },
        0x5D => Instruction { operate: Op::EOR, addrmode: AddrMode::ABX, cycles: 4 },
        0x5E => Instruction { operate: Op::LSR, addrmode: AddrMode::ABX, cycles: 7 },
        0x5F => Instruction { operate: Op::XXX, addrmode: AddrMode::IMP, cycles: 7 },
        0x60 => Instruction { operate: Op::RTS, addrmode: AddrMode::IMP, cycles: 6 },
        0x61 => Instruction { operate: Op::ADC, addrmode: AddrMode::IZX, cycles: 6 },
        0x62 => Instruction { operate: Op::XXX, addrmode: AddrMode::IMP, cycles: 2 },
        0x63 => Instruction { operate: Op::XXX, addrmode: AddrMode::IMP, cycles: 8 },
        0x64 => Instruction { operate: Op::NOP, addrmode: AddrMode::IMP, cycles: 3 },
        0x65 => Instruction { operate: Op::ADC, addrmode: AddrMode::ZP0, cycles: 3 },
        0x66 => Instruction { operate: Op::ROR, addrmode: AddrMode::ZP0, cycles: 5 },
        0x67 => Instruction { operate: Op::XXX, addrmode: AddrMode::IMP, cycles: 5 },
        0x68 => Instruction { operate: Op::PLA, addrmode: AddrMode::IMP, cycles: 4 },
        0x69 => Instruction { operate: Op::ADC, addrmode: AddrMode::IMM, cycles: 2 },
        0x6A => Instruction { operate: Op::ROR, addrmode: AddrMode::IMP, cycles: 2 },
        0x6B => Instruction { operate: Op::XXX, addrmode: AddrMode::IMP, cycles: 2 },
        0x6C => Instruction { operate: Op::JMP, addrmode: AddrMode::IND, cycles: 5 },
        0x6D => Instruction { operate: Op::ADC, addrmode: AddrMode::ABS, cycles: 4 },
        0x6E => Instruction { operate: Op::ROR, addrmode: AddrMode::ABS, cycles: 6 },
        0x6F => Instruction { operate: Op::XXX, addrmode: AddrMode::IMP, cycles: 6 },
        0x70 => Instruction { operate: Op::BVS, addrmode: AddrMode::REL, cycles: 2 },
        0x71 => Instruction { operate: Op::ADC, addrmode: AddrMode::IZY, cycles: 5 },
        0x72 => Instruction { operate: Op::XXX, addrmode: AddrMode::IMP, cycles: 2 },
        0x73 => Instruction { operate: Op::XXX, addrmode: AddrMode::IMP, cycles: 8 },
        0x74 => Instruction { operate: Op::NOP, addrmode: AddrMode::IMP, cycles: 4 },
        0x75 => Instruction { operate: Op::ADC, addrmode: AddrMode::ZPX, cycles: 4 },
        0x76 => Instruction { operate: Op::ROR, addrmode: AddrMode::ZPX, cycles: 6 },
        0x77 => Instruction { operate: Op::XXX, addrmode: AddrMode::IMP, cycles: 6 },
        0x78 => Instruction { operate: Op::SEI, addrmode: AddrMode::IMP, cycles: 2 },
        0x79 => Instruction { operate: Op::ADC, addrmode: AddrMode::ABY, cycles: 4 },
        0x7A => Instruction { operate: Op::NOP, addrmode: AddrMode::IMP, cycles: 2 },
        0x7B => Instruction { operate: Op::XXX, addrmode: AddrMode::IMP, cycles: 7 },
        0x7C => Instruction { operate: Op::NOP, addrmode: AddrMode::IMP, cycles: 4 },
        0x7D => Instruction { operate: Op::ADC, addrmode: AddrMode::ABX, cycles: 4 },
        0x7E => Instruction { operate: Op::ROR, addrmode: AddrMode::ABX, cycles: 7 },
        0x7F => Instruction { operate: Op::XXX, addrmode: AddrMode::IMP, cycles: 7 },
        0x80 => Instruction { operate: Op::NOP, addrmode: AddrMode::IMP, cycles: 2 },
        0x81 => Instruction { operate: Op::STA, addrmode: AddrMode::IZX, cycles: 6 },
        0x82 => Instruction { operate: Op::NOP, addrmode: AddrMode::IMP, cycles: 2 },
        0x83 => Instruction { operate: Op::XXX, addrmode: AddrMode::IMP, cycles: 6 },
        0x84 => Instruction { operate: Op::STY, addrmode: AddrMode::ZP0, cycles: 3 },
        0x85 => Instruction { operate: Op::STA, addrmode: AddrMode::ZP0, cycles: 3 },
        0x86 => Instruction { operate: Op::STX, addrmode: AddrMode::ZP0, cycles: 3 },
        0x87 => Instruction { operate: Op::XXX, addrmode: AddrMode::IMP, cycles: 3 },
        0x88 => Instruction { operate: Op::DEY, addrmode: AddrMode::IMP, cycles: 2 },
        0x89 => Instruction { operate: Op::NOP, addrmode: AddrMode::IMP, cycles: 2 },
        0x8A => Instruction { operate: Op::TXA, addrmode: AddrMode::IMP, cycles: 2 },
        0x8B => Instruction { operate: Op::XXX, addrmode: AddrMode::IMP, cycles: 2 },
        0x8C => Instruction { operate: Op::STY, addrmode: AddrMode::ABS, cycles: 4 },
        0x8D => Instruction { operate: Op::STA, addrmode: AddrMode::ABS, cycles: 4 },
        0x8E => Instruction { operate: Op::STX, addrmode: AddrMode::ABS, cycles: 4 },
        0x8F => Instruction { operate: Op::XXX, addrmode: AddrMode::IMP, cycles: 4 },
        0x90 => Instruction { operate: Op::BCC, addrmode: AddrMode::REL, cycles: 2 },
        0x91 => Instruction { operate: Op::STA, addrmode: AddrMode::IZY, cycles: 6 },
        0x92 => Instruction { operate: Op::XXX, addrmode: AddrMode::IMP, cycles: 2 },
        0x93 => Instruction { operate: Op::XXX, addrmode: AddrMode::IMP, cycles: 6 },
        0x94 => Instruction { operate: Op::STY, addrmode: AddrMode::ZPX, cycles: 4 },
        0x95 => Instruction { operate: Op::STA, addrmode: AddrMode::ZPX, cycles: 4 },
        0x96 => Instruction { operate: Op::STX, addrmode: AddrMode::ZPY, cycles: 4 },
        0x97 => Instruction { operate: Op::XXX, addrmode: AddrMode::IMP, cycles: 4 },
        0x98 => Instruction { operate: Op::TYA, addrmode: AddrMode::IMP, cycles: 2 },
        0x99 => Instruction { operate: Op::STA, addrmode: AddrMode::ABY, cycles: 5 },
        0x9A => Instruction { operate: Op::TXS, addrmode: AddrMode::IMP, cycles: 2 },
        0x9B => Instruction { operate: Op::XXX, addrmode: AddrMode::IMP, cycles: 5 },
        0x9C => Instruction { operate: Op::NOP, addrmode: AddrMode::IMP, cycles: 5 },
        0x9D => Instruction { operate: Op::STA, addrmode: AddrMode::ABX, cycles: 5 },
        0x9E => Instruction { operate: Op::XXX, addrmode: AddrMode::IMP, cycles: 5 },
        0x9F => Instruction { operate: Op::XXX, addrmode: AddrMode::IMP, cycles: 5 },
        0xA0 => Instruction { operate: Op::LDY, addrmode: AddrMode::IMM, cycles: 2 },
        0xA1 => Instruction { operate: Op::LDA, addrmode: AddrMode::IZX, cycles: 6 },
        0xA2 => Instruction { operate: Op::LDX, addrmode: AddrMode::IMM, cycles: 2 },
        0xA3 => Instruction { operate: Op::XXX, addrmode: AddrMode::IMP, cycles: 6 },
        0xA4 => Instruction { operate: Op::LDY, addrmode: AddrMode::ZP0, cycles: 3 },
        0xA5 => Instruction { operate: Op::LDA, addrmode: AddrMode::ZP0, cycles: 3 },
        0xA6 => Instruction { operate: Op::LDX, addrmode: AddrMode::ZP0, cycles: 3 },
        0xA7 => Instruction { operate: Op::XXX, addrmode: AddrMode::IMP, cycles: 3 },
        0xA8 => Instruction { operate: Op::TAY, addrmode: AddrMode::IMP, cycles: 2 },
        0xA9 => Instruction { operate: Op::LDA, addrmode: AddrMode::IMM, cycles: 2 },
        0xAA => Instruction { operate: Op::TAX, addrmode: AddrMode::IMP, cycles: 2 },
        0xAB => Instruction { operate: Op::XXX, addrmode: AddrMode::IMP, cycles: 2 },
        0xAC => Instruction { operate: Op::LDY, addrmode: AddrMode::ABS, cycles: 4 },
        0xAD => Instruction { operate: Op::LDA, addrmode: AddrMode::ABS, cycles: 4 },
        0xAE => Instruction { operate: Op::LDX, addrmode: AddrMode::ABS, cycles: 4 },
        0xAF => Instruction { operate: Op::XXX, addrmode: AddrMode::IMP, cycles: 4 },
        0xB0 => Instruction { operate: Op::BCS, addrmode: AddrMode::REL, cycles: 2 },
        0xB1 => Instruction { operate: Op::LDA, addrmode: AddrMode::IZY, cycles: 5 },
        0xB2 => Instruction { operate: Op::XXX, addrmode: AddrMode::IMP, cycles: 2 },
        0xB3 => Instruction { operate: Op::XXX, addrmode: AddrMode::IMP, cycles: 5 },
        0xB4 => Instruction { operate: Op::LDY, addrmode: AddrMode::ZPX, cycles: 4 },
        0xB5 => Instruction { operate: Op::LDA, addrmode: AddrMode::ZPX, cycles: 4 },
        0xB6 => Instruction { operate: Op::LDX, addrmode: AddrMode::ZPY, cycles: 4 },
        0xB7 => Instruction { operate: Op::XXX, addrmode: AddrMode::IMP, cycles: 4 },
        0xB8 => Instruction { operate: Op::CLV, addrmode: AddrMode::IMP, cycles: 2 },
        0xB9 => Instruction { operate: Op::LDA, addrmode: AddrMode::ABY, cycles: 4 },
        0xBA => Instruction { operate: Op::TSX, addrmode: AddrMode::IMP, cycles: 2 },
        0xBB => Instruction { operate: Op::XXX, addrmode: AddrMode::IMP, cycles: 4 },
        0xBC => Instruction { operate: Op::LDY, addrmode: AddrMode::ABX, cycles: 4 },
        0xBD => Instruction { operate: Op::LDA, addrmode: AddrMode::ABX, cycles: 4 },
        0xBE => Instruction { operate: Op::LDX, addrmode: AddrMode::ABY, cycles: 4 },
        0xBF => Instruction { operate: Op::XXX, addrmode: AddrMode::IMP, cycles: 4 },
        0xC0 => Instruction { operate: Op::CPY, addrmode: AddrMode::IMM, cycles: 2 },
        0xC1 => Instruction { operate: Op::CMP, addrmode: AddrMode::IZX, cycles: 6 },
        0xC2 => Instruction { operate: Op::NOP, addrmode: AddrMode::IMP, cycles: 2 },
        0xC3 => Instruction { operate: Op::XXX, addrmode: AddrMode::IMP, cycles: 8 },
        0xC4 => Instruction { operate: Op::CPY, addrmode: AddrMode::ZP0, cycles: 3 },
        0xC5 => Instruction { operate: Op::CMP, addrmode: AddrMode::ZP0, cycles: 3 },
        0xC6 => Instruction { operate: Op::DEC, addrmode: AddrMode::ZP0, cycles: 5 },
        0xC7 => Instruction { operate: Op::XXX, addrmode: AddrMode::IMP, cycles: 5 },
        0xC8 => Instruction { operate: Op::INY, addrmode: AddrMode::IMP, cycles: 2 },
        0xC9 => Instruction { operate: Op::CMP, addrmode: AddrMode::IMM, cycles: 2 },
        0xCA => Instruction { operate: Op::DEX, addrmode: AddrMode::IMP, cycles: 2 },
        0xCB => Instruction { operate: Op::XXX, addrmode: AddrMode::IMP, cycles: 2 },
        0xCC => Instruction { operate: Op::CPY, addrmode: AddrMode::ABS, cycles: 4 },
        0xCD => Instruction { operate: Op::CMP, addrmode: AddrMode::ABS, cycles: 4 },
        0xCE => Instruction { operate: Op::DEC, addrmode: AddrMode::ABS, cycles: 6 },
        0xCF => Instruction { operate: Op::XXX, addrmode: AddrMode::IMP, cycles: 6 },
        0xD0 => Instruction { operate: Op::BNE, addrmode: AddrMode::REL, cycles: 2 },
        0xD1 => Instruction { operate: Op::CMP, addrmode: AddrMode::IZY, cycles: 5 },
        0xD2 => Instruction { operate: Op::XXX, addrmode: AddrMode::IMP, cycles: 2 },
        0xD3 => Instruction { operate: Op::XXX, addrmode: AddrMode::IMP, cycles: 8 },
        0xD4 => Instruction { operate: Op::NOP, addrmode: AddrMode::IMP, cycles: 4 },
        0xD5 => Instruction { operate: Op::CMP, addrmode: AddrMode::ZPX, cycles: 4 },
        0xD6 => Instruction { operate: Op::DEC, addrmode: AddrMode::ZPX, cycles: 6 },
        0xD7 => Instruction { operate: Op::XXX, addrmode: AddrMode::IMP, cycles: 6 },
        0xD8 => Instruction { operate: Op::CLD, addrmode: AddrMode::IMP, cycles: 2 },
        0xD9 => Instruction { operate: Op::CMP, addrmode: AddrMode::ABY, cycles: 4 },
        0xDA => Instruction { operate: Op::NOP, addrmode: AddrMode::IMP, cycles: 2 },
        0xDB => Instruction { operate: Op::XXX, addrmode: AddrMode::IMP, cycles: 7 },
        0xDC => Instruction { operate: Op::NOP, addrmode: AddrMode::IMP, cycles: 4 },
        0xDD => Instruction { operate: Op::CMP, addrmode: AddrMode::ABX, cycles: 4 },
        0xDE => Instruction { operate: Op::DEC, addrmode: AddrMode::ABX, cycles: 7 },
        0xDF => Instruction { operate: Op::XXX, addrmode: AddrMode::IMP, cycles: 7 },
        0xE0 => Instruction { operate: Op::CPX, addrmode: AddrMode::IMM, cycles: 2 },
        0xE1 => Instruction { operate: Op::SBC, addrmode: AddrMode::IZX, cycles: 6 },
        0xE2 => Instruction { operate: Op::NOP, addrmode: AddrMode::IMP, cycles: 2 },
        0xE3 => Instruction { operate: Op::XXX, addrmode: AddrMode::IMP, cycles: 8 },
        0xE4 => Instruction { operate: Op::CPX, addrmode: AddrMode::ZP0, cycles: 3 },
        0xE5 => Instruction { operate: Op::SBC, addrmode: AddrMode::ZP0, cycles: 3 },
        0xE6 => Instruction { operate: Op::INC, addrmode: AddrMode::ZP0, cycles: 5 },
        0xE7 => Instruction { operate: Op::XXX, addrmode: AddrMode::IMP, cycles: 5 },
        0xE8 => Instruction { operate: Op::INX, addrmode: AddrMode::IMP, cycles: 2 },
        0xE9 => Instruction { operate: Op::SBC, addrmode: AddrMode::IMM, cycles: 2 },
        0xEA => Instruction { operate: Op::NOP, addrmode: AddrMode::IMP, cycles: 2 },
        0xEB => Instruction { operate: Op::XXX, addrmode: AddrMode::IMP, cycles: 2 },
        0xEC => Instruction { operate: Op::CPX, addrmode: AddrMode::ABS, cycles: 4 },
        0xED => Instruction { operate: Op::SBC, addrmode: AddrMode::ABS, cycles: 4 },
        0xEE => Instruction { operate: Op::INC, addrmode: AddrMode::ABS, cycles: 6 },
        0xEF => Instruction { operate: Op::XXX, addrmode: AddrMode::IMP, cycles: 6 },
        0xF0 => Instruction { operate: Op::BEQ, addrmode: AddrMode::REL, cycles: 2 },
        0xF1 => Instruction { operate: Op::SBC, addrmode: AddrMode::IZY, cycles: 5 },
        0xF2 => Instruction { operate: Op::XXX, addrmode: AddrMode::IMP, cycles: 2 },
        0xF3 => Instruction { operate: Op::XXX, addrmode: AddrMode::IMP, cycles: 8 },
        0xF4 => Instruction { operate: Op::NOP, addrmode: AddrMode::IMP, cycles: 4 },
        0xF5 => Instruction { operate: Op::SBC, addrmode: AddrMode::ZPX, cycles: 4 },
        0xF6 => Instruction { operate: Op::INC, addrmode: AddrMode::ZPX, cycles: 6 },
        0xF7 => Instruction { operate: Op::XXX, addrmode: AddrMode::IMP, cycles: 6 },
        0xF8 => Instruction { operate: Op::SED, addrmode: AddrMode::IMP, cycles: 2 },
        0xF9 => Instruction { operate: Op::SBC, addrmode: AddrMode::ABY, cycles: 4 },
        0xFA => Instruction { operate: Op::NOP, addrmode: AddrMode::IMP, cycles: 2 },
        0xFB => Instruction { operate: Op::XXX, addrmode: AddrMode::IMP, cycles: 7 },
        0xFC => Instruction { operate: Op::NOP, addrmode: AddrMode::IMP, cycles: 4 },
        0xFD => Instruction { operate: Op::SBC, addrmode: AddrMode::ABX, cycles: 4 },
        0xFE => Instruction { operate: Op::INC, addrmode: AddrMode::ABX, cycles: 7 },
        _ => Instruction { operate: Op::XXX, addrmode: AddrMode::IMP, cycles: 7 },
    }
}

/// Looks up the table entry of an opcode.
pub fn decode(opcode: u8) -> (r: Instruction)
    ensures
        r == instruction(opcode),
        2 <= r.cycles <= 8,
{
    match opcode {
        0x00 => Instruction { operate: Op::BRK, addrmode: AddrMode::IMM, cycles: 7 },
        0x01 => Instruction { operate: Op::ORA, addrmode: AddrMode::IZX, cycles: 6 },
        0x02 => Instruction { operate: Op::XXX, addrmode: AddrMode::IMP, cycles: 2 },
        0x03 => Instruction { operate: Op::XXX, addrmode: AddrMode::IMP, cycles: 8 },
        0x04 => Instruction { operate: Op::NOP, addrmode: AddrMode::IMP, cycles: 3 },
        0x05 => Instruction { operate: Op::ORA, addrmode: AddrMode::ZP0, cycles: 3 },
        0x06 => Instruction { operate: Op::ASL, addrmode: AddrMode::ZP0, cycles: 5 },
        0x07 => Instruction { operate: Op::XXX, addrmode: AddrMode::IMP, cycles: 5 },
        0x08 => Instruction { operate: Op::PHP, addrmode: AddrMode::IMP, cycles: 3 },
        0x09 => Instruction { operate: Op::ORA, addrmode: AddrMode::IMM, cycles: 2 },
        0x0A => Instruction { operate: Op::ASL, addrmode: AddrMode::IMP, cycles: 2 },
        0x0B => Instruction { operate: Op::XXX, addrmode: AddrMode::IMP, cycles: 2 },
        0x0C => Instruction { operate: Op::NOP, addrmode: AddrMode::IMP, cycles: 4 },
        0x0D => Instruction { operate: Op::ORA, addrmode: AddrMode::ABS, cycles: 4 },
        0x0E => Instruction { operate: Op::ASL, addrmode: AddrMode::ABS, cycles: 6 },
        0x0F => Instruction { operate: Op::XXX, addrmode: AddrMode::IMP, cycles: 6 },
        0x10 => Instruction { operate: Op::BPL, addrmode: AddrMode::REL, cycles: 2 },
        0x11 => Instruction { operate: Op::ORA, addrmode: AddrMode::IZY, cycles: 5 },
        0x12 => Instruction { operate: Op::XXX, addrmode: AddrMode::IMP, cycles: 2 },
        0x13 => Instruction { operate: Op::XXX, addrmode: AddrMode::IMP, cycles: 8 },
        0x14 => Instruction { operate: Op::NOP, addrmode: AddrMode::IMP, cycles: 4 },
        0x15 => Instruction { operate: Op::ORA, addrmode: AddrMode::ZPX, cycles: 4 },
        0x16 => Instruction { operate: Op::ASL, addrmode: AddrMode::ZPX, cycles: 6 },
        0x17 => Instruction { operate: Op::XXX, addrmode: AddrMode::IMP, cycles: 6 },
        0x18 => Instruction { operate: Op::CLC, addrmode: AddrMode::IMP, cycles: 2 },
        0x19 => Instruction { operate: Op::ORA, addrmode: AddrMode::ABY, cycles: 4 },
        0x1A => Instruction { operate: Op::NOP, addrmode: AddrMode::IMP, cycles: 2 },
        0x1B => Instruction { operate: Op::XXX, addrmode: AddrMode::IMP, cycles: 7 },
        0x1C => Instruction { operate: Op::NOP, addrmode: AddrMode::IMP, cycles: 4 },
        0x1D => Instruction { operate: Op::ORA, addrmode: AddrMode::ABX, cycles: 4 },
        0x1E => Instruction { operate: Op::ASL, addrmode: AddrMode::ABX, cycles: 7 },
        0x1F => Instruction { operate: Op::XXX, addrmode: AddrMode::IMP, cycles: 7 },
        0x20 => Instruction { operate: Op::JSR, addrmode: AddrMode::ABS, cycles: 6 },
        0x21 => Instruction { operate: Op::AND, addrmode: AddrMode::IZX, cycles: 6 },
        0x22 => Instruction { operate: Op::XXX, addrmode: AddrMode::IMP, cycles: 2 },
        0x23 => Instruction { operate: Op::XXX, addrmode: AddrMode::IMP, cycles: 8 },
        0x24 => Instruction { operate: Op::BIT, addrmode: AddrMode::ZP0, cycles: 3 },
        0x25 => Instruction { operate: Op::AND, addrmode: AddrMode::ZP0, cycles: 3 },
        0x26 => Instruction { operate: Op::ROL, addrmode: AddrMode::ZP0, cycles: 5 },
        0x27 => Instruction { operate: Op::XXX, addrmode: AddrMode::IMP, cycles: 5 },
        0x28 => Instruction { operate: Op::PLP, addrmode: AddrMode::IMP, cycles: 4 },
        0x29 => Instruction { operate: Op::AND, addrmode: AddrMode::IMM, cycles: 2 },
        0x2A => Instruction { operate: Op::ROL, addrmode: AddrMode::IMP, cycles: 2 },
        0x2B => Instruction { operate: Op::XXX, addrmode: AddrMode::IMP, cycles: 2 },
        0x2C => Instruction { operate: Op::BIT, addrmode: AddrMode::ABS, cycles: 4 },
        0x2D => Instruction { operate: Op::AND, addrmode: AddrMode::ABS, cycles: 4 },
        0x2E => Instruction { operate: Op::ROL, addrmode: AddrMode::ABS, cycles: 6 },
        0x2F => Instruction { operate: Op::XXX, addrmode: AddrMode::IMP, cycles: 6 },
        0x30 => Instruction { operate: Op::BMI, addrmode: AddrMode::REL, cycles: 2 },
        0x31 => Instruction { operate: Op::AND, addrmode: AddrMode::IZY, cycles: 5 },
        0x32 => Instruction { operate: Op::XXX, addrmode: AddrMode::IMP, cycles: 2 },
        0x33 => Instruction { operate: Op::XXX, addrmode: AddrMode::IMP, cycles: 8 },
        0x34 => Instruction { operate: Op::NOP, addrmode: AddrMode::IMP, cycles: 4 },
        0x35 => Instruction { operate: Op::AND, addrmode: AddrMode::ZPX, cycles: 4 },
        0x36 => Instruction { operate: Op::ROL, addrmode: AddrMode::ZPX, cycles: 6 },
        0x37 => Instruction { operate: Op::XXX, addrmode: AddrMode::IMP, cycles: 6 },
        0x38 => Instruction { operate: Op::SEC, addrmode: AddrMode::IMP, cycles: 2 },
        0x39 => Instruction { operate: Op::AND, addrmode: AddrMode::ABY, cycles: 4 },
        0x3A => Instruction { operate: Op::NOP, addrmode: AddrMode::IMP, cycles: 2 },
        0x3B => Instruction { operate: Op::XXX, addrmode: AddrMode::IMP, cycles: 7 },
        0x3C => Instruction { operate: Op::NOP, addrmode: AddrMode::IMP, cycles: 4 },
        0x3D => Instruction { operate: Op::AND, addrmode: AddrMode::ABX, cycles: 4 },
        0x3E => Instruction { operate: Op::ROL, addrmode: AddrMode::ABX, cycles: 7 },
        0x3F => Instruction { operate: Op::XXX, addrmode: AddrMode::IMP, cycles: 7 },
        0x40 => Instruction { operate: Op::RTI, addrmode: AddrMode::IMP, cycles: 6 },
        0x41 => Instruction { operate: Op::EOR, addrmode: AddrMode::IZX, cycles: 6 },
        0x42 => Instruction { operate: Op::XXX, addrmode: AddrMode::IMP, cycles: 2 },
        0x43 => Instruction { operate: Op::XXX, addrmode: AddrMode::IMP, cycles: 8 },
        0x44 => Instruction { operate: Op::NOP, addrmode: AddrMode::IMP, cycles: 3 },
        0x45 => Instruction { operate: Op::EOR, addrmode: AddrMode::ZP0, cycles: 3 },
        0x46 => Instruction { operate: Op::LSR, addrmode: AddrMode::ZP0, cycles: 5 },
        0x47 => Instruction { operate: Op::XXX, addrmode: AddrMode::IMP, cycles: 5 },
        0x48 => Instruction { operate: Op::PHA, addrmode: AddrMode::IMP, cycles: 3 },
        0x49 => Instruction { operate: Op::EOR, addrmode: AddrMode::IMM, cycles: 2 },
        0x4A => Instruction { operate: Op::LSR, addrmode: AddrMode::IMP, cycles: 2 },
        0x4B => Instruction { operate: Op::XXX, addrmode: AddrMode::IMP, cycles: 2 },
        0x4C => Instruction { operate: Op::JMP, addrmode: AddrMode::ABS, cycles: 3 },
        0x4D => Instruction { operate: Op::EOR, addrmode: AddrMode::ABS, cycles: 4 },
        0x4E => Instruction { operate: Op::LSR, addrmode: AddrMode::ABS, cycles: 6 },
        0x4F => Instruction { operate: Op::XXX, addrmode: AddrMode::IMP, cycles: 6 },
        0x50 => Instruction { operate: Op::BVC, addrmode: AddrMode::REL, cycles: 2 },
        0x51 => Instruction { operate: Op::EOR, addrmode: AddrMode::IZY, cycles: 5 },
        0x52 => Instruction { operate: Op::XXX, addrmode: AddrMode::IMP, cycles: 2 },
        0x53 => Instruction { operate: Op::XXX, addrmode: AddrMode::IMP, cycles: 8 },
        0x54 => Instruction { operate: Op::NOP, addrmode: AddrMode::IMP, cycles: 4 },
        0x55 => Instruction { operate: Op::EOR, addrmode: AddrMode::ZPX, cycles: 4 },
        0x56 => Instruction { operate: Op::LSR, addrmode: AddrMode::ZPX, cycles: 6 },
        0x57 => Instruction { operate: Op::XXX, addrmode: AddrMode::IMP, cycles: 6 },
        0x58 => Instruction { operate: Op::CLI, addrmode: AddrMode::IMP, cycles: 2 },
        0x59 => Instruction { operate: Op::EOR, addrmode: AddrMode::ABY, cycles: 4 },
        0x5A => Instruction { operate: Op::NOP, addrmode: AddrMode::IMP, cycles: 2 },
        0x5B => Instruction { operate: Op::XXX, addrmode: AddrMode::IMP, cycles: 7 },
        0x5C => Instruction { operate: Op::NOP, addrmode: AddrMode::IMP, cycles: 4 },
        0x5D => Instruction { operate: Op::EOR, addrmode: AddrMode::ABX, cycles: 4 },
        0x5E => Instruction { operate: Op::LSR, addrmode: AddrMode::ABX, cycles: 7 },
        0x5F => Instruction { operate: Op::XXX, addrmode: AddrMode::IMP, cycles: 7 },
        0x60 => Instruction { operate: Op::RTS, addrmode: AddrMode::IMP, cycles: 6 },
        0x61 => Instruction { operate: Op::ADC, addrmode: AddrMode::IZX, cycles: 6 },
        0x62 => Instruction { operate: Op::XXX, addrmode: AddrMode::IMP, cycles: 2 },
        0x63 => Instruction { operate: Op::XXX, addrmode: AddrMode::IMP, cycles: 8 },
        0x64 => Instruction { operate: Op::NOP, addrmode: AddrMode::IMP, cycles: 3 },
        0x65 => Instruction { operate: Op::ADC, addrmode: AddrMode::ZP0, cycles: 3 },
        0x66 => Instruction { operate: Op::ROR, addrmode: AddrMode::ZP0, cycles: 5 },
        0x67 => Instruction { operate: Op::XXX, addrmode: AddrMode::IMP, cycles: 5 },
        0x68 => Instruction { operate: Op::PLA, addrmode: AddrMode::IMP, cycles: 4 },
        0x69 => Instruction { operate: Op::ADC, addrmode: AddrMode::IMM, cycles: 2 },
        0x6A => Instruction { operate: Op::ROR, addrmode: AddrMode::IMP, cycles: 2 },
        0x6B => Instruction { operate: Op::XXX, addrmode: AddrMode::IMP, cycles: 2 },
        0x6C => Instruction { operate: Op::JMP, addrmode: AddrMode::IND, cycles: 5 },
        0x6D => Instruction { operate: Op::ADC, addrmode: AddrMode::ABS, cycles: 4 },
        0x6E => Instruction { operate: Op::ROR, addrmode: AddrMode::ABS, cycles: 6 },
        0x6F => Instruction { operate: Op::XXX, addrmode: AddrMode::IMP, cycles: 6 },
        0x70 => Instruction { operate: Op::BVS, addrmode: AddrMode::REL, cycles: 2 },
        0x71 => Instruction { operate: Op::ADC, addrmode: AddrMode::IZY, cycles: 5 },
        0x72 => Instruction { operate: Op::XXX, addrmode: AddrMode::IMP, cycles: 2 },
        0x73 => Instruction { operate: Op::XXX, addrmode: AddrMode::IMP, cycles: 8 },
        0x74 => Instruction { operate: Op::NOP, addrmode: AddrMode::IMP, cycles: 4 },
        0x75 => Instruction { operate: Op::ADC, addrmode: AddrMode::ZPX, cycles: 4 },
        0x76 => Instruction { operate: Op::ROR, addrmode: AddrMode::ZPX, cycles: 6 },
        0x77 => Instruction { operate: Op::XXX, addrmode: AddrMode::IMP, cycles: 6 },
        0x78 => Instruction { operate: Op::SEI, addrmode: AddrMode::IMP, cycles: 2 },
        0x79 => Instruction { operate: Op::ADC, addrmode: AddrMode::ABY, cycles: 4 },
        0x7A => Instruction { operate: Op::NOP, addrmode: AddrMode::IMP, cycles: 2 },
        0x7B => Instruction { operate: Op::XXX, addrmode: AddrMode::IMP, cycles: 7 },
        0x7C => Instruction { operate: Op::NOP, addrmode: AddrMode::IMP, cycles: 4 },
        0x7D => Instruction { operate: Op::ADC, addrmode: AddrMode::ABX, cycles: 4 },
        0x7E => Instruction { operate: Op::ROR, addrmode: AddrMode::ABX, cycles: 7 },
        0x7F => Instruction { operate: Op::XXX, addrmode: AddrMode::IMP, cycles: 7 },
        0x80 => Instruction { operate: Op::NOP, addrmode: AddrMode::IMP, cycles: 2 },
        0x81 => Instruction { operate: Op::STA, addrmode: AddrMode::IZX, cycles: 6 },
        0x82 => Instruction { operate: Op::NOP, addrmode: AddrMode::IMP, cycles: 2 },
        0x83 => Instruction { operate: Op::XXX, addrmode: AddrMode::IMP, cycles: 6 },
        0x84 => Instruction { operate: Op::STY, addrmode: AddrMode::ZP0, cycles: 3 },
        0x85 => Instruction { operate: Op::STA, addrmode: AddrMode::ZP0, cycles: 3 },
        0x86 => Instruction { operate: Op::STX, addrmode: AddrMode::ZP0, cycles: 3 },
        0x87 => Instruction { operate: Op::XXX, addrmode: AddrMode::IMP, cycles: 3 },
        0x88 => Instruction { operate: Op::DEY, addrmode: AddrMode::IMP, cycles: 2 },
        0x89 => Instruction { operate: Op::NOP, addrmode: AddrMode::IMP, cycles: 2 },
        0x8A => Instruction { operate: Op::TXA, addrmode: AddrMode::IMP, cycles: 2 },
        0x8B => Instruction { operate: Op::XXX, addrmode: AddrMode::IMP, cycles: 2 },
        0x8C => Instruction { operate: Op::STY, addrmode: AddrMode::ABS, cycles: 4 },
        0x8D => Instruction { operate: Op::STA, addrmode: AddrMode::ABS, cycles: 4 },
        0x8E => Instruction { operate: Op::STX, addrmode: AddrMode::ABS, cycles: 4 },
        0x8F => Instruction { operate: Op::XXX, addrmode: AddrMode::IMP, cycles: 4 },
        0x90 => Instruction { operate: Op::BCC, addrmode: AddrMode::REL, cycles: 2 },
        0x91 => Instruction { operate: Op::STA, addrmode: AddrMode::IZY, cycles: 6 },
        0x92 => Instruction { operate: Op::XXX, addrmode: AddrMode::IMP, cycles: 2 },
        0x93 => Instruction { operate: Op::XXX, addrmode: AddrMode::IMP, cycles: 6 },
        0x94 => Instruction { operate: Op::STY, addrmode: AddrMode::ZPX, cycles: 4 },
        0x95 => Instruction { operate: Op::STA, addrmode: AddrMode::ZPX, cycles: 4 },
        0x96 => Instruction { operate: Op::STX, addrmode: AddrMode::ZPY, cycles: 4 },
        0x97 => Instruction { operate: Op::XXX, addrmode: AddrMode::IMP, cycles: 4 },
        0x98 => Instruction { operate: Op::TYA, addrmode: AddrMode::IMP, cycles: 2 },
        0x99 => Instruction { operate: Op::STA, addrmode: AddrMode::ABY, cycles: 5 },
        0x9A => Instruction { operate: Op::TXS, addrmode: AddrMode::IMP, cycles: 2 },
        0x9B => Instruction { operate: Op::XXX, addrmode: AddrMode::IMP, cycles: 5 },
        0x9C => Instruction { operate: Op::NOP, addrmode: AddrMode::IMP, cycles: 5 },
        0x9D => Instruction { operate: Op::STA, addrmode: AddrMode::ABX, cycles: 5 },
        0x9E => Instruction { operate: Op::XXX, addrmode: AddrMode::IMP, cycles: 5 },
        0x9F => Instruction { operate: Op::XXX, addrmode: AddrMode::IMP, cycles: 5 },
        0xA0 => Instruction { operate: Op::LDY, addrmode: AddrMode::IMM, cycles: 2 },
        0xA1 => Instruction { operate: Op::LDA, addrmode: AddrMode::IZX, cycles: 6 },
        0xA2 => Instruction { operate: Op::LDX, addrmode: AddrMode::IMM, cycles: 2 },
        0xA3 => Instruction { operate: Op::XXX, addrmode: AddrMode::IMP, cycles: 6 },
        0xA4 => Instruction { operate: Op::LDY, addrmode: AddrMode::ZP0, cycles: 3 },
        0xA5 => Instruction { operate: Op::LDA, addrmode: AddrMode::ZP0, cycles: 3 },
        0xA6 => Instruction { operate: Op::LDX, addrmode: AddrMode::ZP0, cycles: 3 },
        0xA7 => Instruction { operate: Op::XXX, addrmode: AddrMode::IMP, cycles: 3 },
        0xA8 => Instruction { operate: Op::TAY, addrmode: AddrMode::IMP, cycles: 2 },
        0xA9 => Instruction { operate: Op::LDA, addrmode: AddrMode::IMM, cycles: 2 },
        0xAA => Instruction { operate: Op::TAX, addrmode: AddrMode::IMP, cycles: 2 },
        0xAB => Instruction { operate: Op::XXX, addrmode: AddrMode::IMP, cycles: 2 },
        0xAC => Instruction { operate: Op::LDY, addrmode: AddrMode::ABS, cycles: 4 },
        0xAD => Instruction { operate: Op::LDA, addrmode: AddrMode::ABS, cycles: 4 },
        0xAE => Instruction { operate: Op::LDX, addrmode: AddrMode::ABS, cycles: 4 },
        0xAF => Instruction { operate: Op::XXX, addrmode: AddrMode::IMP, cycles: 4 },
        0xB0 => Instruction { operate: Op::BCS, addrmode: AddrMode::REL, cycles: 2 },
        0xB1 => Instruction { operate: Op::LDA, addrmode: AddrMode::IZY, cycles: 5 },
        0xB2 => Instruction { operate: Op::XXX, addrmode: AddrMode::IMP, cycles: 2 },
        0xB3 => Instruction { operate: Op::XXX, addrmode: AddrMode::IMP, cycles: 5 },
        0xB4 => Instruction { operate: Op::LDY, addrmode: AddrMode::ZPX, cycles: 4 },
        0xB5 => Instruction { operate: Op::LDA, addrmode: AddrMode::ZPX, cycles: 4 },
        0xB6 => Instruction { operate: Op::LDX, addrmode: AddrMode::ZPY, cycles: 4 },
        0xB7 => Instruction { operate: Op::XXX, addrmode: AddrMode::IMP, cycles: 4 },
        0xB8 => Instruction { operate: Op::CLV, addrmode: AddrMode::IMP, cycles: 2 },
        0xB9 => Instruction { operate: Op::LDA, addrmode: AddrMode::ABY, cycles: 4 },
        0xBA => Instruction { operate: Op::TSX, addrmode: AddrMode::IMP, cycles: 2 },
        0xBB => Instruction { operate: Op::XXX, addrmode: AddrMode::IMP, cycles: 4 },
        0xBC => Instruction { operate: Op::LDY, addrmode: AddrMode::ABX, cycles: 4 },
        0xBD => Instruction { operate: Op::LDA, addrmode: AddrMode::ABX, cycles: 4 },
        0xBE => Instruction { operate: Op::LDX, addrmode: AddrMode::ABY, cycles: 4 },
        0xBF => Instruction { operate: Op::XXX, addrmode: AddrMode::IMP, cycles: 4 },
        0xC0 => Instruction { operate: Op::CPY, addrmode: AddrMode::IMM, cycles: 2 },
        0xC1 => Instruction { operate: Op::CMP, addrmode: AddrMode::IZX, cycles: 6 },
        0xC2 => Instruction { operate: Op::NOP, addrmode: AddrMode::IMP, cycles: 2 },
        0xC3 => Instruction { operate: Op::XXX, addrmode: AddrMode::IMP, cycles: 8 },
        0xC4 => Instruction { operate: Op::CPY, addrmode: AddrMode::ZP0, cycles: 3 },
        0xC5 => Instruction { operate: Op::CMP, addrmode: AddrMode::ZP0, cycles: 3 },
        0xC6 => Instruction { operate: Op::DEC, addrmode: AddrMode::ZP0, cycles: 5 },
        0xC7 => Instruction { operate: Op::XXX, addrmode: AddrMode::IMP, cycles: 5 },
        0xC8 => Instruction { operate: Op::INY, addrmode: AddrMode::IMP, cycles: 2 },
        0xC9 => Instruction { operate: Op::CMP, addrmode: AddrMode::IMM, cycles: 2 },
        0xCA => Instruction { operate: Op::DEX, addrmode: AddrMode::IMP, cycles: 2 },
        0xCB => Instruction { operate: Op::XXX, addrmode: AddrMode::IMP, cycles: 2 },
        0xCC => Instruction { operate: Op::CPY, addrmode: AddrMode::ABS, cycles: 4 },
        0xCD => Instruction { operate: Op::CMP, addrmode: AddrMode::ABS, cycles: 4 },
        0xCE => Instruction { operate: Op::DEC, addrmode: AddrMode::ABS, cycles: 6 },
        0xCF => Instruction { operate: Op::XXX, addrmode: AddrMode::IMP, cycles: 6 },
        0xD0 => Instruction { operate: Op::BNE, addrmode: AddrMode::REL, cycles: 2 },
        0xD1 => Instruction { operate: Op::CMP, addrmode: AddrMode::IZY, cycles: 5 },
        0xD2 => Instruction { operate: Op::XXX, addrmode: AddrMode::IMP, cycles: 2 },
        0xD3 => Instruction { operate: Op::XXX, addrmode: AddrMode::IMP, cycles: 8 },
        0xD4 => Instruction { operate: Op::NOP, addrmode: AddrMode::IMP, cycles: 4 },
        0xD5 => Instruction { operate: Op::CMP, addrmode: AddrMode::ZPX, cycles: 4 },
        0xD6 => Instruction { operate: Op::DEC, addrmode: AddrMode::ZPX, cycles: 6 },
        0xD7 => Instruction { operate: Op::XXX, addrmode: AddrMode::IMP, cycles: 6 },
        0xD8 => Instruction { operate: Op::CLD, addrmode: AddrMode::IMP, cycles: 2 },
        0xD9 => Instruction { operate: Op::CMP, addrmode: AddrMode::ABY, cycles: 4 },
        0xDA => Instruction { operate: Op::NOP, addrmode: AddrMode::IMP, cycles: 2 },
        0xDB => Instruction { operate: Op::XXX, addrmode: AddrMode::IMP, cycles: 7 },
        0xDC => Instruction { operate: Op::NOP, addrmode: AddrMode::IMP, cycles: 4 },
        0xDD => Instruction { operate: Op::CMP, addrmode: AddrMode::ABX, cycles: 4 },
        0xDE => Instruction { operate: Op::DEC, addrmode: AddrMode::ABX, cycles: 7 },
        0xDF => Instruction { operate: Op::XXX, addrmode: AddrMode::IMP, cycles: 7 },
        0xE0 => Instruction { operate: Op::CPX, addrmode: AddrMode::IMM, cycles: 2 },
        0xE1 => Instruction { operate: Op::SBC, addrmode: AddrMode::IZX, cycles: 6 },
        0xE2 => Instruction { operate: Op::NOP, addrmode: AddrMode::IMP, cycles: 2 },
        0xE3 => Instruction { operate: Op::XXX, addrmode: AddrMode::IMP, cycles: 8 },
        0xE4 => Instruction { operate: Op::CPX, addrmode: AddrMode::ZP0, cycles: 3 },
        0xE5 => Instruction { operate: Op::SBC, addrmode: AddrMode::ZP0, cycles: 3 },
        0xE6 => Instruction { operate: Op::INC, addrmode: AddrMode::ZP0, cycles: 5 },
        0xE7 => Instruction { operate: Op::XXX, addrmode: AddrMode::IMP, cycles: 5 },
        0xE8 => Instruction { operate: Op::INX, addrmode: AddrMode::IMP, cycles: 2 },
        0xE9 => Instruction { operate: Op::SBC, addrmode: AddrMode::IMM, cycles: 2 },
        0xEA => Instruction { operate: Op::NOP, addrmode: AddrMode::IMP, cycles: 2 },
        0xEB => Instruction { operate: Op::XXX, addrmode: AddrMode::IMP, cycles: 2 },
        0xEC => Instruction { operate: Op::CPX, addrmode: AddrMode::ABS, cycles: 4 },
        0xED => Instruction { operate: Op::SBC, addrmode: AddrMode::ABS, cycles: 4 },
        0xEE => Instruction { operate: Op::INC, addrmode: AddrMode::ABS, cycles: 6 },
        0xEF => Instruction { operate: Op::XXX, addrmode: AddrMode::IMP, cycles: 6 },
        0xF0 => Instruction { operate: Op::BEQ, addrmode: AddrMode::REL, cycles: 2 },
        0xF1 => Instruction { operate: Op::SBC, addrmode: AddrMode::IZY, cycles: 5 },
        0xF2 => Instruction { operate: Op::XXX, addrmode: AddrMode::IMP, cycles: 2 },
        0xF3 => Instruction { operate: Op::XXX, addrmode: AddrMode::IMP, cycles: 8 },
        0xF4 => Instruction { operate: Op::NOP, addrmode: AddrMode::IMP, cycles: 4 },
        0xF5 => Instruction { operate: Op::SBC, addrmode: AddrMode::ZPX, cycles: 4 },
        0xF6 => Instruction { operate: Op::INC, addrmode: AddrMode::ZPX, cycles: 6 },
        0xF7 => Instruction { operate: Op::XXX, addrmode: AddrMode::IMP, cycles: 6 },
        0xF8 => Instruction { operate: Op::SED, addrmode: AddrMode::IMP, cycles: 2 },
        0xF9 => Instruction { operate: Op::SBC, addrmode: AddrMode::ABY, cycles: 4 },
        0xFA => Instruction { operate: Op::NOP, addrmode: AddrMode::IMP, cycles: 2 },
        0xFB => Instruction { operate: Op::XXX, addrmode: AddrMode::IMP, cycles: 7 },
        0xFC => Instruction { operate: Op::NOP, addrmode: AddrMode::IMP, cycles: 4 },
        0xFD => Instruction { operate: Op::SBC, addrmode: AddrMode::ABX, cycles: 4 },
        0xFE => Instruction { operate: Op::INC, addrmode: AddrMode::ABX, cycles: 7 },
        _ => Instruction { operate: Op::XXX, addrmode: AddrMode::IMP, cycles: 7 },
    }
}

} // verus!
