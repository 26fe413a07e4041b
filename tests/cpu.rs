use nes_emu::alu::{add_with_carry, branch_target, index_address, subtract_with_carry};
use nes_emu::cpu::{Cpu, FLAGS6502};
use nes_emu::nes::Nes;
use nes_emu::opcodes::{decode, AddrMode, Op};

/// An image with one program bank holding `program` at 0x8000 (mirrored at
/// 0xC000), reset vector 0x8000, and NMI and IRQ vectors 0x9000 and 0xA000.
fn console(program: &[u8]) -> Nes {
    let mut rom = vec![0x4E, 0x45, 0x53, 0x1A, 1, 1, 0, 0];
    rom.resize(16, 0);
    let mut prg = vec![0xEAu8; 16384];
    prg[..program.len()].copy_from_slice(program);
    prg[0x3FFA] = 0x00;
    prg[0x3FFB] = 0x90;
    prg[0x3FFC] = 0x00;
    prg[0x3FFD] = 0x80;
    prg[0x3FFE] = 0x00;
    prg[0x3FFF] = 0xA0;
    rom.extend(prg);
    rom.resize(16 + 16384 + 8192, 0);
    let mut nes = Nes::new(&rom).unwrap();
    nes.reset();
    step(&mut nes);
    nes
}

/// Runs the CPU until the current instruction is over; its cycle count.
fn step(nes: &mut Nes) -> u32 {
    let mut n = 0;
    loop {
        nes.cpu.clock(&mut nes.bus);
        n += 1;
        if nes.cpu.is_complete() {
            return n;
        }
    }
}

fn flag(nes: &Nes, f: FLAGS6502) -> bool {
    nes.cpu.get_flag(f) == 1
}

#[test]
fn reset_loads_vector_and_registers() {
    let mut nes = console(&[]);
    nes.cpu.a = 5;
    nes.cpu.x = 6;
    nes.cpu.y = 7;
    nes.cpu.status = 0xFF;
    nes.reset();
    assert_eq!(nes.cpu.pc, 0x8000);
    assert_eq!(nes.cpu.stkp, 0xFD);
    assert_eq!(nes.cpu.status, 0x20);
    assert_eq!((nes.cpu.a, nes.cpu.x, nes.cpu.y), (0, 0, 0));
    assert_eq!(nes.cpu.cycles, 8);
}

#[test]
fn reset_vector_is_little_endian() {
    let mut rom = vec![0x4E, 0x45, 0x53, 0x1A, 1, 0, 0, 0];
    rom.resize(16, 0);
    let mut prg = vec![0u8; 16384];
    prg[0x3FFC] = 0x34;
    prg[0x3FFD] = 0x12;
    rom.extend(prg);
    let mut nes = Nes::new(&rom).unwrap();
    nes.reset();
    assert_eq!(nes.cpu.pc, 0x1234);
}

fn expected_adc(a: u8, m: u8, c: bool) -> (u8, bool, bool) {
    let sum = a as u16 + m as u16 + c as u16;
    let r = (sum & 0xFF) as u8;
    let v = (a ^ r) & (m ^ r) & 0x80 != 0;
    (r, sum > 0xFF, v)
}

fn expected_sbc(a: u8, m: u8, c: bool) -> (u8, bool, bool) {
    let d = a as i16 - m as i16 - (!c) as i16;
    let sd = (a as i8) as i16 - (m as i8) as i16 - (!c) as i16;
    ((d & 0xFF) as u8, d >= 0, !(-128..=127).contains(&sd))
}

const BOUNDARY: [u8; 4] = [0x00, 0x7F, 0x80, 0xFF];

#[test]
fn adc_boundary_truth_table() {
    for &a in BOUNDARY.iter() {
        for &m in BOUNDARY.iter() {
            for &c in [false, true].iter() {
                assert_eq!(add_with_carry(a, m, c), expected_adc(a, m, c), "{a:02X}+{m:02X}+{c}");
                let set_carry = if c { 0x38 } else { 0x18 };
                let mut nes = console(&[set_carry, 0xA9, a, 0x69, m]);
                step(&mut nes);
                step(&mut nes);
                let cycles = step(&mut nes);
                let (r, carry, v) = expected_adc(a, m, c);
                assert_eq!(nes.cpu.a, r);
                assert_eq!(flag(&nes, FLAGS6502::C), carry);
                assert_eq!(flag(&nes, FLAGS6502::V), v);
                assert_eq!(flag(&nes, FLAGS6502::Z), r == 0);
                assert_eq!(flag(&nes, FLAGS6502::N), r & 0x80 != 0);
                assert_eq!(cycles, 2);
            }
        }
    }
}

#[test]
fn sbc_boundary_truth_table() {
    for &a in BOUNDARY.iter() {
        for &m in BOUNDARY.iter() {
            for &c in [false, true].iter() {
                assert_eq!(subtract_with_carry(a, m, c), expected_sbc(a, m, c), "{a:02X}-{m:02X}-{c}");
                let set_carry = if c { 0x38 } else { 0x18 };
                let mut nes = console(&[set_carry, 0xA9, a, 0xE9, m]);
                step(&mut nes);
                step(&mut nes);
                step(&mut nes);
                let (r, carry, v) = expected_sbc(a, m, c);
                assert_eq!(nes.cpu.a, r);
                assert_eq!(flag(&nes, FLAGS6502::C), carry);
                assert_eq!(flag(&nes, FLAGS6502::V), v);
                assert_eq!(flag(&nes, FLAGS6502::Z), r == 0);
                assert_eq!(flag(&nes, FLAGS6502::N), r & 0x80 != 0);
            }
        }
    }
}

#[test]
fn adc_known_rows() {
    assert_eq!(add_with_carry(0x7F, 0x01, false), (0x80, false, true));
    assert_eq!(add_with_carry(0xFF, 0x01, false), (0x00, true, false));
    assert_eq!(add_with_carry(0x80, 0x80, false), (0x00, true, true));
    assert_eq!(add_with_carry(0x00, 0x00, true), (0x01, false, false));
    assert_eq!(subtract_with_carry(0x00, 0x01, true), (0xFF, false, false));
    assert_eq!(subtract_with_carry(0x80, 0x01, true), (0x7F, true, true));
    assert_eq!(subtract_with_carry(0x50, 0x50, true), (0x00, true, false));
}

#[test]
fn indexing_reports_page_crossing() {
    assert_eq!(index_address(0xFF, 0x12, 0x01), (0x1300, 1));
    assert_eq!(index_address(0x10, 0x12, 0x05), (0x1215, 0));
    assert_eq!(index_address(0xFF, 0xFF, 0x01), (0x0000, 1));
    assert_eq!(index_address(0x00, 0x12, 0xFF), (0x12FF, 0));
}

#[test]
fn branch_cycles_follow_the_page() {
    assert_eq!(branch_target(0x8010, 0x0005), (0x8015, 1));
    assert_eq!(branch_target(0x80FE, 0x0004), (0x8102, 2));
    assert_eq!(branch_target(0x8100, 0xFFFE), (0x80FE, 2));
}

#[test]
fn absolute_x_load_takes_extra_cycle_only_across_page() {
    // LDX #1; LDA $02FF,X; LDA $0200,X
    let mut nes = console(&[0xA2, 0x01, 0xBD, 0xFF, 0x02, 0xBD, 0x00, 0x02]);
    nes.bus.cpu_ram[0x300] = 0x44;
    nes.bus.cpu_ram[0x201] = 0x55;
    assert_eq!(step(&mut nes), 2);
    assert_eq!(step(&mut nes), 5);
    assert_eq!(nes.cpu.a, 0x44);
    assert_eq!(step(&mut nes), 4);
    assert_eq!(nes.cpu.a, 0x55);
}

#[test]
fn store_absolute_x_never_takes_extra_cycle() {
    // LDX #1; STA $02FF,X
    let mut nes = console(&[0xA2, 0x01, 0x9D, 0xFF, 0x02]);
    step(&mut nes);
    assert_eq!(step(&mut nes), 5);
}

#[test]
fn indirect_y_takes_extra_cycle_across_page() {
    // LDY #2; LDA ($10),Y with $10 -> $02FF
    let mut nes = console(&[0xA0, 0x02, 0xB1, 0x10]);
    nes.bus.cpu_ram[0x10] = 0xFF;
    nes.bus.cpu_ram[0x11] = 0x02;
    nes.bus.cpu_ram[0x301] = 0x66;
    step(&mut nes);
    assert_eq!(step(&mut nes), 6);
    assert_eq!(nes.cpu.a, 0x66);
}

#[test]
fn branch_taken_and_not_taken_cycles() {
    // LDA #0 (Z set); BNE +2 (not taken); BEQ +2 (taken, same page)
    let mut nes = console(&[0xA9, 0x00, 0xD0, 0x02, 0xF0, 0x02]);
    step(&mut nes);
    assert_eq!(step(&mut nes), 2);
    assert_eq!(nes.cpu.pc, 0x8004);
    assert_eq!(step(&mut nes), 3);
    assert_eq!(nes.cpu.pc, 0x8008);
}

#[test]
fn branch_across_page_costs_two_more() {
    let mut program = vec![0xEAu8; 0x100];
    // at 0x80FB: LDA #0; BEQ +4 -> from 0x80FF to 0x8103
    program[0xFB] = 0xA9;
    program[0xFC] = 0x00;
    program[0xFD] = 0xF0;
    program[0xFE] = 0x04;
    let mut nes = console(&program);
    nes.cpu.pc = 0x80FB;
    step(&mut nes);
    assert_eq!(step(&mut nes), 4);
    assert_eq!(nes.cpu.pc, 0x8103);
}

#[test]
fn subroutine_call_and_return() {
    // JSR $8010; at $8010: LDA #$42; RTS
    let mut program = vec![0xEAu8; 0x20];
    program[0] = 0x20;
    program[1] = 0x10;
    program[2] = 0x80;
    program[0x10] = 0xA9;
    program[0x11] = 0x42;
    program[0x12] = 0x60;
    let mut nes = console(&program);
    assert_eq!(step(&mut nes), 6);
    assert_eq!(nes.cpu.pc, 0x8010);
    assert_eq!(nes.cpu.stkp, 0xFB);
    assert_eq!(nes.bus.cpu_ram[0x1FD], 0x80);
    assert_eq!(nes.bus.cpu_ram[0x1FC], 0x02);
    step(&mut nes);
    assert_eq!(step(&mut nes), 6);
    assert_eq!(nes.cpu.pc, 0x8003);
    assert_eq!(nes.cpu.a, 0x42);
    assert_eq!(nes.cpu.stkp, 0xFD);
}

#[test]
fn stack_push_and_pull() {
    // LDA #$80; PHA; LDA #0; PLA
    let mut nes = console(&[0xA9, 0x80, 0x48, 0xA9, 0x00, 0x68]);
    step(&mut nes);
    assert_eq!(step(&mut nes), 3);
    assert_eq!(nes.bus.cpu_ram[0x1FD], 0x80);
    step(&mut nes);
    assert!(flag(&nes, FLAGS6502::Z));
    assert_eq!(step(&mut nes), 4);
    assert_eq!(nes.cpu.a, 0x80);
    assert!(flag(&nes, FLAGS6502::N));
    assert!(!flag(&nes, FLAGS6502::Z));
}

#[test]
fn php_pushes_break_and_unused() {
    // SEC; PHP
    let mut nes = console(&[0x38, 0x08]);
    step(&mut nes);
    step(&mut nes);
    assert_eq!(nes.bus.cpu_ram[0x1FD], 0x20 | 0x10 | 0x01);
}

#[test]
fn shifts_on_accumulator_and_memory() {
    // LDA #$81; ASL A; LSR $10; ROL $11; ROR A
    let mut nes = console(&[0xA9, 0x81, 0x0A, 0x46, 0x10, 0x26, 0x11, 0x6A]);
    nes.bus.cpu_ram[0x10] = 0x03;
    nes.bus.cpu_ram[0x11] = 0x80;
    step(&mut nes);
    step(&mut nes);
    assert_eq!(nes.cpu.a, 0x02);
    assert!(flag(&nes, FLAGS6502::C));
    assert_eq!(step(&mut nes), 5);
    assert_eq!(nes.bus.cpu_ram[0x10], 0x01);
    assert!(flag(&nes, FLAGS6502::C));
    step(&mut nes);
    assert_eq!(nes.bus.cpu_ram[0x11], 0x01);
    assert!(flag(&nes, FLAGS6502::C));
    step(&mut nes);
    assert_eq!(nes.cpu.a, 0x81);
    assert!(!flag(&nes, FLAGS6502::C));
}

#[test]
fn compare_sets_carry_zero_negative() {
    // LDA #$40; CMP #$40; CMP #$41; CMP #$10
    let mut nes = console(&[0xA9, 0x40, 0xC9, 0x40, 0xC9, 0x41, 0xC9, 0x10]);
    step(&mut nes);
    step(&mut nes);
    assert!(flag(&nes, FLAGS6502::C) && flag(&nes, FLAGS6502::Z) && !flag(&nes, FLAGS6502::N));
    step(&mut nes);
    assert!(!flag(&nes, FLAGS6502::C) && !flag(&nes, FLAGS6502::Z) && flag(&nes, FLAGS6502::N));
    step(&mut nes);
    assert!(flag(&nes, FLAGS6502::C) && !flag(&nes, FLAGS6502::Z));
}

#[test]
fn increments_wrap_and_set_flags() {
    // LDX #$FF; INX; DEY; INC $10
    let mut nes = console(&[0xA2, 0xFF, 0xE8, 0x88, 0xE6, 0x10]);
    nes.bus.cpu_ram[0x10] = 0x7F;
    step(&mut nes);
    step(&mut nes);
    assert_eq!(nes.cpu.x, 0);
    assert!(flag(&nes, FLAGS6502::Z));
    step(&mut nes);
    assert_eq!(nes.cpu.y, 0xFF);
    assert!(flag(&nes, FLAGS6502::N));
    assert_eq!(step(&mut nes), 5);
    assert_eq!(nes.bus.cpu_ram[0x10], 0x80);
}

#[test]
fn indirect_jump_wraps_within_page() {
    // JMP ($02FF): low byte from $02FF, high byte from $0200
    let mut nes = console(&[0x6C, 0xFF, 0x02]);
    nes.bus.cpu_ram[0x2FF] = 0x34;
    nes.bus.cpu_ram[0x200] = 0x12;
    nes.bus.cpu_ram[0x300] = 0x99;
    assert_eq!(step(&mut nes), 5);
    assert_eq!(nes.cpu.pc, 0x1234);
}

#[test]
fn brk_and_rti() {
    // BRK at 0x8000; handler at 0xA000: RTI
    let mut program = vec![0xEAu8; 0x2001];
    program[0] = 0x00;
    program[0x2000] = 0x40;
    let mut nes = console(&program);
    assert_eq!(step(&mut nes), 7);
    assert_eq!(nes.cpu.pc, 0xA000);
    assert!(flag(&nes, FLAGS6502::I));
    assert!(!flag(&nes, FLAGS6502::B));
    assert_eq!(nes.bus.cpu_ram[0x1FB] & 0x10, 0x10);
    assert_eq!(step(&mut nes), 6);
    // the immediate-mode fetch and the operation each step past a byte
    assert_eq!(nes.cpu.pc, 0x8003);
}

#[test]
fn nmi_pushes_state_and_jumps() {
    let mut nes = console(&[]);
    nes.cpu.nmi(&mut nes.bus);
    assert_eq!(nes.cpu.pc, 0x9000);
    assert_eq!(nes.cpu.cycles, 8);
    assert_eq!(nes.cpu.stkp, 0xFA);
    assert_eq!(nes.bus.cpu_ram[0x1FD], 0x80);
    assert_eq!(nes.bus.cpu_ram[0x1FC], 0x00);
    assert_eq!(nes.bus.cpu_ram[0x1FB] & 0x30, 0x20);
    assert!(flag(&nes, FLAGS6502::I));
}

#[test]
fn irq_respects_interrupt_disable() {
    let mut nes = console(&[]);
    nes.cpu.set_flag(FLAGS6502::I, true);
    nes.cpu.irq(&mut nes.bus);
    assert_eq!(nes.cpu.pc, 0x8000);
    nes.cpu.set_flag(FLAGS6502::I, false);
    nes.cpu.irq(&mut nes.bus);
    assert_eq!(nes.cpu.pc, 0xA000);
    assert_eq!(nes.cpu.cycles, 7);
}

#[test]
fn undocumented_opcode_is_a_no_op_of_table_length() {
    // 0x02 is an undocumented slot of 2 cycles; 0x1C a 4-cycle NOP
    let mut nes = console(&[0x02, 0x1C, 0x00, 0x00]);
    let before = (nes.cpu.a, nes.cpu.x, nes.cpu.y, nes.cpu.stkp);
    assert_eq!(step(&mut nes), 2);
    assert_eq!(nes.cpu.pc, 0x8001);
    assert_eq!(before, (nes.cpu.a, nes.cpu.x, nes.cpu.y, nes.cpu.stkp));
    assert_eq!(step(&mut nes), 4);
}

#[test]
fn table_entries() {
    let lda = decode(0xA9);
    assert_eq!((lda.operate, lda.addrmode, lda.cycles), (Op::LDA, AddrMode::IMM, 2));
    let jmp = decode(0x6C);
    assert_eq!((jmp.operate, jmp.addrmode, jmp.cycles), (Op::JMP, AddrMode::IND, 5));
    let brk = decode(0x00);
    assert_eq!((brk.operate, brk.addrmode, brk.cycles), (Op::BRK, AddrMode::IMM, 7));
    let bad = decode(0xFF);
    assert_eq!((bad.operate, bad.addrmode, bad.cycles), (Op::XXX, AddrMode::IMP, 7));
}

#[test]
fn unused_flag_is_set_after_each_instruction() {
    // PLP pulls 0x00; the unused bit still reads as set
    let mut nes = console(&[0x28]);
    nes.bus.cpu_ram[0x1FE] = 0x00;
    step(&mut nes);
    assert_eq!(nes.cpu.status & 0x20, 0x20);
}

#[test]
fn flags_set_and_clear() {
    let mut cpu = Cpu::new();
    cpu.set_flag(FLAGS6502::V, true);
    assert_eq!(cpu.status, 0x40);
    assert_eq!(cpu.get_flag(FLAGS6502::V), 1);
    cpu.set_flag(FLAGS6502::V, false);
    assert_eq!(cpu.status, 0);
}

#[test]
fn opcode_eb_is_a_no_op() {
    let e = decode(0xEB);
    assert_eq!((e.operate, e.addrmode, e.cycles), (Op::XXX, AddrMode::IMP, 2));
    let mut nes = console(&[0xA9, 0x10, 0xEB, 0x05]);
    step(&mut nes);
    let status = nes.cpu.status;
    assert_eq!(step(&mut nes), 2);
    assert_eq!(nes.cpu.a, 0x10);
    assert_eq!(nes.cpu.status, status);
    assert_eq!(nes.cpu.pc, 0x8003);
}
