use sadnes::bus::Interconnect;
use sadnes::cartridge::Cartridge;
use sadnes::cpu::{Cpu, Interrupt};
use sadnes::decode::{cycles_of, decode_opcode, Op};
use sadnes::mapper::create_mapper;
use sadnes::status::{StatusFlags, CARRY, INTERRUPT_DISABLE, NEGATIVE_RESULT, OVERFLOW, ZERO_RESULT};

// Base cycles per opcode of the NMOS 6502, row by row.
const OPCODE_CYCLES: [u8; 256] = [
    7, 6, 2, 8, 3, 3, 5, 5, 3, 2, 2, 2, 4, 4, 6, 6,
    2, 5, 2, 8, 4, 4, 6, 6, 2, 4, 2, 7, 4, 4, 7, 7,
    6, 6, 2, 8, 3, 3, 5, 5, 4, 2, 2, 2, 4, 4, 6, 6,
    2, 5, 2, 8, 4, 4, 6, 6, 2, 4, 2, 7, 4, 4, 7, 7,
    6, 6, 2, 8, 3, 3, 5, 5, 3, 2, 2, 2, 3, 4, 6, 6,
    2, 5, 2, 8, 4, 4, 6, 6, 2, 4, 2, 7, 4, 4, 7, 7,
    6, 6, 2, 8, 3, 3, 5, 5, 4, 2, 2, 2, 5, 4, 6, 6,
    2, 5, 2, 8, 4, 4, 6, 6, 2, 4, 2, 7, 4, 4, 7, 7,
    2, 6, 2, 6, 3, 3, 3, 3, 2, 2, 2, 2, 4, 4, 4, 4,
    2, 6, 2, 6, 4, 4, 4, 4, 2, 5, 2, 5, 5, 5, 5, 5,
    2, 6, 2, 6, 3, 3, 3, 3, 2, 2, 2, 2, 4, 4, 4, 4,
    2, 5, 2, 5, 4, 4, 4, 4, 2, 4, 2, 4, 4, 4, 4, 4,
    2, 6, 2, 8, 3, 3, 5, 5, 2, 2, 2, 2, 4, 4, 6, 6,
    2, 5, 2, 8, 4, 4, 6, 6, 2, 4, 2, 7, 4, 4, 7, 7,
    2, 6, 2, 8, 3, 3, 5, 5, 2, 2, 2, 2, 4, 4, 6, 6,
    2, 5, 2, 8, 4, 4, 6, 6, 2, 4, 2, 7, 4, 4, 7, 7,
];

/// A 32 KiB NROM image with `code` at CPU address `at`, the reset vector at
/// 0x8000 and the NMI and IRQ vectors at 0x9000 and 0xA000.
fn rom_with(at: u16, code: &[u8]) -> Vec<u8> {
    let mut image = vec![0x4E, 0x45, 0x53, 0x1A, 2, 1, 0, 0, 0, 0, 0, 0, 0, 0, 0, 0];
    let mut prg = vec![0xEAu8; 0x8000];
    let start = (at - 0x8000) as usize;
    prg[start..start + code.len()].copy_from_slice(code);
    prg[0x7FFA] = 0x00;
    prg[0x7FFB] = 0x90;
    prg[0x7FFC] = 0x00;
    prg[0x7FFD] = 0x80;
    prg[0x7FFE] = 0x00;
    prg[0x7FFF] = 0xA0;
    image.extend_from_slice(&prg);
    image.extend_from_slice(&vec![0u8; 0x2000]);
    image
}

fn cpu_with(at: u16, code: &[u8]) -> Cpu<Interconnect> {
    let cartridge = Cartridge::load(&rom_with(at, code)).unwrap();
    Cpu::new(Interconnect::new(create_mapper(Box::new(cartridge))))
}

fn flag(cpu: &Cpu<Interconnect>, mask: u8) -> bool {
    cpu.regs.status.contains(mask)
}

#[test]
fn lda_sta_round_trip() {
    let mut cpu = cpu_with(0x8000, &[0xA9, 0x42, 0x8D, 0x00, 0x02]);
    cpu.step();
    cpu.step();
    assert_eq!(cpu.regs.a, 0x42);
    assert_eq!(cpu.load_byte(0x0200), 0x42);
    assert_eq!(cpu.regs.pc, 0x8005);
    assert!(!flag(&cpu, ZERO_RESULT));
    assert!(!flag(&cpu, NEGATIVE_RESULT));
}

#[test]
fn branch_page_cross_cycles() {
    let mut cpu = cpu_with(0x80FD, &[0xF0, 0x02]);
    cpu.regs.pc = 0x80FD;
    cpu.regs.status.set(ZERO_RESULT, true);
    let (cycles, _) = cpu.step();
    assert_eq!(cpu.regs.pc, 0x8101);
    assert_eq!(cycles, 4);
}

#[test]
fn branch_not_taken_costs_base_cycles() {
    let mut cpu = cpu_with(0x8000, &[0xF0, 0x02]);
    let (cycles, _) = cpu.step();
    assert_eq!(cpu.regs.pc, 0x8002);
    assert_eq!(cycles, 2);
}

#[test]
fn adc_with_carry_and_overflow() {
    let mut cpu = cpu_with(0x8000, &[0x69, 0x50]);
    cpu.regs.a = 0x50;
    cpu.step();
    assert_eq!(cpu.regs.a, 0xA0);
    assert!(!flag(&cpu, CARRY));
    assert!(flag(&cpu, OVERFLOW));
    assert!(flag(&cpu, NEGATIVE_RESULT));
    assert!(!flag(&cpu, ZERO_RESULT));
}

#[test]
fn sbc_is_adc_of_complement() {
    // SEC; LDA #$50; SBC #$F0 -> 0x60 with a borrow (C clear), no overflow.
    let mut cpu = cpu_with(0x8000, &[0x38, 0xA9, 0x50, 0xE9, 0xF0]);
    cpu.step();
    cpu.step();
    cpu.step();
    assert_eq!(cpu.regs.a, 0x60);
    assert!(!flag(&cpu, CARRY));
    assert!(!flag(&cpu, OVERFLOW));
}

#[test]
fn indirect_jmp_wrap() {
    let mut cpu = cpu_with(0x8000, &[0x6C, 0xFF, 0x02]);
    cpu.store_byte(0x02FF, 0x34);
    cpu.store_byte(0x0200, 0x12);
    cpu.store_byte(0x0300, 0x56);
    cpu.step();
    assert_eq!(cpu.regs.pc, 0x1234);
}

#[test]
fn nmi_delivery() {
    let mut cpu = cpu_with(0x8000, &[0xEA]);
    let status = cpu.regs.status.bits();
    cpu.trigger_nmi();
    let (cycles, _) = cpu.step();
    // 0x01FD/0x01FC hold the interrupted PC, 0x01FB the status with B clear.
    assert_eq!(cpu.load_byte(0x01FD), 0x80);
    assert_eq!(cpu.load_byte(0x01FC), 0x00);
    assert_eq!(cpu.load_byte(0x01FB), status & !0x10 | 0x20);
    assert_eq!(cpu.load_byte(0x01FB) & 0x10, 0);
    assert!(flag(&cpu, INTERRUPT_DISABLE));
    assert_eq!(cpu.regs.sp, 0xFA);
    assert_eq!(cpu.interrupt, Interrupt::Idle);
    // Seven cycles of service, then the NOP at the handler's first byte.
    assert_eq!(cycles, 7 + 2);
    assert_eq!(cpu.regs.pc, 0x9001);
}

#[test]
fn irq_is_masked_while_i_is_set() {
    let mut cpu = cpu_with(0x8000, &[0x58, 0xEA]);
    cpu.trigger_irq();
    assert_eq!(cpu.interrupt, Interrupt::Idle);
    cpu.step();
    cpu.trigger_irq();
    assert_eq!(cpu.interrupt, Interrupt::Irq);
    let (cycles, _) = cpu.step();
    assert_eq!(cycles, 9);
    assert_eq!(cpu.regs.pc, 0xA001);
}

#[test]
fn reset_state() {
    let cpu = cpu_with(0x8000, &[]);
    assert_eq!(cpu.regs.pc, 0x8000);
    assert_eq!(cpu.regs.sp, 0xFD);
    assert!(flag(&cpu, INTERRUPT_DISABLE));
    assert_eq!(cpu.regs.status.bits(), 0x24);
    assert_eq!(cpu.cycles, 0);
}

#[test]
fn base_cycle_table_matches_every_opcode() {
    for op in 0..=255u8 {
        let (kind, mode) = decode_opcode(op);
        assert_eq!(cycles_of(kind, mode), OPCODE_CYCLES[op as usize], "opcode {:02X}", op);
    }
}

#[test]
fn step_takes_at_least_base_cycles() {
    for op in [0xA9u8, 0xBD, 0x9D, 0x1E, 0x20, 0x00, 0x6C, 0xB3, 0xD0] {
        let mut cpu = cpu_with(0x8000, &[op, 0xFF, 0x02]);
        cpu.regs.x = 0x10;
        cpu.regs.y = 0x10;
        let (kind, mode) = decode_opcode(op);
        let (cycles, _) = cpu.step();
        assert!(cycles >= cycles_of(kind, mode), "opcode {:02X}", op);
    }
}

#[test]
fn absolute_x_read_pays_for_page_cross() {
    // LDA $02F0,X with X = 0x20 crosses into page 3.
    let mut cpu = cpu_with(0x8000, &[0xBD, 0xF0, 0x02]);
    cpu.regs.x = 0x20;
    cpu.store_byte(0x0310, 0x99);
    assert_eq!(cpu.step().0, 5);
    assert_eq!(cpu.regs.a, 0x99);
}

#[test]
fn jsr_rts_round_trip() {
    // JSR $8010 ; at 0x8010: RTS
    let mut code = vec![0x20, 0x10, 0x80];
    code.resize(0x10, 0xEA);
    code.push(0x60);
    let mut cpu = cpu_with(0x8000, &code);
    assert_eq!(cpu.step().0, 6);
    assert_eq!(cpu.regs.pc, 0x8010);
    assert_eq!(cpu.load_byte(0x01FD), 0x80);
    assert_eq!(cpu.load_byte(0x01FC), 0x02);
    assert_eq!(cpu.step().0, 6);
    assert_eq!(cpu.regs.pc, 0x8003);
    assert_eq!(cpu.regs.sp, 0xFD);
}

#[test]
fn brk_pushes_break_flag_and_rti_returns() {
    let mut cpu = cpu_with(0x8000, &[0x00, 0xFF, 0xEA]);
    cpu.store_byte(0x0000, 0);
    assert_eq!(cpu.step().0, 7);
    assert_eq!(cpu.regs.pc, 0xA000);
    assert_eq!(cpu.load_byte(0x01FD), 0x80);
    assert_eq!(cpu.load_byte(0x01FC), 0x02);
    assert_eq!(cpu.load_byte(0x01FB) & 0x30, 0x30);
    assert!(flag(&cpu, INTERRUPT_DISABLE));
    // RTI from a handler placed in RAM.
    cpu.regs.pc = 0x0000;
    cpu.store_byte(0x0000, 0x40);
    assert_eq!(cpu.step().0, 6);
    assert_eq!(cpu.regs.pc, 0x8002);
    assert_eq!(cpu.regs.status.bits() & 0x10, 0);
}

#[test]
fn stack_push_and_pull() {
    let mut cpu = cpu_with(0x8000, &[]);
    let sp = cpu.regs.sp;
    cpu.push_word(0xBEEF);
    assert_eq!(cpu.regs.sp, sp.wrapping_sub(2));
    assert_eq!(cpu.pull_word(), 0xBEEF);
    assert_eq!(cpu.regs.sp, sp);
    cpu.regs.sp = 0x00;
    cpu.push_byte(0x11);
    assert_eq!(cpu.regs.sp, 0xFF);
    assert_eq!(cpu.load_byte(0x0100), 0x11);
    assert_eq!(cpu.pull_byte(), 0x11);
    assert_eq!(cpu.regs.sp, 0x00);
}

#[test]
fn php_plp_keep_u_and_drop_b() {
    // PHP; PLA -> pushed form has B and U; LDA #$FF; PHA; PLP -> B dropped.
    let mut cpu = cpu_with(0x8000, &[0x08, 0x68, 0xA9, 0xFF, 0x48, 0x28]);
    cpu.step();
    cpu.step();
    assert_eq!(cpu.regs.a, 0x34);
    cpu.step();
    cpu.step();
    cpu.step();
    assert_eq!(cpu.regs.status.bits(), 0xEF);
}

#[test]
fn rol_and_ror_accumulator() {
    // SEC; LDA #$81; ROL A -> 0x03, C=1; ROR A -> 0x81, C=1
    let mut cpu = cpu_with(0x8000, &[0x38, 0xA9, 0x81, 0x2A, 0x6A]);
    cpu.step();
    cpu.step();
    cpu.step();
    assert_eq!(cpu.regs.a, 0x03);
    assert!(flag(&cpu, CARRY));
    cpu.step();
    assert_eq!(cpu.regs.a, 0x81);
    assert!(flag(&cpu, CARRY));
}

#[test]
fn read_modify_write_on_memory() {
    // INC $10; DEC $11; ASL $12; LSR $13
    let mut cpu = cpu_with(0x8000, &[0xE6, 0x10, 0xC6, 0x11, 0x06, 0x12, 0x46, 0x13]);
    cpu.store_byte(0x10, 0xFF);
    cpu.store_byte(0x11, 0x00);
    cpu.store_byte(0x12, 0xC0);
    cpu.store_byte(0x13, 0x01);
    assert_eq!(cpu.step().0, 5);
    assert_eq!(cpu.load_byte(0x10), 0x00);
    assert!(flag(&cpu, ZERO_RESULT));
    cpu.step();
    assert_eq!(cpu.load_byte(0x11), 0xFF);
    assert!(flag(&cpu, NEGATIVE_RESULT));
    cpu.step();
    assert_eq!(cpu.load_byte(0x12), 0x80);
    assert!(flag(&cpu, CARRY));
    cpu.step();
    assert_eq!(cpu.load_byte(0x13), 0x00);
    assert!(flag(&cpu, CARRY));
    assert!(flag(&cpu, ZERO_RESULT));
}

#[test]
fn bit_sets_n_v_and_z() {
    let mut cpu = cpu_with(0x8000, &[0x24, 0x20]);
    cpu.store_byte(0x20, 0xC0);
    cpu.regs.a = 0x01;
    cpu.step();
    assert!(flag(&cpu, NEGATIVE_RESULT));
    assert!(flag(&cpu, OVERFLOW));
    assert!(flag(&cpu, ZERO_RESULT));
}

#[test]
fn compare_sets_carry_when_register_not_less() {
    let mut cpu = cpu_with(0x8000, &[0xC9, 0x10, 0xE0, 0x20]);
    cpu.regs.a = 0x10;
    cpu.regs.x = 0x10;
    cpu.step();
    assert!(flag(&cpu, CARRY));
    assert!(flag(&cpu, ZERO_RESULT));
    cpu.step();
    assert!(!flag(&cpu, CARRY));
    assert!(flag(&cpu, NEGATIVE_RESULT));
}

#[test]
fn unofficial_lax_and_slo() {
    // LAX $30; SLO $31
    let mut cpu = cpu_with(0x8000, &[0xA7, 0x30, 0x07, 0x31]);
    cpu.store_byte(0x30, 0x5A);
    cpu.store_byte(0x31, 0x81);
    cpu.step();
    assert_eq!(cpu.regs.a, 0x5A);
    assert_eq!(cpu.regs.x, 0x5A);
    cpu.step();
    assert_eq!(cpu.load_byte(0x31), 0x02);
    assert_eq!(cpu.regs.a, 0x5A | 0x02);
    assert!(flag(&cpu, CARRY));
}

#[test]
fn unofficial_dcp_and_isc() {
    // DCP $40; ISC $41 (with carry set from DCP)
    let mut cpu = cpu_with(0x8000, &[0xC7, 0x40, 0xE7, 0x41]);
    cpu.store_byte(0x40, 0x11);
    cpu.store_byte(0x41, 0x0F);
    cpu.regs.a = 0x10;
    cpu.step();
    assert_eq!(cpu.load_byte(0x40), 0x10);
    assert!(flag(&cpu, ZERO_RESULT));
    assert!(flag(&cpu, CARRY));
    cpu.step();
    assert_eq!(cpu.load_byte(0x41), 0x10);
    assert_eq!(cpu.regs.a, 0x00);
}

#[test]
fn decode_names_operations() {
    assert_eq!(decode_opcode(0x2A).0, Op::Rol);
    assert_eq!(decode_opcode(0x6A).0, Op::Ror);
    assert_eq!(decode_opcode(0xEB).0, Op::Sbc);
    assert_eq!(decode_opcode(0x02).0, Op::Jam);
    assert_eq!(decode_opcode(0x18).0, Op::Flag(CARRY, false));
    assert_eq!(decode_opcode(0xB8).0, Op::Flag(OVERFLOW, false));
}

#[test]
fn status_round_trip() {
    for x in [0x00u8, 0x10, 0x20, 0xCF, 0xFF] {
        let status = StatusFlags::from_bits(x);
        assert_eq!(status.bits(), x | 0x20);
    }
}

#[test]
fn watchpoint_reports_load_and_store() {
    // LDA $0200; STA $0300; NOP; JMP $0200
    let mut cpu = cpu_with(0x8000, &[0xAD, 0x00, 0x02, 0x8D, 0x00, 0x03, 0xEA, 0x4C, 0x00, 0x02]);
    cpu.watchpoints.push(0x0200);
    cpu.watchpoints.push(0x0300);
    assert_eq!(cpu.step(), (4, true));
    assert_eq!(cpu.step(), (4, true));
    assert_eq!(cpu.step(), (2, false));
    // A jump to a watched address does not access it.
    assert_eq!(cpu.step(), (3, false));
    assert_eq!(cpu.regs.pc, 0x0200);
}

#[test]
fn unwatched_access_is_not_reported() {
    let mut cpu = cpu_with(0x8000, &[0xAD, 0x01, 0x02]);
    cpu.watchpoints.push(0x0200);
    assert_eq!(cpu.step(), (4, false));
    assert!(cpu.is_watched(0x0200));
    assert!(!cpu.is_watched(0x0201));
}
