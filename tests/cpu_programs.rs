use breadboard::alu::{CARRY, DECIMAL, NEGATIVE, OVERFLOW, ZERO};
use breadboard::cpu::{decode, AddressMode, CPUState, Instruction};
use breadboard::cpu_test_system::CPUTestSystem;

fn system_with(program: &[(u16, &[u8])], entry: u16) -> CPUTestSystem {
    let mut image = vec![0u8; 0x10000];
    for (addr, bytes) in program {
        for (i, b) in bytes.iter().enumerate() {
            image[*addr as usize + i] = *b;
        }
    }
    CPUTestSystem::new(image, entry).expect("a full image")
}

fn ticks(sys: &mut CPUTestSystem, n: usize) {
    for _ in 0..n {
        sys.cycle();
    }
}

/// Runs the power-on sequence (seven ticks).
fn boot(sys: &mut CPUTestSystem) {
    ticks(sys, 7);
    assert!(matches!(sys.cpu.state, CPUState::Run));
}

#[test]
fn reset_vector_then_nop() {
    let mut image = vec![0u8; 0x10000];
    image[0xFFFC] = 0x34;
    image[0xFFFD] = 0x12;
    image[0x1234] = 0xEA;
    let mut sys = CPUTestSystem::new(image, 0x1234).unwrap();
    ticks(&mut sys, 8);
    assert_eq!(sys.cpu.pc, 0x1235);
    assert_eq!(sys.cpu.ir.0, Instruction::NOP(1, 2));
    ticks(&mut sys, 1);
    assert_eq!(sys.cpu.pc, 0x1235);
    assert_eq!(sys.cpu.tcu, 0);
}

#[test]
fn entry_address_patches_reset_vector() {
    let sys = system_with(&[], 0xABCD);
    assert_eq!(sys.peek(0xFFFC), 0xCD);
    assert_eq!(sys.peek(0xFFFD), 0xAB);
    assert!(CPUTestSystem::new(vec![0u8; 10], 0x400).is_none());
}

#[test]
fn lda_immediate_and_store() {
    let mut sys = system_with(&[(0x0400, &[0xA9, 0x42, 0x85, 0x10, 0x00])], 0x0400);
    boot(&mut sys);
    ticks(&mut sys, 2);
    assert_eq!(sys.cpu.tcu, 0);
    ticks(&mut sys, 3);
    assert_eq!(sys.cpu.tcu, 0);
    assert_eq!(sys.peek(0x0010), 0x42);
    assert_eq!(sys.cpu.a, 0x42);
    assert_eq!(sys.cpu.p & ZERO, 0);
    assert_eq!(sys.cpu.p & NEGATIVE, 0);
}

#[test]
fn store_then_load_round_trip() {
    // LDA #$5A; STA $20; LDA #$00; LDA $20
    let mut sys = system_with(&[(0x0400, &[0xA9, 0x5A, 0x85, 0x20, 0xA9, 0x00, 0xA5, 0x20])], 0x0400);
    boot(&mut sys);
    ticks(&mut sys, 2 + 3 + 2);
    assert_eq!(sys.cpu.a, 0x00);
    assert_ne!(sys.cpu.p & ZERO, 0);
    ticks(&mut sys, 3);
    assert_eq!(sys.cpu.tcu, 0);
    assert_eq!(sys.cpu.a, 0x5A);
    assert_eq!(sys.cpu.p & ZERO, 0);
}

#[test]
fn binary_adc_with_overflow() {
    let mut sys = system_with(&[(0x0400, &[0xA9, 0x50, 0x69, 0x50])], 0x0400);
    boot(&mut sys);
    ticks(&mut sys, 4);
    assert_eq!(sys.cpu.tcu, 0);
    assert_eq!(sys.cpu.a, 0xA0);
    assert_eq!(sys.cpu.p & CARRY, 0);
    assert_ne!(sys.cpu.p & OVERFLOW, 0);
    assert_ne!(sys.cpu.p & NEGATIVE, 0);
    assert_eq!(sys.cpu.p & ZERO, 0);
}

#[test]
fn decimal_adc_takes_one_more_cycle() {
    let mut sys = system_with(&[(0x0400, &[0xF8, 0xA9, 0x15, 0x69, 0x27])], 0x0400);
    boot(&mut sys);
    ticks(&mut sys, 2 + 2);
    assert_ne!(sys.cpu.p & DECIMAL, 0);
    ticks(&mut sys, 2);
    assert_ne!(sys.cpu.tcu, 0);
    ticks(&mut sys, 1);
    assert_eq!(sys.cpu.tcu, 0);
    assert_eq!(sys.cpu.a, 0x42);
    assert_eq!(sys.cpu.p & CARRY, 0);
    assert_eq!(sys.cpu.p & ZERO, 0);
}

#[test]
fn decimal_sbc() {
    // SED; SEC; LDA #$42; SBC #$15 -> 0x27 with Carry set (no borrow)
    let mut sys = system_with(&[(0x0400, &[0xF8, 0x38, 0xA9, 0x42, 0xE9, 0x15])], 0x0400);
    boot(&mut sys);
    ticks(&mut sys, 2 + 2 + 2 + 3);
    assert_eq!(sys.cpu.tcu, 0);
    assert_eq!(sys.cpu.a, 0x27);
    assert_ne!(sys.cpu.p & CARRY, 0);
}

#[test]
fn binary_sbc() {
    // SEC; LDA #$50; SBC #$F0 -> 0x60, borrow (Carry clear)
    let mut sys = system_with(&[(0x0400, &[0x38, 0xA9, 0x50, 0xE9, 0xF0])], 0x0400);
    boot(&mut sys);
    ticks(&mut sys, 2 + 2 + 2);
    assert_eq!(sys.cpu.a, 0x60);
    assert_eq!(sys.cpu.p & CARRY, 0);
}

#[test]
fn jsr_and_rts() {
    let mut sys = system_with(&[(0x0400, &[0x20, 0x10, 0x04, 0x00]), (0x0410, &[0x60])], 0x0400);
    boot(&mut sys);
    sys.cpu.s = 0xFF;
    ticks(&mut sys, 6);
    assert_eq!(sys.cpu.tcu, 0);
    assert_eq!(sys.cpu.s, 0xFD);
    assert_eq!(sys.peek(0x01FF), 0x04);
    assert_eq!(sys.peek(0x01FE), 0x02);
    assert_eq!(sys.cpu.pc, 0x0410);
    ticks(&mut sys, 6);
    assert_eq!(sys.cpu.tcu, 0);
    assert_eq!(sys.cpu.s, 0xFF);
    assert_eq!(sys.cpu.pc, 0x0403);
}

#[test]
fn sec_then_clc_clears_carry() {
    let mut sys = system_with(&[(0x0400, &[0x38, 0x18, 0x18])], 0x0400);
    boot(&mut sys);
    ticks(&mut sys, 2);
    assert_ne!(sys.cpu.p & CARRY, 0);
    ticks(&mut sys, 2);
    assert_eq!(sys.cpu.p & CARRY, 0);
    let once = sys.cpu.p;
    ticks(&mut sys, 2);
    assert_eq!(sys.cpu.p, once);
}

#[test]
fn push_pull_restores_registers() {
    // LDA #$77; PHA; LDA #$00; PLA; LDX #$12; PHX; LDX #$00; PLX;
    // LDY #$34; PHY; LDY #$00; PLY
    let program: &[u8] = &[
        0xA9, 0x77, 0x48, 0xA9, 0x00, 0x68, 0xA2, 0x12, 0xDA, 0xA2, 0x00, 0xFA, 0xA0, 0x34,
        0x5A, 0xA0, 0x00, 0x7A,
    ];
    let mut sys = system_with(&[(0x0400, program)], 0x0400);
    boot(&mut sys);
    sys.cpu.s = 0xFF;
    ticks(&mut sys, 2 + 3 + 2 + 4);
    assert_eq!(sys.cpu.a, 0x77);
    assert_eq!(sys.cpu.s, 0xFF);
    ticks(&mut sys, 2 + 3 + 2 + 4);
    assert_eq!(sys.cpu.x, 0x12);
    assert_eq!(sys.cpu.s, 0xFF);
    ticks(&mut sys, 2 + 3 + 2 + 4);
    assert_eq!(sys.cpu.y, 0x34);
    assert_eq!(sys.cpu.s, 0xFF);
}

#[test]
fn stack_pointer_survives_push_pull_through_x() {
    // TSX; PHX; PLX keeps S
    let mut sys = system_with(&[(0x0400, &[0xDA, 0xFA])], 0x0400);
    boot(&mut sys);
    sys.cpu.s = 0x80;
    sys.cpu.x = 0x80;
    ticks(&mut sys, 3 + 4);
    assert_eq!(sys.cpu.s, 0x80);
    assert_eq!(sys.cpu.x, 0x80);
}

#[test]
fn nop_lengths_and_cycles() {
    // 0x02: 2 bytes, 2 cycles; 0x44: 2 bytes, 3 cycles; 0x5C: 3 bytes, 8 cycles;
    // 0x03: 1 byte, 1 cycle; 0xEA: 1 byte, 2 cycles
    let program: &[u8] = &[0x02, 0xFF, 0x44, 0xFF, 0x5C, 0xFF, 0xFF, 0x03, 0xEA];
    let mut sys = system_with(&[(0x0400, program)], 0x0400);
    boot(&mut sys);
    let cases: [(u16, usize); 5] = [(2, 2), (2, 3), (3, 8), (1, 1), (1, 2)];
    let mut pc = 0x0400u16;
    for (bytes, cycles) in cases {
        ticks(&mut sys, cycles - 1);
        if cycles > 1 {
            assert_ne!(sys.cpu.tcu, 0, "NOP must not complete early");
        }
        ticks(&mut sys, 1);
        assert_eq!(sys.cpu.tcu, 0);
        pc += bytes;
        assert_eq!(sys.cpu.pc, pc);
    }
}

#[test]
fn one_cycle_nop_never_leaves_tcu_zero() {
    let mut sys = system_with(&[(0x0400, &[0x03, 0x13])], 0x0400);
    boot(&mut sys);
    ticks(&mut sys, 1);
    assert_eq!(sys.cpu.tcu, 0);
    assert_eq!(sys.cpu.pc, 0x0401);
}

#[test]
fn branch_taken_and_not_taken() {
    // LDA #$00 (Z set); BEQ +4 -> taken; at 0x0408: BNE -16 -> not taken (Z set)
    let mut sys = system_with(&[(0x0400, &[0xA9, 0x00, 0xF0, 0x04]), (0x0408, &[0xD0, 0xF0])], 0x0400);
    boot(&mut sys);
    ticks(&mut sys, 2);
    ticks(&mut sys, 3);
    assert_eq!(sys.cpu.tcu, 0);
    assert_eq!(sys.cpu.pc, 0x0408);
    ticks(&mut sys, 2);
    assert_eq!(sys.cpu.tcu, 0);
    assert_eq!(sys.cpu.pc, 0x040A);
}

#[test]
fn branch_backwards() {
    // at 0x0410: BRA -16 -> 0x0402
    let mut sys = system_with(&[(0x0410, &[0x80, 0xF0])], 0x0410);
    boot(&mut sys);
    ticks(&mut sys, 3);
    assert_eq!(sys.cpu.tcu, 0);
    assert_eq!(sys.cpu.pc, 0x0402);
}

#[test]
fn brk_then_rti_round_trip() {
    // BRK at 0x0400 with vector 0x0500; RTI at 0x0500
    let mut sys = system_with(&[(0x0400, &[0x00, 0xEA]), (0x0500, &[0x40]), (0xFFFE, &[0x00, 0x05])], 0x0400);
    boot(&mut sys);
    sys.cpu.s = 0xFF;
    sys.cpu.p = CARRY | DECIMAL;
    ticks(&mut sys, 7);
    assert_eq!(sys.cpu.tcu, 0);
    assert_eq!(sys.cpu.pc, 0x0500);
    assert_eq!(sys.cpu.s, 0xFC);
    assert_eq!(sys.cpu.p & DECIMAL, 0);
    let pushed = sys.peek(0x01FD);
    assert_eq!(pushed, CARRY | DECIMAL | 0x10 | 0x20);
    ticks(&mut sys, 6);
    assert_eq!(sys.cpu.tcu, 0);
    assert_eq!(sys.cpu.pc, 0x0402);
    assert_eq!(sys.cpu.s, 0xFF);
    assert_eq!(sys.cpu.p, pushed);
}

#[test]
fn interrupt_request_starts_break_sequence() {
    let mut sys = system_with(&[(0x0400, &[0xEA, 0xEA]), (0x0600, &[0xEA]), (0xFFFE, &[0x00, 0x06])], 0x0400);
    boot(&mut sys);
    sys.cpu.s = 0xFF;
    sys.cpu.set_interrupt(true);
    ticks(&mut sys, 7);
    assert_eq!(sys.cpu.pc, 0x0600);
    assert_eq!(sys.peek(0x01FF), 0x04);
    assert_eq!(sys.peek(0x01FE), 0x00);
    assert_ne!(sys.cpu.p & 0x04, 0);
}

#[test]
fn masked_interrupt_is_ignored() {
    let mut sys = system_with(&[(0x0400, &[0x78, 0xEA])], 0x0400);
    boot(&mut sys);
    ticks(&mut sys, 2);
    sys.cpu.set_interrupt(true);
    ticks(&mut sys, 1);
    assert_eq!(sys.cpu.ir.0, Instruction::NOP(1, 2));
}

#[test]
fn stp_halts() {
    let mut sys = system_with(&[(0x0400, &[0xDB])], 0x0400);
    boot(&mut sys);
    ticks(&mut sys, 3);
    assert!(sys.is_halted());
    let pc = sys.cpu.pc;
    ticks(&mut sys, 5);
    assert_eq!(sys.cpu.pc, pc);
}

#[test]
fn wai_waits_for_interrupt() {
    let mut sys = system_with(&[(0x0400, &[0xCB]), (0x0700, &[0xEA]), (0xFFFE, &[0x00, 0x07])], 0x0400);
    boot(&mut sys);
    ticks(&mut sys, 3);
    assert!(matches!(sys.cpu.state, CPUState::Wait));
    ticks(&mut sys, 4);
    assert!(matches!(sys.cpu.state, CPUState::Wait));
    sys.cpu.set_interrupt(true);
    ticks(&mut sys, 1);
    assert!(matches!(sys.cpu.state, CPUState::Run));
    ticks(&mut sys, 6);
    assert_eq!(sys.cpu.pc, 0x0700);
}

#[test]
fn indexed_and_indirect_loads() {
    // LDX #$02; LDA $0300,X; LDY #$01; LDA ($40),Y
    let mut sys = system_with(
        &[
            (0x0400, &[0xA2, 0x02, 0xBD, 0x00, 0x03, 0xA0, 0x01, 0xB1, 0x40]),
            (0x0302, &[0x99]),
            (0x0040, &[0x00, 0x08]),
            (0x0801, &[0x66]),
        ],
        0x0400,
    );
    boot(&mut sys);
    ticks(&mut sys, 2 + 4);
    assert_eq!(sys.cpu.a, 0x99);
    assert_ne!(sys.cpu.p & NEGATIVE, 0);
    ticks(&mut sys, 2 + 5);
    assert_eq!(sys.cpu.tcu, 0);
    assert_eq!(sys.cpu.a, 0x66);
}

#[test]
fn zero_page_indexed_wraps() {
    // LDX #$10; LDA $F8,X reads 0x0008
    let mut sys = system_with(&[(0x0400, &[0xA2, 0x10, 0xB5, 0xF8]), (0x0008, &[0x3C])], 0x0400);
    boot(&mut sys);
    ticks(&mut sys, 2 + 4);
    assert_eq!(sys.cpu.a, 0x3C);
}

#[test]
fn read_modify_write_and_compare() {
    // INC $30; ASL $30; LDA #$08; CMP $30
    let mut sys = system_with(&[(0x0400, &[0xE6, 0x30, 0x06, 0x30, 0xA9, 0x08, 0xC5, 0x30]), (0x0030, &[0x03])], 0x0400);
    boot(&mut sys);
    ticks(&mut sys, 5 + 5);
    assert_eq!(sys.peek(0x0030), 0x08);
    ticks(&mut sys, 2 + 3);
    assert_ne!(sys.cpu.p & ZERO, 0);
    assert_ne!(sys.cpu.p & CARRY, 0);
}

#[test]
fn bit_set_and_reset() {
    // SMB3 $20; RMB0 $20; BBS3 $20,+2
    let mut sys = system_with(&[(0x0400, &[0xB7, 0x20, 0x07, 0x20, 0xBF, 0x20, 0x02]), (0x0020, &[0x01])], 0x0400);
    boot(&mut sys);
    ticks(&mut sys, 5 + 5);
    assert_eq!(sys.peek(0x0020), 0x08);
    ticks(&mut sys, 5);
    assert_eq!(sys.cpu.pc, 0x0409);
}

#[test]
fn jump_indirect() {
    let mut sys = system_with(&[(0x0400, &[0x6C, 0x00, 0x02]), (0x0200, &[0x34, 0x12])], 0x0400);
    boot(&mut sys);
    ticks(&mut sys, 5);
    assert_eq!(sys.cpu.tcu, 0);
    assert_eq!(sys.cpu.pc, 0x1234);
}

#[test]
fn decode_table_entries() {
    assert_eq!(decode(0xA9), (Instruction::LDA, AddressMode::ImmediateAddressing));
    assert_eq!(decode(0x85), (Instruction::STA, AddressMode::ZeroPage));
    assert_eq!(decode(0x00), (Instruction::BRK, AddressMode::Stack));
    assert_eq!(decode(0x5C), (Instruction::NOP(3, 8), AddressMode::Implied));
    assert_eq!(decode(0xFF), (Instruction::BBS(7), AddressMode::ProgramCounterRelative));
}
