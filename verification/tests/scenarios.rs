use byte_core::cpu::{Interrupt, CPU};
use byte_core::flags::Flag;
use byte_core::ram::RAM;
use byte_core::Error;

fn machine() -> CPU<RAM> {
    let mut cpu = CPU::new();
    cpu.bus.attach(0x0000, 0xffff, RAM::new(0x10000)).unwrap();
    cpu
}

#[test]
fn adc_immediate_binary_mode() {
    // A=0x50, P=0, ADC #$10: A=0x60, all of Z/N/C/V clear, 2 cycles
    let mut cpu = machine();
    cpu.reg.a = 0x50;
    cpu.reg.pc = 0x8000;
    cpu.load(&[0x69, 0x10, 0x00], 0x8000);
    cpu.step().unwrap();

    assert_eq!(cpu.reg.a, 0x60);
    assert!(!cpu.reg.p.contains(Flag::Zero));
    assert!(!cpu.reg.p.contains(Flag::Negative));
    assert!(!cpu.reg.p.contains(Flag::Carry));
    assert!(!cpu.reg.p.contains(Flag::Overflow));
    assert_eq!(cpu.cycle, 2);
}

#[test]
fn adc_decimal_mode_carry_chain() {
    // BCD: $09 + $01 + C=0 = $10 with C=0
    let mut cpu = machine();
    cpu.reg.a = 0x09;
    cpu.reg.p.decimal = true;
    cpu.reg.pc = 0x8000;
    cpu.load(&[0x69, 0x01], 0x8000);
    cpu.step().unwrap();
    assert_eq!(cpu.reg.a, 0x10);
    assert!(!cpu.reg.p.contains(Flag::Carry));

    // BCD: $99 + $01 + C=0 = $00 with C=1
    let mut cpu = machine();
    cpu.reg.a = 0x99;
    cpu.reg.p.decimal = true;
    cpu.reg.pc = 0x8000;
    cpu.load(&[0x69, 0x01], 0x8000);
    cpu.step().unwrap();
    assert_eq!(cpu.reg.a, 0x00);
    assert!(cpu.reg.p.contains(Flag::Carry));
}

#[test]
fn beq_taken_across_page_boundary() {
    // P.Z=1, PC=0x80F0, BEQ +0x20: PC=0x8112, 4 cycles (2 base + 1 taken + 1 page)
    let mut cpu = machine();
    cpu.reg.p.zero = true;
    cpu.reg.pc = 0x80f0;
    cpu.load(&[0xf0, 0x20], 0x80f0);
    cpu.step().unwrap();

    assert_eq!(cpu.reg.pc, 0x8112);
    assert_eq!(cpu.cycle, 4);
}

#[test]
fn beq_taken_within_page() {
    // A taken branch inside one page costs 3 cycles (2 base + 1 taken)
    let mut cpu = machine();
    cpu.reg.p.zero = true;
    cpu.reg.pc = 0x8000;
    cpu.load(&[0xf0, 0x02], 0x8000);
    cpu.step().unwrap();

    assert_eq!(cpu.reg.pc, 0x8004);
    assert_eq!(cpu.cycle, 3);
}

#[test]
fn beq_untaken_costs_base_cycles() {
    let mut cpu = machine();
    cpu.reg.pc = 0x8000;
    cpu.load(&[0xf0, 0x02], 0x8000);
    cpu.step().unwrap();

    assert_eq!(cpu.reg.pc, 0x8002);
    assert_eq!(cpu.cycle, 2);
}

#[test]
fn indirect_jmp_bug_wraps_in_page() {
    // RAM[0x02FF]=0xCC, RAM[0x0200]=0xDE, JMP ($02FF): PC=0xDECC, 5 cycles
    let mut cpu = machine();
    cpu.bus.write(0x02ff, 0xcc);
    cpu.bus.write(0x0200, 0xde);
    cpu.reg.pc = 0x8000;
    cpu.load(&[0x6c, 0xff, 0x02], 0x8000);
    cpu.step().unwrap();

    assert_eq!(cpu.reg.pc, 0xdecc);
    assert_eq!(cpu.cycle, 5);
}

#[test]
fn jsr_rts_round_trip() {
    // JSR $8004; NOP; RTS: after JSR+RTS, PC=0x8003 and SP is back at 0xFF
    let mut cpu = machine();
    cpu.reg.sp = 0xff;
    cpu.reg.pc = 0x8000;
    cpu.load(&[0x20, 0x04, 0x80, 0xea, 0x60], 0x8000);
    cpu.step().unwrap();
    assert_eq!(cpu.reg.pc, 0x8004);
    assert_eq!(cpu.reg.sp, 0xfd);
    cpu.step().unwrap();

    assert_eq!(cpu.reg.pc, 0x8003);
    assert_eq!(cpu.reg.sp, 0xff);
}

#[test]
fn asl_accumulator_carry_out() {
    // A=0x81, ASL A: A=0x02, C=1, Z=0, N=0, 2 cycles
    let mut cpu = machine();
    cpu.reg.a = 0x81;
    cpu.reg.pc = 0x8000;
    cpu.load(&[0x0a], 0x8000);
    cpu.step().unwrap();

    assert_eq!(cpu.reg.a, 0x02);
    assert!(cpu.reg.p.contains(Flag::Carry));
    assert!(!cpu.reg.p.contains(Flag::Zero));
    assert!(!cpu.reg.p.contains(Flag::Negative));
    assert_eq!(cpu.cycle, 2);
}

#[test]
fn unrecognized_opcode_reports_and_advances() {
    // 0x02 decodes to nothing: step fails, PC moves past the byte, cycles stay
    let mut cpu = machine();
    cpu.reg.pc = 0x8000;
    cpu.load(&[0x02], 0x8000);
    let r = cpu.step();

    assert_eq!(r, Err(Error::UnrecognizedOpcode(0x02)));
    assert_eq!(cpu.reg.pc, 0x8001);
    assert_eq!(cpu.cycle, 0);
}

#[test]
fn lda_immediate_zero_and_negative_flags() {
    // LDA #$00 sets Z and clears N; LDA #$80 clears Z and sets N
    let mut cpu = machine();
    cpu.reg.pc = 0x8000;
    cpu.load(&[0xa9, 0x00, 0xa9, 0x80], 0x8000);
    cpu.step().unwrap();
    assert!(cpu.reg.p.contains(Flag::Zero));
    assert!(!cpu.reg.p.contains(Flag::Negative));
    cpu.step().unwrap();
    assert!(!cpu.reg.p.contains(Flag::Zero));
    assert!(cpu.reg.p.contains(Flag::Negative));
}

#[test]
fn stack_byte_and_word_round_trips() {
    let mut cpu = machine();
    cpu.reg.sp = 0x80;
    cpu.stack_push(0xab);
    assert_eq!(cpu.stack_pull(), 0xab);
    assert_eq!(cpu.reg.sp, 0x80);

    cpu.stack_push_u16(0xbeef);
    assert_eq!(cpu.stack_pull_u16(), 0xbeef);
    assert_eq!(cpu.reg.sp, 0x80);
}

#[test]
fn stack_pointer_wraps_on_byte() {
    let mut cpu = machine();
    cpu.reg.sp = 0x00;
    cpu.stack_push(0x11);
    assert_eq!(cpu.reg.sp, 0xff);
    assert_eq!(cpu.stack_pull(), 0x11);
    assert_eq!(cpu.reg.sp, 0x00);
}

#[test]
fn rst_twice_leaves_pc_at_reset_vector() {
    let mut cpu = machine();
    cpu.bus.write_u16(0xfffc, 0x1234);
    cpu.interrupt(Interrupt::RST);
    cpu.interrupt(Interrupt::RST);

    assert_eq!(cpu.reg.pc, 0x1234);
    assert_eq!(cpu.reg.pc, cpu.bus.read_u16(0xfffc));
}

#[test]
fn program_counter_wraps_on_word() {
    let mut cpu = machine();
    cpu.bus.write(0xffff, 0x02);
    cpu.reg.pc = 0xffff;
    let r = cpu.step();

    assert_eq!(r, Err(Error::UnrecognizedOpcode(0x02)));
    assert_eq!(cpu.reg.pc, 0x0000);
}

#[test]
fn brk_pushes_state_and_takes_vector() {
    let mut cpu = machine();
    cpu.reg.sp = 0xff;
    cpu.reg.pc = 0x8000;
    cpu.bus.write_u16(0xfffe, 0x9000);
    cpu.load(&[0x00], 0x8000);
    cpu.step().unwrap();

    assert_eq!(cpu.reg.pc, 0x9000);
    assert!(cpu.reg.p.contains(Flag::Interrupt));
    assert_eq!(cpu.cycle, 7);
    // pushed: PC+1 high, PC+1 low, then P with Break and Unused set
    assert_eq!(cpu.bus.read(0x01ff), 0x80);
    assert_eq!(cpu.bus.read(0x01fe), 0x02);
    assert_eq!(cpu.bus.read(0x01fd) & 0x30, 0x30);
}

#[test]
fn nmi_edge_is_consumed_once() {
    let mut cpu = machine();
    cpu.bus.write_u16(0xfffa, 0x9000);
    cpu.load(&[0xea, 0xea], 0x0000);
    cpu.set_nmi(false);
    cpu.step().unwrap();
    assert_eq!(cpu.reg.pc, 0x9000);
    assert!(!cpu.nmi_edge);
    // the next step runs normally (NOP at 0x9000 reads as BRK-free zero.. load a NOP)
    cpu.bus.write(0x9000, 0xea);
    cpu.step().unwrap();
    assert_eq!(cpu.reg.pc, 0x9001);
}

#[test]
fn irq_respects_interrupt_disable() {
    let mut cpu = machine();
    cpu.bus.write_u16(0xfffe, 0x9000);
    cpu.bus.write(0x0000, 0xea);
    cpu.set_irq(false);
    cpu.reg.p.interrupt = true;
    cpu.step().unwrap();
    assert_eq!(cpu.reg.pc, 0x0001);

    cpu.reg.pc = 0x0000;
    cpu.reg.p.interrupt = false;
    cpu.step().unwrap();
    assert_eq!(cpu.reg.pc, 0x9000);
    assert!(cpu.reg.p.contains(Flag::Interrupt));
}

#[test]
fn sbc_binary_subtraction() {
    // 0x50 - 0x10 with borrow in (C=0): 0x3f
    let mut cpu = machine();
    cpu.reg.a = 0x50;
    cpu.reg.pc = 0x8000;
    cpu.load(&[0xe9, 0x10], 0x8000);
    cpu.step().unwrap();
    assert_eq!(cpu.reg.a, 0x3f);
    assert!(cpu.reg.p.contains(Flag::Carry));
}

#[test]
fn run_until_brk_stops_on_break_flag() {
    let mut cpu = machine();
    // PLP pulls a flag byte with Break set, then the loop sees it
    cpu.reg.sp = 0xff;
    cpu.stack_push(0x10);
    cpu.reg.pc = 0x8000;
    cpu.load(&[0x28, 0xea, 0xea], 0x8000);
    assert_eq!(cpu.run_until_brk(), Ok(true));
    assert!(cpu.reg.p.contains(Flag::Brk));
}

#[test]
fn run_until_brk_surfaces_the_failing_step() {
    let mut cpu = machine();
    cpu.reg.pc = 0x8000;
    cpu.load(&[0xea, 0x02], 0x8000);
    // NOP runs, then the undocumented byte stops the run with its own error
    assert_eq!(cpu.run_until_brk(), Err(Error::UnrecognizedOpcode(0x02)));
    assert_eq!(cpu.reg.pc, 0x8002);
}

#[test]
fn branch_within_target_page_when_offset_byte_ends_a_page() {
    // BEQ at 0x80FE: the offset byte sits at 0x80FF, the instruction after
    // the branch at 0x8100. Offset 0 targets 0x8100 — the same page as
    // PC + 1, so only the taken cycle is added: 3 cycles, not 4.
    let mut cpu = machine();
    cpu.reg.p.zero = true;
    cpu.reg.pc = 0x80fe;
    cpu.load(&[0xf0, 0x00], 0x80fe);
    cpu.step().unwrap();
    assert_eq!(cpu.reg.pc, 0x8100);
    assert_eq!(cpu.cycle, 3);

    // offset 0xFE targets 0x80FE, one page below PC + 1: 4 cycles
    let mut cpu = machine();
    cpu.reg.p.zero = true;
    cpu.reg.pc = 0x80fe;
    cpu.load(&[0xf0, 0xfe], 0x80fe);
    cpu.step().unwrap();
    assert_eq!(cpu.reg.pc, 0x80fe);
    assert_eq!(cpu.cycle, 4);
}
