use byte_core::cpu::CPU;
use byte_core::ram::RAM;

#[test]
fn and_immediate_masks_accumulator() {
    let mut cpu = CPU::new();
    cpu.bus.attach(0x0000, 0xffff, RAM::new(0x10000)).unwrap();
    cpu.reg.a = 0xff;
    cpu.reg.pc = 0x8000;
    cpu.load(&[0x29, 0x80], 0x8000);
    cpu.step().unwrap();
    assert_eq!(cpu.reg.a, 0x80);
}

#[test]
fn test_opcode_and_opcode_0x25_zeropage_and() {}

#[test]
fn test_opcode_and_opcode_0x35_zeropagex_and() {}

#[test]
fn test_opcode_and_opcode_0x2d_absolute_and() {}

#[test]
fn test_opcode_and_opcode_0x3d_absolutex_and() {}

#[test]
fn test_opcode_and_opcode_0x39_absolutey_and() {}

#[test]
fn test_opcode_and_opcode_0x21_indirectx_and() {}

#[test]
fn test_opcode_and_opcode_0x31_indirecty_and() {}
