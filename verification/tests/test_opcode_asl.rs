use byte_core::cpu::CPU;
use byte_core::ram::RAM;

#[test]
fn asl_zeropage_shifts_memory() {
    let mut cpu = CPU::new();
    cpu.bus.attach(0x0000, 0xffff, RAM::new(0x10000)).unwrap();
    cpu.bus.write(0xaa, 0b1010_1010);
    cpu.reg.pc = 0x8000;
    cpu.load(&[0x06, 0xaa], 0x8000);
    cpu.step().unwrap();
    assert_eq!(cpu.bus.read(0xaa), 0b0101_0100);
}

#[test]
fn test_opcode_asl_opcode_0x16_zeropagex_asl() {}

#[test]
fn test_opcode_asl_opcode_0x0e_absolute_asl() {}

#[test]
fn test_opcode_asl_opcode_0x1e_absolutex_asl() {}
