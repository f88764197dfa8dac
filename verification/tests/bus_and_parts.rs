use byte_core::bus::{Bus, BusError};
use byte_core::flags::Flags;
use byte_core::opcode::{get_opcode, opcode_for, AddressingMode, Mnemonic};
use byte_core::rand::random_numbers;
use byte_core::ram::RAM;

#[test]
fn attach_rejects_overlapping_ranges() {
    let mut bus: Bus<RAM> = Bus::new();
    bus.attach(0x0000, 0x7fff, RAM::new(0x8000)).unwrap();
    let r = bus.attach(0x7fff, 0x9000, RAM::new(0x1002));
    assert_eq!(
        r,
        Err(BusError::OverlappingRange {
            new_lo: 0x7fff,
            new_hi: 0x9000,
            existing_lo: 0x0000,
            existing_hi: 0x7fff,
        })
    );
}

#[test]
fn attach_routes_reads_and_writes() {
    let mut bus: Bus<RAM> = Bus::new();
    bus.attach(0x1000, 0x1fff, RAM::new(0x1000)).unwrap();
    bus.write(0x1234, 0xab);
    assert_eq!(bus.read(0x1234), 0xab);
    assert_eq!(bus.get_peripheral_index(0x1234), Some((0, 0x234)));
    assert_eq!(bus.get_peripheral_index(0x0fff), None);
}

#[test]
fn unmapped_reads_are_zero_and_writes_shadowed() {
    let mut bus: Bus<RAM> = Bus::new();
    bus.attach(0x0000, 0x00ff, RAM::new(0x100)).unwrap();
    bus.write(0x2000, 0x55);
    // the peripheral path drops the write, the shadow keeps it
    assert_eq!(bus.read(0x2000), 0x00);
    assert_eq!(bus.get_memory_region((0x2000, 1))[0], 0x55);
}

#[test]
fn shadow_mirrors_every_covered_write_too() {
    let mut bus: Bus<RAM> = Bus::new();
    bus.attach(0x0000, 0xffff, RAM::new(0x10000)).unwrap();
    bus.write(0x00aa, 0x77);
    assert_eq!(bus.get_memory_region((0x00aa, 1))[0], 0x77);
    assert_eq!(bus.read(0x00aa), 0x77);
}

#[test]
fn word_read_is_zero_when_low_address_is_unmapped() {
    let mut bus: Bus<RAM> = Bus::new();
    bus.attach(0x0001, 0x0001, RAM::new(1)).unwrap();
    bus.write(0x0001, 0xab);
    // nothing covers the low address, so the whole word reads 0
    assert_eq!(bus.read_u16(0x0000), 0x0000);
    assert_eq!(bus.read_u16(0x0001), 0x00ab);
}

#[test]
fn word_access_is_little_endian() {
    let mut bus: Bus<RAM> = Bus::new();
    bus.attach(0x0000, 0xffff, RAM::new(0x10000)).unwrap();
    bus.write_u16(0x1000, 0xbeef);
    assert_eq!(bus.read(0x1000), 0xef);
    assert_eq!(bus.read(0x1001), 0xbe);
    assert_eq!(bus.read_u16(0x1000), 0xbeef);
}

#[test]
fn memory_region_clamps_to_address_space() {
    let mut bus: Bus<RAM> = Bus::new();
    bus.attach(0x0000, 0xffff, RAM::new(0x10000)).unwrap();
    bus.write(0xffff, 0x42);
    let tail = bus.get_memory_region((0xfffe, 0x100));
    assert_eq!(tail.len(), 2);
    assert_eq!(tail[1], 0x42);
}

#[test]
fn opcode_table_knows_documented_bytes() {
    let adc = opcode_for(0x69).unwrap();
    assert_eq!(adc.size, 2);
    assert_eq!(adc.tick, 2);
    assert_eq!(adc.mnemonic, Mnemonic::ADC);
    assert!(opcode_for(0x02).is_none());
    let sta = opcode_for(0x9d).unwrap();
    assert_eq!(sta.tick, 5);
}

#[test]
fn get_opcode_finds_by_mnemonic_and_mode() {
    let op = get_opcode(Mnemonic::ADC, AddressingMode::Immediate).unwrap();
    assert_eq!(op.code, 0x69);
    assert!(get_opcode(Mnemonic::BRK, AddressingMode::Absolute).is_none());
}

#[test]
fn flag_bits_round_trip() {
    let f = Flags::from_bits(0b1010_0101);
    assert!(f.negative && !f.overflow && f.unused && !f.brk);
    assert!(!f.decimal && f.interrupt && !f.zero && f.carry);
    assert_eq!(f.bits(), 0b1010_0101);
    assert_eq!(Flags::default().bits(), 0);
}

#[test]
fn entropy_stream_is_deterministic() {
    let mut a = random_numbers(0xdeadbeef);
    let mut b = random_numbers(0xdeadbeef);
    let first = a.next_u32();
    assert_eq!(first, b.next_u32());
    assert_ne!(first, a.next_u32());
    // xorshift32 of 1: 1 ^ (1<<13) = 0x2001; ^ (>>17) = 0x2001; ^ (<<5) = 0x42021
    let mut c = random_numbers(1);
    assert_eq!(c.next_u32(), 0x2001 ^ (0x2001 << 5));
}
