use byte_core::emu::{palette, ByteEmu, ByteKey};

#[test]
fn load_program_resets_pc_from_vector() {
    let mut emu = ByteEmu::default();
    // the image carries its own reset vector at $FFFC/$FFFD
    let mut program = vec![0u8; 0x10000];
    program[0x8000] = 0xea;
    program[0xfffc] = 0x00;
    program[0xfffd] = 0x80;
    emu.load_program(&program, 0x0000);
    // one frame: the program spins on NOPs (and zeros decode as BRK after
    // the first stretch), ending with the frame IRQ from the zeroed vector
    emu.step(0x00);
    let region = emu.memory_region(0x8000, 0);
    assert_eq!(region[0], 0xea);
}

#[test]
fn console_writes_input_mask_to_input_register() {
    let mut emu = ByteEmu::default();
    // a program that never touches $FF: zeros everywhere decode as BRK
    emu.load_program(&[0x00], 0x0000);
    emu.step(ByteKey::A.mask() | ByteKey::Up.mask());
    assert_eq!(emu.memory_region(0x00ff, 0)[0], 0x88);
}

#[test]
fn framebuffer_maps_nibbles_through_palette() {
    let mut emu = ByteEmu::default();
    let mut program = vec![0u8; 0x10000];
    program[0x00fd] = 0x02; // video base page 2 -> 0x2000
    program[0x2000] = 0x01; // white
    program[0x2001] = 0xf5; // high nibble ignored -> green
    emu.load_program(&program, 0x0000);
    let frame = emu.framebuffer();
    assert_eq!(frame.len(), 64 * 64);
    assert_eq!(frame[0], 0xFFFFFFFF);
    assert_eq!(frame[1], 0x00CC55FF);
    assert_eq!(frame[2], 0x000000FF);
}

#[test]
fn palette_has_sixteen_entries_with_shared_blue() {
    assert_eq!(palette(0), 0x000000FF);
    assert_eq!(palette(15), 0xBBBBBBFF);
    // entries 13 and 14 have always been the same blue
    assert_eq!(palette(13), palette(14));
}

#[test]
fn byte_key_masks_cover_distinct_bits() {
    let keys = [
        ByteKey::Right,
        ByteKey::Left,
        ByteKey::Down,
        ByteKey::Up,
        ByteKey::Start,
        ByteKey::Select,
        ByteKey::B,
        ByteKey::A,
    ];
    let mut seen = 0u8;
    for k in keys {
        assert_eq!(seen & k.mask(), 0);
        seen |= k.mask();
    }
    assert_eq!(seen, 0xff);
    assert_eq!(ByteKey::Right.mask(), 0x01);
    assert_eq!(ByteKey::A.mask(), 0x80);
}
