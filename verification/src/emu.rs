//! The console: a CPU with 64 KiB of RAM on the full address range, an
//! entropy stream, memory-mapped input/entropy/video registers, a per-frame
//! drive loop, and the framebuffer renderer.
//!
//! Per frame, the host's input mask is written to `$00FF`; then a fixed
//! instruction budget runs, each instruction preceded by the next entropy
//! byte landing in `$00FE`; at the end an IRQ marks the frame boundary.
//! The display samples 4096 bytes from the page selected by `$00FD`.

use crate::cpu::{interrupt_spec, step_spec, CpuView, Interrupt, CPU};
use crate::rand::{random_numbers, random_seed, xorshift_spec, RandomNumbers};
use crate::ram::Ram;
use vstd::prelude::*;

verus! {

/// Video base page selector register.
pub const REG_VIDEO: u16 = 0xfd;

/// Entropy register, rewritten before every instruction.
pub const REG_RANDOM: u16 = 0xfe;

/// Input register, rewritten at every frame start.
pub const REG_INPUT: u16 = 0xff;

/// Instructions executed per frame (a ~6.4 MHz clock at 60 Hz).
pub const INSTRUCTIONS_PER_FRAME: usize = 6400000 / 60;

/// Pixels in one frame: 64 x 64.
pub const FRAMEBUFFER_SIZE: usize = 64 * 64;

/// The fixed 16-entry RGBA palette (two entries share the same blue, as the
/// console has always shipped it).
#[verifier::allow_in_spec]
pub fn palette(index: u8) -> u32
    returns
        (match index {
            0 => 0x000000FFu32,
            1 => 0xFFFFFFFFu32,
            2 => 0x880000FFu32,
            3 => 0xAAFFEEFFu32,
            4 => 0xCC44CCFFu32,
            5 => 0x00CC55FFu32,
            6 => 0x0000AAFFu32,
            7 => 0xEEEE77FFu32,
            8 => 0x664400FFu32,
            9 => 0xFF7777FFu32,
            10 => 0x333333FFu32,
            11 => 0x777777FFu32,
            12 => 0xAAFF66FFu32,
            13 => 0x0088FFFFu32,
            14 => 0x0088FFFFu32,
            15 => 0xBBBBBBFFu32,
            _ => 0u32,
        }),
{
    match index {
        0 => 0x000000FF,
        1 => 0xFFFFFFFF,
        2 => 0x880000FF,
        3 => 0xAAFFEEFF,
        4 => 0xCC44CCFF,
        5 => 0x00CC55FF,
        6 => 0x0000AAFF,
        7 => 0xEEEE77FF,
        8 => 0x664400FF,
        9 => 0xFF7777FF,
        10 => 0x333333FF,
        11 => 0x777777FF,
        12 => 0xAAFF66FF,
        13 => 0x0088FFFF,
        14 => 0x0088FFFF,
        15 => 0xBBBBBBFF,
        _ => 0,
    }
}

/// A console button. `mask` places it in the input register per the
/// console's layout: bit 0 Right, 1 Left, 2 Down, 3 Up, 4 Start, 5 Select,
/// 6 B, 7 A.
#[derive(Debug, Clone, Copy, PartialEq, Eq, Structural)]
pub enum ByteKey {
    Up,
    Down,
    Left,
    Right,
    Select,
    Start,
    A,
    B,
}

impl ByteKey {
    /// The button's bit in the input register.
    #[verifier::allow_in_spec]
    pub fn mask(self) -> u8
        returns
            (match self {
                ByteKey::Right => 0x01u8,
                ByteKey::Left => 0x02u8,
                ByteKey::Down => 0x04u8,
                ByteKey::Up => 0x08u8,
                ByteKey::Start => 0x10u8,
                ByteKey::Select => 0x20u8,
                ByteKey::B => 0x40u8,
                ByteKey::A => 0x80u8,
            }),
    {
        match self {
            ByteKey::Right => 0x01,
            ByteKey::Left => 0x02,
            ByteKey::Down => 0x04,
            ByteKey::Up => 0x08,
            ByteKey::Start => 0x10,
            ByteKey::Select => 0x20,
            ByteKey::B => 0x40,
            ByteKey::A => 0x80,
        }
    }
}

/// The mathematical value of a console: its machine and its entropy state.
pub struct EmuView {
    pub cpu: CpuView,
    pub rand: u32,
}

/// The console.
pub struct ByteEmu {
    cpu: CPU<Ram>,
    rand: RandomNumbers,
}

impl View for ByteEmu {
    type V = EmuView;

    closed spec fn view(&self) -> EmuView {
        EmuView { cpu: self.cpu@, rand: self.rand.state() }
    }
}

/// One drive-loop iteration: the stream advances, its low byte lands in the
/// entropy register, and the CPU steps once (a failing step is ignored; the
/// program counter has already moved past the bad byte).
pub open spec fn frame_iter(c: CpuView, r: u32) -> (CpuView, u32) {
    let r1 = xorshift_spec(r);
    let c1 = CpuView { bus: c.bus.wr(REG_RANDOM, (r1 % 256) as u8), ..c };
    (step_spec(c1), r1)
}

/// `n` drive-loop iterations.
pub open spec fn frame_loop(c: CpuView, r: u32, n: nat) -> (CpuView, u32)
    decreases n,
{
    if n == 0 {
        (c, r)
    } else {
        let p = frame_loop(c, r, (n - 1) as nat);
        frame_iter(p.0, p.1)
    }
}

/// A whole frame: the input mask lands in the input register, the
/// instruction budget runs, and the frame-boundary IRQ is taken.
pub open spec fn console_step_spec(v: EmuView, input: u8) -> EmuView {
    let c0 = CpuView { bus: v.cpu.bus.wr(REG_INPUT, input), ..v.cpu };
    let p = frame_loop(c0, v.rand, INSTRUCTIONS_PER_FRAME as nat);
    EmuView { cpu: interrupt_spec(p.0, Interrupt::IRQ), rand: p.1 }
}

/// The framebuffer base address: the low nibble of the video register,
/// shifted to a page-aligned 4 KiB window.
pub open spec fn fb_base(c: CpuView) -> u16 {
    ((c.bus.rd(REG_VIDEO) % 16) as u16 * 4096) as u16
}

impl ByteEmu {
    /// Well-formed: the machine's bus is.
    pub open spec fn wf(&self) -> bool {
        self@.cpu.bus.wf()
    }

    /// Loads a program image and issues a reset interrupt, so PC comes from
    /// whatever the freshly written image holds at the reset vector.
    pub fn load_program(&mut self, program: &[u8], start: u16)
        requires
            old(self).wf(),
            program@.len() <= 0x10000,
        ensures
            final (self).wf(),
            final (self)@ == (EmuView {
                cpu: interrupt_spec(
                    CpuView {
                        bus: crate::cpu::load_spec(old(self)@.cpu.bus, program@, start),
                        ..old(self)@.cpu
                    },
                    Interrupt::RST,
                ),
                ..old(self)@
            }),
    {
        self.cpu.load(program, start);
        self.cpu.interrupt(Interrupt::RST);
    }

    /// Runs one frame with the given input mask; see `console_step_spec`.
    #[verifier::rlimit(100)]
    pub fn step(&mut self, input: u8)
        requires
            old(self).wf(),
        ensures
            final (self).wf(),
            final (self)@ == console_step_spec(old(self)@, input),
    {
        self.cpu.bus.write(REG_INPUT, input);
        let ghost c0 = self.cpu@;
        let ghost r0 = self.rand.state();
        let mut i: usize = 0;
        while i < INSTRUCTIONS_PER_FRAME
            invariant
                i <= INSTRUCTIONS_PER_FRAME,
                self.cpu.bus.wf(),
                (self.cpu@, self.rand.state()) == frame_loop(c0, r0, i as nat),
            decreases INSTRUCTIONS_PER_FRAME - i,
        {
            let ghost p = frame_loop(c0, r0, i as nat);
            let n = self.rand.next_u32();
            self.cpu.bus.write(REG_RANDOM, (n % 256) as u8);
            let _ = self.cpu.step();
            proof {
                assert(frame_loop(c0, r0, (i + 1) as nat) == frame_iter(p.0, p.1));
                assert((self.cpu@, self.rand.state()) == frame_iter(p.0, p.1));
            }
            i = i + 1;
        }
        self.cpu.interrupt(Interrupt::IRQ);
    }

    /// Renders the 64 x 64 frame: each byte of the 4 KiB window anchored by
    /// the video register is mapped through the palette by its low nibble.
    pub fn framebuffer(&self) -> (r: Vec<u32>)
        requires
            self.wf(),
        ensures
            r@.len() == FRAMEBUFFER_SIZE,
            forall|i: int|
                0 <= i < FRAMEBUFFER_SIZE ==> r@[i] == palette(
                    (#[trigger] self@.cpu.bus.rd((fb_base(self@.cpu) + i) as u16)) % 16,
                ),
    {
        let video_ptr: u16 = (self.cpu.bus.read(REG_VIDEO) % 16) as u16 * 4096;
        let mut frame: Vec<u32> = Vec::new();
        let mut i: usize = 0;
        while i < FRAMEBUFFER_SIZE
            invariant
                i <= FRAMEBUFFER_SIZE,
                self.wf(),
                video_ptr == fb_base(self@.cpu),
                frame@.len() == i,
                forall|j: int|
                    0 <= j < i ==> frame@[j] == palette(
                        (#[trigger] self@.cpu.bus.rd((fb_base(self@.cpu) + j) as u16)) % 16,
                    ),
            decreases FRAMEBUFFER_SIZE - i,
        {
            let color = self.cpu.bus.read(video_ptr + i as u16) % 16;
            frame.push(palette(color));
            i = i + 1;
        }
        frame
    }

    /// A window into the shadow memory, for inspection; see
    /// `Bus::get_memory_region`.
    pub fn memory_region(&self, start: u16, length: u16) -> (r: &[u8])
        requires
            self.wf(),
        ensures
            r@ == self@.cpu.bus.shadow.subrange(
                start as int,
                crate::bus::region_end((start, length)),
            ),
    {
        self.cpu.bus.get_memory_region((start, length))
    }
}

impl Default for ByteEmu {
    /// A console with zeroed RAM attached across the whole address space, a
    /// power-on CPU, and a process-random entropy seed.
    fn default() -> (r: Self)
        ensures
            r.wf(),
            r@.cpu.reg == crate::cpu::regs_zero(),
            r@.cpu.cycle == 0,
            r@.cpu.bus.ranges == seq![(0u16, 0xffffu16)],
            r@.cpu.bus.mems == seq![Seq::<u8>::new(0x10000, |i: int| 0u8)],
            r@.cpu.bus.shadow == Seq::<u8>::new(0x10000, |i: int| 0u8),
    {
        let mut cpu = CPU::<Ram>::new();
        let attached = cpu.bus.attach(0x0000, 0xffff, Ram::default());
        proof {
            assert(attached is Ok);
        }
        let seed = random_seed();
        let r = ByteEmu { cpu, rand: random_numbers((seed % 0x1_0000_0000) as u32) };
        proof {
            assert(r@.cpu.bus.ranges =~= seq![(0u16, 0xffffu16)]);
            assert(r@.cpu.bus.mems =~= seq![Seq::<u8>::new(0x10000, |i: int| 0u8)]);
        }
        r
    }
}

} // verus!
