//! Random-access memory peripherals: plain byte arrays behind the
//! `Peripheral` contract.
//!
//! `RAM` is sized at construction; `Ram` is the console's canonical
//! full-address-space memory, 64 KiB of zeroes.

use crate::bus::Peripheral;
use vstd::prelude::*;

verus! {

/// A zero-initialized byte memory of a caller-chosen size.
pub struct RAM {
    pub data: Vec<u8>,
}

impl RAM {
    /// `size` bytes of zeroed memory.
    pub fn new(size: usize) -> (r: Self)
        ensures
            r.contents() == Seq::<u8>::new(size as nat, |i: int| 0u8),
    {
        let r = Self { data: vec![0u8; size] };
        proof {
            assert(r.contents() =~= Seq::<u8>::new(size as nat, |i: int| 0u8));
        }
        r
    }
}

impl Peripheral for RAM {
    open spec fn contents(&self) -> Seq<u8> {
        self.data@
    }

    fn read(&self, addr: u16) -> (r: u8) {
        self.data[addr as usize]
    }

    fn write(&mut self, addr: u16, byte: u8) {
        self.data[addr as usize] = byte;
    }
}

/// The console's main memory: the full 64 KiB address space, zeroed.
pub struct Ram {
    data: Vec<u8>,
}

impl Ram {
    /// Well-formed: exactly 64 KiB.
    pub open spec fn wf(&self) -> bool {
        self.contents().len() == 0x10000
    }
}

impl Default for Ram {
    /// 64 KiB of zeroes.
    fn default() -> (r: Self)
        ensures
            r.wf(),
            r.contents() == Seq::<u8>::new(0x10000, |i: int| 0u8),
    {
        let r = Self { data: vec![0u8; 0x10000] };
        proof {
            assert(r.contents() =~= Seq::<u8>::new(0x10000, |i: int| 0u8));
        }
        r
    }
}

impl Peripheral for Ram {
    closed spec fn contents(&self) -> Seq<u8> {
        self.data@
    }

    fn read(&self, addr: u16) -> (r: u8) {
        self.data[addr as usize]
    }

    fn write(&mut self, addr: u16, byte: u8) {
        self.data[addr as usize] = byte;
    }
}

} // verus!
