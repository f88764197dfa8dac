//! The address bus: a range-keyed router from 16-bit addresses to attached
//! peripherals, with a 64 KiB shadow image that mirrors every write.
//!
//! Reads are answered by the covering peripheral (`0x00` where none covers);
//! writes always land in the shadow and are forwarded to the covering
//! peripheral, if any. Attachment ranges are inclusive and pairwise disjoint;
//! `attach` refuses an overlap. The ghost type `BusView` gives the bus a
//! mathematical value — the attachment ranges, each peripheral's contents,
//! and the shadow — and `rd`/`wr` define what routing means on it.

use vstd::prelude::*;

verus! {

/// A device the bus can route to: a byte store addressed from zero.
///
/// `contents` is the device's ghost value; `read` and `write` must behave as
/// lookups and updates of it. Addresses handed to a peripheral are local,
/// offset from its attachment's low end.
pub trait Peripheral: Sized {
    /// The bytes the device holds, as a mathematical sequence.
    spec fn contents(&self) -> Seq<u8>;

    /// The byte at local address `addr`.
    fn read(&self, addr: u16) -> (r: u8)
        requires
            (addr as int) < self.contents().len(),
        ensures
            r == self.contents()[addr as int],
    ;

    /// Replaces the byte at local address `addr`.
    fn write(&mut self, addr: u16, byte: u8)
        requires
            (addr as int) < old(self).contents().len(),
        ensures
            final (self).contents() == old(self).contents().update(addr as int, byte),
    ;
}

/// One attachment: an inclusive address range and the device serving it.
struct PeripheralItem<P: Peripheral> {
    range: (u16, u16),
    peripheral: P,
}

/// Refusals the bus can answer with.
#[derive(Debug, Clone, Copy, PartialEq, Eq, Structural)]
pub enum BusError {
    /// The proposed attachment range intersects an existing one.
    OverlappingRange { new_lo: u16, new_hi: u16, existing_lo: u16, existing_hi: u16 },
}

/// The mathematical value of a bus: attachment ranges, the contents of the
/// peripheral behind each, and the 64 KiB shadow image.
pub struct BusView {
    pub ranges: Seq<(u16, u16)>,
    pub mems: Seq<Seq<u8>>,
    pub shadow: Seq<u8>,
}

/// Whether the inclusive range `r` contains `addr`.
pub open spec fn in_range(r: (u16, u16), addr: u16) -> bool {
    r.0 <= addr && addr <= r.1
}

/// The exclusive end of the shadow slice that `get_memory_region` hands
/// out for `range = (start, length)`: `start + length + 1`, clamped to the
/// end of the address space.
pub open spec fn region_end(range: (u16, u16)) -> int {
    if range.0 + range.1 + 1 <= 0x10000 {
        range.0 + range.1 + 1
    } else {
        0x10000
    }
}

/// Whether the inclusive ranges `a` and `b` share an address.
pub open spec fn ranges_intersect(a: (u16, u16), b: (u16, u16)) -> bool {
    a.0 <= b.1 && b.0 <= a.1
}

impl BusView {
    /// Well-formed: full-size shadow, one memory per range, each memory as
    /// long as its range, and ranges pairwise disjoint.
    pub open spec fn wf(self) -> bool {
        &&& self.shadow.len() == 0x10000
        &&& self.mems.len() == self.ranges.len()
        &&& forall|i: int|
            0 <= i < self.ranges.len() ==> {
                &&& (#[trigger] self.ranges[i]).0 <= self.ranges[i].1
                &&& self.mems[i].len() == self.ranges[i].1 - self.ranges[i].0 + 1
            }
        &&& forall|i: int, j: int|
            0 <= i < self.ranges.len() && 0 <= j < self.ranges.len() && i != j ==> !ranges_intersect(
                #[trigger] self.ranges[i],
                #[trigger] self.ranges[j],
            )
    }

    /// Whether some attachment covers `addr`.
    pub open spec fn covers(self, addr: u16) -> bool {
        exists|i: int| 0 <= i < self.ranges.len() && in_range(#[trigger] self.ranges[i], addr)
    }

    /// The attachment covering `addr` (meaningful only when `covers`).
    pub open spec fn cover_idx(self, addr: u16) -> int {
        choose|i: int| 0 <= i < self.ranges.len() && in_range(#[trigger] self.ranges[i], addr)
    }

    /// What a read of `addr` returns: the covering peripheral's byte, or 0.
    pub open spec fn rd(self, addr: u16) -> u8 {
        if self.covers(addr) {
            let i = self.cover_idx(addr);
            self.mems[i][addr - self.ranges[i].0]
        } else {
            0
        }
    }

    /// The bus after a write of `byte` to `addr`: the shadow always takes the
    /// byte; the covering peripheral's memory takes it too, if one covers.
    pub open spec fn wr(self, addr: u16, byte: u8) -> BusView {
        BusView {
            ranges: self.ranges,
            mems: if self.covers(addr) {
                let i = self.cover_idx(addr);
                self.mems.update(i, self.mems[i].update(addr - self.ranges[i].0, byte))
            } else {
                self.mems
            },
            shadow: self.shadow.update(addr as int, byte),
        }
    }

    /// A 16-bit little-endian read: 0 when no attachment covers `addr`;
    /// otherwise the low byte at `addr` and the high byte at the wrapping
    /// successor of `addr`, each through the full read path.
    pub open spec fn rd16(self, addr: u16) -> u16 {
        if self.covers(addr) {
            (self.rd(addr) + 256 * self.rd(vstd::wrapping::u16_specs::wrapping_add(addr, 1))) as u16
        } else {
            0
        }
    }

    /// A 16-bit little-endian write, low byte first, through the full write
    /// path at `addr` and its wrapping successor.
    pub open spec fn wr16(self, addr: u16, data: u16) -> BusView {
        self.wr(addr, (data % 256) as u8).wr(
            vstd::wrapping::u16_specs::wrapping_add(addr, 1),
            (data / 256) as u8,
        )
    }
}

/// At most one attachment of a well-formed bus covers any address.
pub proof fn lemma_cover_unique(v: BusView, addr: u16, i: int, j: int)
    requires
        v.wf(),
        0 <= i < v.ranges.len(),
        0 <= j < v.ranges.len(),
        in_range(v.ranges[i], addr),
        in_range(v.ranges[j], addr),
    ensures
        i == j,
{
    if i != j {
        assert(!ranges_intersect(v.ranges[i], v.ranges[j]));
    }
}

impl<P: Peripheral> PeripheralItem<P> {
    /// Pairs a range with its device.
    fn new(range: (u16, u16), peripheral: P) -> (r: Self)
        ensures
            r.range == range,
            r.peripheral == peripheral,
    {
        Self { range, peripheral }
    }

    /// Whether this attachment serves `addr`.
    fn handles(&self, addr: u16) -> (r: bool)
        ensures
            r == in_range(self.range, addr),
    {
        self.range.0 <= addr && self.range.1 >= addr
    }

    /// Whether this attachment's range intersects the inclusive `range`.
    fn overlaps(&self, range: (u16, u16)) -> (r: bool)
        ensures
            r == ranges_intersect(self.range, range),
    {
        range.0 <= self.range.1 && range.1 >= self.range.0
    }
}

/// The address bus: the attached peripherals and the write shadow.
pub struct Bus<P: Peripheral> {
    mirror: Vec<u8>,
    peripherals: Vec<PeripheralItem<P>>,
}

impl<P: Peripheral> View for Bus<P> {
    type V = BusView;

    closed spec fn view(&self) -> BusView {
        BusView {
            ranges: self.peripherals@.map_values(|item: PeripheralItem<P>| item.range),
            mems: self.peripherals@.map_values(|item: PeripheralItem<P>| item.peripheral.contents()),
            shadow: self.mirror@,
        }
    }
}

impl<P: Peripheral> Bus<P> {
    /// Well-formed: the view is, see `BusView::wf`.
    pub open spec fn wf(&self) -> bool {
        self@.wf()
    }

    /// A bus with no attachments and an all-zero shadow.
    pub fn new() -> (r: Self)
        ensures
            r.wf(),
            r@.ranges.len() == 0,
            r@.shadow == Seq::<u8>::new(0x10000, |i: int| 0u8),
    {
        let r = Self { mirror: vec![0u8; 0x10000], peripherals: Vec::new() };
        proof {
            assert(r@.shadow =~= Seq::<u8>::new(0x10000, |i: int| 0u8));
        }
        r
    }

    /// The byte the covering peripheral holds for `addr`, or `0x00` when no
    /// attachment covers it. The shadow is not consulted.
    pub fn read(&self, addr: u16) -> (r: u8)
        requires
            self.wf(),
        ensures
            r == self@.rd(addr),
    {
        if let Some((i, local)) = self.get_peripheral_index(addr) {
            proof {
                lemma_cover_unique(self@, addr, i as int, self@.cover_idx(addr));
            }
            self.peripherals[i].peripheral.read(local)
        } else {
            0
        }
    }

    /// Records `byte` in the shadow at `addr` and forwards the write to the
    /// covering peripheral, if any.
    pub fn write(&mut self, addr: u16, byte: u8)
        requires
            old(self).wf(),
        ensures
            final (self).wf(),
            final (self)@ == old(self)@.wr(addr, byte),
    {
        let ghost pre = self@;
        self.mirror[addr as usize] = byte;
        if let Some((i, local)) = self.get_peripheral_index(addr) {
            proof {
                lemma_cover_unique(pre, addr, i as int, pre.cover_idx(addr));
            }
            let item = &mut self.peripherals[i];
            item.peripheral.write(local, byte);
        }
        proof {
            assert(self@.mems =~= pre.wr(addr, byte).mems);
            assert(self@.ranges =~= pre.wr(addr, byte).ranges);
            assert(self@.shadow =~= pre.wr(addr, byte).shadow);
            assert(self@ == pre.wr(addr, byte));
        }
    }

    /// Little-endian 16-bit read: 0 when no attachment covers `addr`;
    /// otherwise the low byte from `addr` and the high byte from the
    /// wrapping successor of `addr`, each through the full read path.
    pub fn read_u16(&self, addr: u16) -> (r: u16)
        requires
            self.wf(),
        ensures
            r == self@.rd16(addr),
    {
        if self.get_peripheral_index(addr).is_some() {
            let lo = self.read(addr);
            let hi = self.read(addr.wrapping_add(1));
            (lo as u16) + 256 * (hi as u16)
        } else {
            0
        }
    }

    /// Little-endian 16-bit write: low byte to `addr`, high byte to the
    /// wrapping successor, each through the full write path.
    pub fn write_u16(&mut self, addr: u16, data: u16)
        requires
            old(self).wf(),
        ensures
            final (self).wf(),
            final (self)@ == old(self)@.wr16(addr, data),
    {
        self.write(addr, (data % 256) as u8);
        self.write(addr.wrapping_add(1), (data / 256) as u8);
    }

    /// The index of the attachment covering `addr`, with the local address
    /// `addr - lo`, or `None` when nothing covers `addr`.
    pub fn get_peripheral_index(&self, addr: u16) -> (r: Option<(usize, u16)>)
        ensures
            match r {
                Some((i, local)) => {
                    &&& i < self@.ranges.len()
                    &&& in_range(self@.ranges[i as int], addr)
                    &&& local == addr - self@.ranges[i as int].0
                },
                None => !self@.covers(addr),
            },
    {
        let n = self.peripherals.len();
        let mut i: usize = 0;
        while i < n
            invariant
                i <= n,
                n == self@.ranges.len(),
                forall|j: int| 0 <= j < i ==> !in_range(#[trigger] self@.ranges[j], addr),
            decreases n - i,
        {
            if self.peripherals[i].handles(addr) {
                return Some((i, addr - self.peripherals[i].range.0));
            }
            i = i + 1;
        }
        None
    }

    /// Appends the attachment `[lo, hi] -> peripheral`, or refuses it when
    /// the range intersects an existing attachment. Succeeds exactly when no
    /// existing range intersects `[lo, hi]`.
    pub fn attach(&mut self, lo: u16, hi: u16, peripheral: P) -> (r: Result<(), BusError>)
        requires
            old(self).wf(),
            lo <= hi,
            peripheral.contents().len() == hi - lo + 1,
        ensures
            final (self).wf(),
            (r is Ok <==> (forall|i: int|
                0 <= i < old(self)@.ranges.len() ==> !ranges_intersect(
                    #[trigger] old(self)@.ranges[i],
                    (lo, hi),
                ))),
            (r is Ok ==> final (self)@ == (BusView {
                ranges: old(self)@.ranges.push((lo, hi)),
                mems: old(self)@.mems.push(peripheral.contents()),
                shadow: old(self)@.shadow,
            })),
            (r matches Err(e) ==> {
                &&& final (self)@ == old(self)@
                &&& e matches BusError::OverlappingRange {
                    new_lo,
                    new_hi,
                    existing_lo,
                    existing_hi,
                } && new_lo == lo && new_hi == hi && exists|i: int|
                    0 <= i < old(self)@.ranges.len() && old(self)@.ranges[i] == (
                    existing_lo,
                    existing_hi,
                    ) && ranges_intersect((existing_lo, existing_hi), (lo, hi))
            }),
    {
        let ghost pre = self@;
        let n = self.peripherals.len();
        let mut i: usize = 0;
        while i < n
            invariant
                i <= n,
                n == self@.ranges.len(),
                self@ == pre,
                old(self)@ == pre,
                pre.wf(),
                forall|j: int|
                    0 <= j < i ==> !ranges_intersect(#[trigger] self@.ranges[j], (lo, hi)),
            decreases n - i,
        {
            if self.peripherals[i].overlaps((lo, hi)) {
                let existing = self.peripherals[i].range;
                proof {
                    assert(self@.ranges[i as int] == existing);
                    assert(existing == (existing.0, existing.1));
                    assert(ranges_intersect(old(self)@.ranges[i as int], (lo, hi)));
                }
                return Err(
                    BusError::OverlappingRange {
                        new_lo: lo,
                        new_hi: hi,
                        existing_lo: existing.0,
                        existing_hi: existing.1,
                    },
                );
            }
            i = i + 1;
        }
        self.peripherals.push(PeripheralItem::new((lo, hi), peripheral));
        proof {
            assert(self@.ranges =~= pre.ranges.push((lo, hi)));
            assert(self@.mems =~= pre.mems.push(peripheral.contents()));
        }
        Ok(())
    }

    /// A contiguous view into the shadow from `range.0`, spanning
    /// `range.1 + 1` bytes, clamped to the end of the address space. Reads
    /// are not reflected here; only writes are.
    pub fn get_memory_region(&self, range: (u16, u16)) -> (r: &[u8])
        requires
            self.wf(),
        ensures
            r@ == self@.shadow.subrange(range.0 as int, region_end(range)),
    {
        let lower: usize = range.0 as usize;
        let span: usize = (range.0 as usize) + (range.1 as usize) + 1;
        let upper: usize = if span <= 0x10000 {
            span
        } else {
            0x10000
        };
        vstd::slice::slice_subrange(self.mirror.as_slice(), lower, upper)
    }
}

impl<P: Peripheral> Default for Bus<P> {
    /// Same as `Bus::new`: no attachments, all-zero shadow.
    fn default() -> (r: Self)
        ensures
            r.wf(),
            r@.ranges.len() == 0,
            r@.shadow == Seq::<u8>::new(0x10000, |i: int| 0u8),
    {
        Self::new()
    }
}

} // verus!

verus! {

/// A write preserves well-formedness, the attachment ranges, and therefore
/// what `covers` and `cover_idx` answer everywhere.
pub proof fn lemma_wr_wf(v: BusView, addr: u16, byte: u8)
    requires
        v.wf(),
    ensures
        v.wr(addr, byte).wf(),
        v.wr(addr, byte).ranges == v.ranges,
        forall|a: u16| #[trigger] v.wr(addr, byte).covers(a) == v.covers(a),
        forall|a: u16| #[trigger] v.wr(addr, byte).cover_idx(a) == v.cover_idx(a),
{
    let v2 = v.wr(addr, byte);
    assert forall|i: int| 0 <= i < v2.ranges.len() implies {
        &&& (#[trigger] v2.ranges[i]).0 <= v2.ranges[i].1
        &&& v2.mems[i].len() == v2.ranges[i].1 - v2.ranges[i].0 + 1
    } by {
        assert(v.ranges[i].0 <= v.ranges[i].1);
        if v.covers(addr) {
            let k = v.cover_idx(addr);
            assert(in_range(v.ranges[k], addr));
        }
    }
}

/// Reading back the address just written yields the written byte wherever
/// an attachment covers the address (an unmapped read stays 0).
pub proof fn lemma_rd_wr_same(v: BusView, addr: u16, byte: u8)
    requires
        v.wf(),
    ensures
        v.covers(addr) ==> v.wr(addr, byte).rd(addr) == byte,
        !v.covers(addr) ==> v.wr(addr, byte).rd(addr) == 0,
{
    lemma_wr_wf(v, addr, byte);
    if v.covers(addr) {
        let i = v.cover_idx(addr);
        assert(in_range(v.ranges[i], addr));
        lemma_cover_unique(v, addr, i, v.wr(addr, byte).cover_idx(addr));
    }
}

/// A write leaves every other address reading what it read before.
pub proof fn lemma_rd_wr_other(v: BusView, addr: u16, byte: u8, other: u16)
    requires
        v.wf(),
        other != addr,
    ensures
        v.wr(addr, byte).rd(other) == v.rd(other),
{
    lemma_wr_wf(v, addr, byte);
    let v2 = v.wr(addr, byte);
    if v.covers(other) {
        let j = v.cover_idx(other);
        assert(in_range(v.ranges[j], other));
        if v.covers(addr) {
            let i = v.cover_idx(addr);
            assert(in_range(v.ranges[i], addr));
            if i == j {
                assert(addr - v.ranges[i].0 != other - v.ranges[j].0);
            }
        }
    }
}

/// Exactly zero or one attachment of a well-formed bus receives any given
/// read or write: the covering index is unique when it exists.
pub proof fn lemma_at_most_one_receiver(v: BusView, addr: u16)
    requires
        v.wf(),
    ensures
        v.covers(addr) ==> {
            let i = v.cover_idx(addr);
            &&& 0 <= i < v.ranges.len()
            &&& in_range(v.ranges[i], addr)
            &&& forall|j: int|
                0 <= j < v.ranges.len() && in_range(#[trigger] v.ranges[j], addr) ==> j == i
        },
{
    if v.covers(addr) {
        let i = v.cover_idx(addr);
        assert(in_range(v.ranges[i], addr));
        assert forall|j: int|
            0 <= j < v.ranges.len() && in_range(#[trigger] v.ranges[j], addr) implies j == i by {
            lemma_cover_unique(v, addr, j, i);
        }
    }
}

/// After a successful `attach` of `[lo, hi]`, every address of the range
/// routes to the new peripheral: reads answer its memory at `addr - lo`,
/// and a write updates exactly that memory (and the shadow).
pub proof fn lemma_attach_routes(v: BusView, mem: Seq<u8>, lo: u16, hi: u16, addr: u16, byte: u8)
    requires
        v.wf(),
        lo <= hi,
        mem.len() == hi - lo + 1,
        forall|i: int|
            0 <= i < v.ranges.len() ==> !ranges_intersect(#[trigger] v.ranges[i], (lo, hi)),
        in_range((lo, hi), addr),
    ensures
        ({
            let v2 = BusView { ranges: v.ranges.push((lo, hi)), mems: v.mems.push(mem), shadow: v.shadow };
            let n = v.ranges.len() as int;
            &&& v2.wf()
            &&& v2.covers(addr)
            &&& v2.cover_idx(addr) == n
            &&& v2.rd(addr) == mem[addr - lo]
            &&& v2.wr(addr, byte).mems == v2.mems.update(n, mem.update(addr - lo, byte))
            &&& v2.wr(addr, byte).shadow == v.shadow.update(addr as int, byte)
        }),
{
    let v2 = BusView { ranges: v.ranges.push((lo, hi)), mems: v.mems.push(mem), shadow: v.shadow };
    let n = v.ranges.len() as int;
    assert(v2.ranges[n] == (lo, hi));
    assert forall|i: int, j: int|
        0 <= i < v2.ranges.len() && 0 <= j < v2.ranges.len() && i != j implies !ranges_intersect(
        #[trigger] v2.ranges[i],
        #[trigger] v2.ranges[j],
    ) by {
        if i < n && j < n {
            assert(!ranges_intersect(v.ranges[i], v.ranges[j]));
        } else if i == n {
            assert(!ranges_intersect(v.ranges[j], (lo, hi)));
        } else {
            assert(!ranges_intersect(v.ranges[i], (lo, hi)));
        }
    }
    assert(v2.wf());
    assert(in_range(v2.ranges[n], addr));
    assert(v2.covers(addr));
    lemma_cover_unique(v2, addr, v2.cover_idx(addr), n);
}

/// Shadow consistency: immediately after any write, the shadow holds the
/// written byte at the written address — whether or not a peripheral
/// covers it — and `get_memory_region(addr, 1)` therefore starts with it.
pub proof fn lemma_write_shadow(v: BusView, addr: u16, byte: u8)
    requires
        v.wf(),
    ensures
        v.wr(addr, byte).shadow[addr as int] == byte,
        v.wr(addr, byte).shadow.subrange(addr as int, region_end((addr, 1)))[0] == byte,
{
}

} // verus!
