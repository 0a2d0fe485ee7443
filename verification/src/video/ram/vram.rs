//! VRAM: background maps and pattern data, 64kB accessed through a port.
use vstd::prelude::*;
use crate::bits::{set_lo16, set_hi16, lemma_u8_low_masks};

verus! {

// Port control bits.
pub const PORT_INC: u8 = 0x80;
pub const PORT_REMAP: u8 = 0x0C;
pub const PORT_INC_RATE: u8 = 0x03;

/// Size of VRAM (64kB).
pub const VRAM_SIZE: usize = 64 * 1024;

/// A pattern region: its first and last address, and whether it was
/// written since it was last read.
pub type Region = ((u16, u16), bool);

pub struct VRAMView {
    pub data: Seq<u8>,
    pub port_control: u8,
    pub byte_addr: u16,
    pub pattern_regions: Seq<Region>,
}

/// VRAM at power-on: zeroed, no port settings, no region touched.
pub open spec fn initial_vram() -> VRAMView {
    VRAMView {
        data: Seq::new(VRAM_SIZE as nat, |i: int| 0u8),
        port_control: 0,
        byte_addr: 0,
        pattern_regions: Seq::empty(),
    }
}

pub struct VRAM {
    data: Vec<u8>,
    port_control: u8,
    byte_addr: u16,
    pattern_regions: Vec<Region>,
}

impl View for VRAM {
    type V = VRAMView;

    closed spec fn view(&self) -> VRAMView {
        VRAMView {
            data: self.data@,
            port_control: self.port_control,
            byte_addr: self.byte_addr,
            pattern_regions: self.pattern_regions@,
        }
    }
}

/// The address after remapping for bitmap modes: the low bits of the
/// address are rotated by 3 within an 8, 9 or 10 bit field.
pub open spec fn remap_spec(mode: u8, a: u16) -> u16 {
    if mode == 0 {
        a
    } else if mode == 1 {
        (a & 0xFE00) | ((a & 0x003F) << 3u16) | ((a & 0x01C0) >> 6u16)
    } else if mode == 2 {
        (a & 0xFC00) | ((a & 0x007F) << 3u16) | ((a & 0x0380) >> 7u16)
    } else {
        (a & 0xF800) | ((a & 0x00FF) << 3u16) | ((a & 0x0700) >> 8u16)
    }
}

impl VRAMView {
    pub open spec fn wf(self) -> bool {
        self.data.len() == VRAM_SIZE
    }

    /// The remap mode, bits 3-2 of the port control.
    pub open spec fn remap_mode(self) -> u8 {
        ((self.port_control / 4) % 4) as u8
    }

    /// The remapped address of the low byte of the current word.
    pub open spec fn addr(self) -> u16 {
        remap_spec(self.remap_mode(), self.byte_addr)
    }

    /// Whether the address increments after the high byte (else after the
    /// low byte).
    pub open spec fn inc_on_hi(self) -> bool {
        self.port_control >= 0x80
    }

    /// Bytes to step the address by: one word, 32 words or 128 words.
    pub open spec fn inc_amount(self) -> u16 {
        let rate = self.port_control % 4;
        if rate == 0 { 2 } else if rate == 1 { 64 } else { 256 }
    }

    pub open spec fn with_addr_lo(self, addr: u8) -> VRAMView {
        VRAMView { byte_addr: ((((self.byte_addr / 2) / 256) * 256 + addr) * 2 % 0x10000) as u16, ..self }
    }

    pub open spec fn with_addr_hi(self, addr: u8) -> VRAMView {
        VRAMView { byte_addr: (((addr * 256 + (self.byte_addr / 2) % 256) * 2) % 0x10000) as u16, ..self }
    }

    /// Writing the low byte of the current word: store it, mark its region
    /// dirty, and step the address unless it steps after the high byte.
    pub open spec fn after_write_lo(self, data: u8) -> VRAMView {
        let w = VRAMView { data: self.data.update(self.addr() as int, data), ..self }.mark_dirty(self.addr());
        if self.inc_on_hi() { w } else { w.incremented() }
    }

    /// Writing the high byte of the current word.
    pub open spec fn after_write_hi(self, data: u8) -> VRAMView {
        let a = ((self.addr() + 1) % 0x10000) as u16;
        let w = VRAMView { data: self.data.update(a as int, data), ..self }.mark_dirty(a);
        if self.inc_on_hi() { w.incremented() } else { w }
    }

    pub open spec fn incremented(self) -> VRAMView {
        VRAMView { byte_addr: ((self.byte_addr + self.inc_amount()) % 0x10000) as u16, ..self }
    }

    /// Mark every region that holds `addr` as dirty.
    pub open spec fn mark_dirty(self, addr: u16) -> VRAMView {
        VRAMView {
            pattern_regions: Seq::new(
                self.pattern_regions.len(),
                |i: int|
                    {
                        let ((s, e), d) = self.pattern_regions[i];
                        ((s, e), d || (s <= addr && addr <= e))
                    },
            ),
            ..self
        }
    }

    /// Whether the region starting at `start` is dirty: the flag of the
    /// first region with that start, or false when there is none.
    pub open spec fn region_dirty(self, start: u16) -> bool {
        exists|i: int|
            0 <= i < self.pattern_regions.len() && self.pattern_regions[i].0.0 == start
                && self.pattern_regions[i].1 && (forall|j: int|
                0 <= j < i ==> self.pattern_regions[j].0.0 != start)
    }
}

impl VRAM {
    pub fn new() -> (r: Self)
        ensures
            r@.wf(),
            r@.data == Seq::new(VRAM_SIZE as nat, |i: int| 0u8),
            r@.port_control == 0,
            r@.byte_addr == 0,
            r@.pattern_regions.len() == 0,
            r@ == initial_vram(),
    {
        let r = VRAM { data: vec![0; VRAM_SIZE], port_control: 0, byte_addr: 0, pattern_regions: Vec::new() };
        assert(r@.data =~= Seq::new(VRAM_SIZE as nat, |i: int| 0u8));
        assert(r@.pattern_regions =~= Seq::empty());
        r
    }

    /// Only the increment, remap and rate bits exist.
    pub fn set_port_control(&mut self, data: u8)
        ensures
            final(self)@ == (VRAMView { port_control: data & 0x8F, ..old(self)@ }),
    {
        self.port_control = data & 0x8F;
    }

    /// Set the low byte of the word address.
    pub fn set_addr_lo(&mut self, addr: u8)
        ensures
            final(self)@ == old(self)@.with_addr_lo(addr),
    {
        let old_word_addr = self.byte_addr / 2;
        let new_word_addr = set_lo16(old_word_addr, addr);
        self.byte_addr = (((new_word_addr as u32) * 2) % 0x10000) as u16;
    }

    /// Set the high byte of the word address.
    pub fn set_addr_hi(&mut self, addr: u8)
        ensures
            final(self)@ == old(self)@.with_addr_hi(addr),
    {
        let old_word_addr = self.byte_addr / 2;
        let new_word_addr = set_hi16(old_word_addr, addr);
        self.byte_addr = (((new_word_addr as u32) * 2) % 0x10000) as u16;
    }

    pub fn read_lo(&mut self) -> (r: u8)
        requires
            old(self)@.wf(),
        ensures
            final(self)@.wf(),
            r == old(self)@.data[old(self)@.addr() as int],
            final(self)@ == if old(self)@.inc_on_hi() { old(self)@ } else { old(self)@.incremented() },
    {
        let ret = self.data[self.remap_addr() as usize];
        if self.port_control & PORT_INC == 0 {
            self.inc_addr();
        }
        proof {
            lemma_u8_low_masks(self.port_control);
        }
        ret
    }

    pub fn read_hi(&mut self) -> (r: u8)
        requires
            old(self)@.wf(),
        ensures
            final(self)@.wf(),
            r == old(self)@.data[((old(self)@.addr() + 1) % 0x10000) as int],
            final(self)@ == if old(self)@.inc_on_hi() { old(self)@.incremented() } else { old(self)@ },
    {
        let a = self.remap_addr();
        let ret = self.data[((a as u32 + 1) % 0x10000) as usize];
        if self.port_control & PORT_INC != 0 {
            self.inc_addr();
        }
        proof {
            lemma_u8_low_masks(self.port_control);
        }
        ret
    }

    pub fn write_lo(&mut self, data: u8)
        requires
            old(self)@.wf(),
        ensures
            final(self)@.wf(),
            final(self)@ == old(self)@.after_write_lo(data),
    {
        let addr = self.remap_addr();
        self.data.set(addr as usize, data);
        self.set_dirty(addr);
        if self.port_control & PORT_INC == 0 {
            self.inc_addr();
        }
        proof {
            lemma_u8_low_masks(self.port_control);
        }
    }

    pub fn write_hi(&mut self, data: u8)
        requires
            old(self)@.wf(),
        ensures
            final(self)@.wf(),
            final(self)@ == old(self)@.after_write_hi(data),
    {
        let addr = ((self.remap_addr() as u32 + 1) % 0x10000) as u16;
        self.data.set(addr as usize, data);
        self.set_dirty(addr);
        if self.port_control & PORT_INC != 0 {
            self.inc_addr();
        }
        proof {
            lemma_u8_low_masks(self.port_control);
        }
    }

    /// The VRAM bytes, for the renderer.
    pub fn ref_data(&self) -> (r: &[u8])
        ensures
            r@ == self@.data,
    {
        self.data.as_slice()
    }

    /// Check if the region starting at `start_addr` is dirty.
    pub fn dirty_range(&self, start_addr: u16) -> (r: bool)
        ensures
            r == self@.region_dirty(start_addr),
    {
        let mut i: usize = 0;
        while i < self.pattern_regions.len()
            invariant
                i <= self.pattern_regions.len(),
                forall|j: int| 0 <= j < i ==> self.pattern_regions@[j].0.0 != start_addr,
            decreases self.pattern_regions.len() - i,
        {
            let ((b, _), dirty) = self.pattern_regions[i];
            if b == start_addr {
                proof {
                    if dirty {
                        assert(0 <= i < self@.pattern_regions.len() && self@.pattern_regions[i as int].0.0 == start_addr
                            && self@.pattern_regions[i as int].1 && (forall|j: int|
                            0 <= j < i ==> self@.pattern_regions[j].0.0 != start_addr));
                    }
                    if !dirty {
                        assert forall|k: int|
                            0 <= k < self@.pattern_regions.len() && self@.pattern_regions[k].0.0 == start_addr
                                && self@.pattern_regions[k].1 implies exists|j: int|
                            0 <= j < k && self@.pattern_regions[j].0.0 == start_addr by {
                            assert(k != i);
                            if k < i {
                                assert(self@.pattern_regions[k].0.0 != start_addr);
                            }
                        }
                    }
                }
                return dirty;
            }
            i = i + 1;
        }
        false
    }

    /// Reset the dirty flag of every region whose start is in `read`.
    pub fn reset_dirty_range(&mut self, read: &[u16])
        ensures
            final(self)@ == (VRAMView {
                pattern_regions: Seq::new(
                    old(self)@.pattern_regions.len(),
                    |i: int|
                        {
                            let (r, d) = old(self)@.pattern_regions[i];
                            (r, d && !read@.contains(r.0))
                        },
                ),
                ..old(self)@
            }),
    {
        let ghost old_regions = self.pattern_regions@;
        let ghost old_view = self@;
        let mut i: usize = 0;
        while i < self.pattern_regions.len()
            invariant
                i <= self.pattern_regions.len(),
                self@ == (VRAMView { pattern_regions: self@.pattern_regions, ..old_view }),
                old_regions == old_view.pattern_regions,
                self.pattern_regions@.len() == old_regions.len(),
                forall|j: int| 0 <= j < i ==> #[trigger] self.pattern_regions@[j] == ({
                    let (r, d) = old_regions[j];
                    (r, d && !read@.contains(r.0))
                }),
                forall|j: int| i <= j < old_regions.len() ==> #[trigger] self.pattern_regions@[j] == old_regions[j],
            decreases self.pattern_regions.len() - i,
        {
            let (r, dirty) = self.pattern_regions[i];
            let mut found = false;
            let mut k: usize = 0;
            while k < read.len()
                invariant
                    k <= read.len(),
                    found == (exists|m: int| 0 <= m < k && read@[m] == r.0),
                decreases read.len() - k,
            {
                if read[k] == r.0 {
                    found = true;
                }
                k = k + 1;
            }
            self.pattern_regions.set(i, (r, dirty && !found));
            i = i + 1;
        }
        proof {
            assert(self.pattern_regions@ =~= Seq::new(
                old_regions.len(),
                |i: int|
                    {
                        let (r, d) = old_regions[i];
                        (r, d && !read@.contains(r.0))
                    },
            ));
        }
    }

    /// Set the borders of each region of VRAM pattern memory; all start
    /// dirty.
    pub fn set_pattern_regions(&mut self, regions: Vec<(u16, u16)>)
        ensures
            final(self)@ == (VRAMView {
                pattern_regions: regions@.map_values(|r: (u16, u16)| (r, true)),
                ..old(self)@
            }),
    {
        let mut out: Vec<Region> = Vec::new();
        let mut i: usize = 0;
        while i < regions.len()
            invariant
                i <= regions.len(),
                out@ == regions@.subrange(0, i as int).map_values(|r: (u16, u16)| (r, true)),
            decreases regions.len() - i,
        {
            out.push((regions[i], true));
            i = i + 1;
            proof {
                assert(regions@.subrange(0, i as int) == regions@.subrange(0, i - 1).push(regions@[i - 1]));
                assert(out@ =~= regions@.subrange(0, i as int).map_values(|r: (u16, u16)| (r, true)));
            }
        }
        assert(regions@.subrange(0, regions@.len() as int) =~= regions@);
        self.pattern_regions = out;
    }
}

// Internal
impl VRAM {
    fn inc_addr(&mut self)
        ensures
            final(self)@ == old(self)@.incremented(),
    {
        proof {
            lemma_u8_low_masks(self.port_control);
        }
        let rate = self.port_control & PORT_INC_RATE;
        let inc_rate: u32 = if rate == 0 {
            2
        } else if rate == 1 {
            64
        } else {
            256
        };
        self.byte_addr = ((self.byte_addr as u32 + inc_rate) % 0x10000) as u16;
    }

    /// Mark the regions holding `addr` as dirty.
    fn set_dirty(&mut self, addr: u16)
        ensures
            final(self)@ == old(self)@.mark_dirty(addr),
    {
        let ghost old_regions = self.pattern_regions@;
        let ghost old_view = self@;
        let mut i: usize = 0;
        while i < self.pattern_regions.len()
            invariant
                i <= self.pattern_regions.len(),
                self@ == (VRAMView { pattern_regions: self@.pattern_regions, ..old_view }),
                old_regions == old_view.pattern_regions,
                self.pattern_regions@.len() == old_regions.len(),
                forall|j: int| 0 <= j < i ==> #[trigger] self.pattern_regions@[j] == ({
                    let ((s, e), d) = old_regions[j];
                    ((s, e), d || (s <= addr && addr <= e))
                }),
                forall|j: int| i <= j < old_regions.len() ==> #[trigger] self.pattern_regions@[j] == old_regions[j],
            decreases self.pattern_regions.len() - i,
        {
            let ((start, end), dirty) = self.pattern_regions[i];
            if (addr >= start) && (addr <= end) {
                self.pattern_regions.set(i, ((start, end), true));
            }
            i = i + 1;
        }
        proof {
            assert(self@.pattern_regions =~= old_view.mark_dirty(addr).pattern_regions);
        }
    }

    fn remap_addr(&self) -> (r: u16)
        ensures
            r == self@.addr(),
    {
        let pc = self.port_control;
        let mode = (pc & PORT_REMAP) >> 2;
        proof {
            lemma_u8_low_masks(pc);
        }
        let a = self.byte_addr;
        if mode == 0 {
            a
        } else if mode == 1 {
            (a & 0xFE00) | ((a & 0x003F) << 3) | ((a & 0x01C0) >> 6)
        } else if mode == 2 {
            (a & 0xFC00) | ((a & 0x007F) << 3) | ((a & 0x0380) >> 7)
        } else {
            (a & 0xF800) | ((a & 0x00FF) << 3) | ((a & 0x0700) >> 8)
        }
    }
}

/// Setting the high then the low byte of the word address gives the same
/// address whatever it was before.
proof fn lemma_set_addr(s: VRAMView, hi: u8, lo: u8)
    ensures
        s.with_addr_hi(hi).with_addr_lo(lo).byte_addr == ((hi % 128) * 256 + lo) * 2,
{
    let t = (s.byte_addr / 2) % 256;
    let b1 = s.with_addr_hi(hi).byte_addr;
    assert(b1 == ((hi * 256 + t) * 2) % 0x10000);
    assert(b1 == ((hi % 128) * 256 + t) * 2);
    assert(b1 / 2 == (hi % 128) * 256 + t);
    assert((b1 / 2) / 256 == hi % 128);
}

/// The state after reading the low byte through the port.
pub open spec fn after_read_lo(s: VRAMView) -> VRAMView {
    if s.inc_on_hi() { s } else { s.incremented() }
}

/// Stepping an even address never makes the next high byte land on the
/// low byte just written, whatever the remapping.
proof fn lemma_remap_step(mode: u8, a: u16, inc: u16)
    requires
        mode < 4,
        a % 2 == 0,
        inc == 2 || inc == 64 || inc == 256,
    ensures
        ((remap_spec(mode, ((a + inc) % 0x10000) as u16) + 1) % 0x10000) != remap_spec(mode, a),
{
    assert(((remap_spec(mode, ((a + inc) % 0x10000) as u16) + 1) % 0x10000) != remap_spec(mode, a))
        by (bit_vector)
        requires
            mode < 4,
            a % 2 == 0,
            inc == 2 || inc == 64 || inc == 256,
    ;
}

/// A word written through the port after setting the address reads back,
/// low byte then high byte, after setting the same address again, whether
/// the address steps after the low or the high byte.
pub proof fn lemma_vram_write_read(s: VRAMView, hi: u8, lo: u8, d0: u8, d1: u8)
    requires
        s.wf(),
    ensures
        ({
            let w = s.with_addr_hi(hi).with_addr_lo(lo).after_write_lo(d0).after_write_hi(d1);
            let r = w.with_addr_hi(hi).with_addr_lo(lo);
            let r1 = after_read_lo(r);
            &&& r.wf()
            &&& r.data[r.addr() as int] == d0
            &&& r1.data[((r1.addr() + 1) % 0x10000) as int] == d1
        }),
{
    let s1 = s.with_addr_hi(hi).with_addr_lo(lo);
    let a = s1.addr();
    let w0 = s1.after_write_lo(d0);
    let w = w0.after_write_hi(d1);
    let r = w.with_addr_hi(hi).with_addr_lo(lo);
    lemma_set_addr(s, hi, lo);
    lemma_set_addr(w, hi, lo);
    assert(w0.port_control == s1.port_control);
    assert(r.byte_addr == s1.byte_addr);
    assert(r.port_control == s1.port_control);
    assert(r.addr() == a);
    assert(w0.data == s1.data.update(a as int, d0));
    let b = ((w0.addr() + 1) % 0x10000) as int;
    assert(w.data == w0.data.update(b, d1));
    let r1 = after_read_lo(r);
    if s.inc_on_hi() {
        assert(w0.byte_addr == s1.byte_addr);
        assert(w0.addr() == a);
    } else {
        assert(w0.byte_addr == r1.byte_addr);
        assert(r1.addr() == w0.addr());
        assert(s1.byte_addr % 2 == 0);
        assert(s1.remap_mode() < 4);
        assert(s1.inc_amount() == 2 || s1.inc_amount() == 64 || s1.inc_amount() == 256);
        lemma_remap_step(s1.remap_mode(), s1.byte_addr, s1.inc_amount());
        assert(b != a as int);
    }
}

} // verus!
