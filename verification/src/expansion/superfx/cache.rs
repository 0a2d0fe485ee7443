//! The GSU's instruction cache: 512 bytes in 32 lines of 16, based at CBR.
use vstd::prelude::*;
use crate::bits::lemma_u16_low_masks;

verus! {

pub const CACHE_SIZE: u16 = 0x200;

/// A line of 16 bytes. It counts as loaded once its last byte is not zero.
#[derive(Clone, Copy)]
pub struct CacheLine {
    pub data: [u8; 16],
}

impl CacheLine {
    pub fn new() -> (r: Self)
        ensures
            forall|i: int| 0 <= i < 16 ==> #[trigger] r.data@[i] == 0,
    {
        Self { data: [0; 16] }
    }

    pub fn is_loaded(&self) -> (r: bool)
        ensures
            r == (self.data@[15] != 0),
    {
        self.data[15] != 0
    }

    pub fn try_read(&self, addr: u16) -> (r: Option<u8>)
        ensures
            r == if self.data@[15] != 0 { Some(self.data@[(addr % 16) as int]) } else { None::<u8> },
    {
        if self.is_loaded() {
            Some(self.data[(addr % 16) as usize])
        } else {
            None
        }
    }

    pub fn clear(&mut self)
        ensures
            final(self).data@ == old(self).data@.update(15, 0),
    {
        self.data[15] = 0;
    }
}

pub enum CacheResult {
    InCache(u8),  // The requested data has been found inside the cache.
    Request,  // The requested data should be in the cache, but it currently is not.
    OutsideCache,  // The requested data is outside the cache.
}

pub struct CacheView {
    pub lines: Seq<Seq<u8>>,
    pub cbr: u16,
}

pub struct Cache {
    lines: [CacheLine; 32],
    cbr: u16,
}

impl View for Cache {
    type V = CacheView;

    closed spec fn view(&self) -> CacheView {
        CacheView { lines: Seq::new(32, |i: int| self.lines@[i].data@), cbr: self.cbr }
    }
}

/// Offset of `addr` into the cache, wrapping as 16-bit arithmetic.
pub open spec fn cache_offset(cbr: u16, addr: u16) -> int {
    (addr - cbr + 0x10000) % 0x10000
}

/// What a lookup of `addr` in the cache finds.
pub open spec fn cache_lookup(c: CacheView, addr: u16) -> CacheResult {
    let off = cache_offset(c.cbr, addr);
    if off < CACHE_SIZE {
        if c.lines[off / 16][15] != 0 {
            CacheResult::InCache(c.byte(off))
        } else {
            CacheResult::Request
        }
    } else {
        CacheResult::OutsideCache
    }
}

impl CacheView {
    pub open spec fn wf(self) -> bool {
        self.lines.len() == 32 && forall|i: int| 0 <= i < 32 ==> #[trigger] self.lines[i].len() == 16
    }

    /// The byte at cache location `a` (0-511).
    pub open spec fn byte(self, a: int) -> u8 {
        self.lines[a / 16][a % 16]
    }

    pub open spec fn with_byte(self, a: int, data: u8) -> CacheView {
        CacheView { lines: self.lines.update(a / 16, self.lines[a / 16].update(a % 16, data)), ..self }
    }
}

impl Cache {
    pub fn new() -> (r: Self)
        ensures
            r@.wf(),
            r@.cbr == 0,
            forall|a: int| 0 <= a < 512 ==> #[trigger] r@.byte(a) == 0,
    {
        let line = CacheLine::new();
        let r = Self { lines: [line; 32], cbr: 0 };
        proof {
            assert forall|a: int| 0 <= a < 512 implies #[trigger] r@.byte(a) == 0 by {
                assert(r.lines@[a / 16] == line);
            }
        }
        r
    }

    /// Look up `addr`: outside the cache, in a loaded line, or in a line
    /// still to be requested.
    pub fn try_read(&self, addr: u16) -> (r: CacheResult)
        requires
            self@.wf(),
        ensures
            r == cache_lookup(self@, addr),
            ({
                let off = cache_offset(self@.cbr, addr);
                if off < CACHE_SIZE {
                    if self@.lines[off / 16][15] != 0 {
                        r == CacheResult::InCache(self@.byte(off))
                    } else {
                        r == CacheResult::Request
                    }
                } else {
                    r == CacheResult::OutsideCache
                }
            }),
    {
        let cache_addr = ((addr as u32 + 0x10000 - self.cbr as u32) % 0x10000) as u16;
        if cache_addr < CACHE_SIZE {
            let cache_line = (cache_addr / 16) as usize;
            match self.lines[cache_line].try_read(cache_addr) {
                Some(data) => CacheResult::InCache(data),
                None => CacheResult::Request,
            }
        } else {
            CacheResult::OutsideCache
        }
    }

    /// Fill the cache with the value at `addr`.
    pub fn fill(&mut self, addr: u16, data: u8)
        requires
            old(self)@.wf(),
            cache_offset(old(self)@.cbr, addr) < CACHE_SIZE,
        ensures
            final(self)@.wf(),
            final(self)@ == old(self)@.with_byte(cache_offset(old(self)@.cbr, addr), data),
    {
        let cache_addr = ((addr as u32 + 0x10000 - self.cbr as u32) % 0x10000) as u16;
        self.write(cache_addr, data);
    }

    /// Read whatever happens to be at cache location `addr` (0-511).
    pub fn read(&self, addr: u16) -> (r: u8)
        requires
            self@.wf(),
            addr < CACHE_SIZE,
        ensures
            r == self@.byte(addr as int),
    {
        self.lines[(addr / 16) as usize].data[(addr % 16) as usize]
    }

    /// Write cache location `addr` (0-511).
    pub fn write(&mut self, addr: u16, data: u8)
        requires
            old(self)@.wf(),
            addr < CACHE_SIZE,
        ensures
            final(self)@.wf(),
            final(self)@ == old(self)@.with_byte(addr as int, data),
    {
        let i = (addr / 16) as usize;
        let mut line = self.lines[i];
        line.data[(addr % 16) as usize] = data;
        self.lines[i] = line;
        proof {
            assert(self@.lines =~= old(self)@.with_byte(addr as int, data).lines);
        }
    }

    /// Set the cache base; every line becomes unloaded.
    pub fn set_cbr(&mut self, data: u16)
        requires
            old(self)@.wf(),
        ensures
            final(self)@.wf(),
            final(self)@.cbr == data,
            forall|i: int| 0 <= i < 32 ==> #[trigger] final(self)@.lines[i] == old(self)@.lines[i].update(15, 0),
    {
        self.cbr = data;
        let ghost old_lines = old(self)@.lines;
        let mut i: usize = 0;
        while i < 32
            invariant
                0 <= i <= 32,
                self.cbr == data,
                old_lines.len() == 32,
                forall|j: int| 0 <= j < 32 ==> #[trigger] old_lines[j].len() == 16,
                forall|j: int| 0 <= j < i ==> #[trigger] self.lines@[j].data@ == old_lines[j].update(15, 0),
                forall|j: int| i <= j < 32 ==> #[trigger] self.lines@[j].data@ == old_lines[j],
            decreases 32 - i,
        {
            let mut line = self.lines[i];
            line.clear();
            self.lines[i] = line;
            i = i + 1;
        }
    }

    pub fn get_cbr(&self) -> (r: u16)
        ensures
            r == self@.cbr,
    {
        self.cbr
    }
}

} // verus!
