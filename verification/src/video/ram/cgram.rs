//! CGRAM: palette memory, 256 colours of two bytes.
use vstd::prelude::*;

verus! {

pub const CGRAM_SIZE: usize = 512;

pub struct CGRAMView {
    pub data: Seq<u8>,
    pub addr: u8,
    pub hi_byte: bool,
    pub buffer: u8,
    pub bg_dirty: bool,
    pub obj_dirty: bool,
}

/// CGRAM at power-on: every colour zero, both caches to be rebuilt.
pub open spec fn initial_cgram() -> CGRAMView {
    CGRAMView {
        data: Seq::new(CGRAM_SIZE as nat, |i: int| 0u8),
        addr: 0,
        hi_byte: false,
        buffer: 0,
        bg_dirty: true,
        obj_dirty: true,
    }
}

pub struct CGRAM {
    data: Vec<u8>,
    addr: u8,
    hi_byte: bool,
    buffer: u8,
    bg_dirty: bool,  // If any byte is changed, this is set.
    obj_dirty: bool,  // If the top 256 bytes are changed, this is set.
}

impl View for CGRAM {
    type V = CGRAMView;

    closed spec fn view(&self) -> CGRAMView {
        CGRAMView {
            data: self.data@,
            addr: self.addr,
            hi_byte: self.hi_byte,
            buffer: self.buffer,
            bg_dirty: self.bg_dirty,
            obj_dirty: self.obj_dirty,
        }
    }
}

impl CGRAMView {
    pub open spec fn wf(self) -> bool {
        self.data.len() == CGRAM_SIZE
    }

    /// The byte that the next read returns: the low or high byte of the
    /// colour at `addr`.
    pub open spec fn read_result(self) -> u8 {
        self.data[self.addr * 2 + if self.hi_byte { 1int } else { 0 }]
    }

    /// The state after a read: the high byte is next, or the next colour.
    pub open spec fn after_read(self) -> CGRAMView {
        if self.hi_byte {
            CGRAMView { addr: ((self.addr + 1) % 256) as u8, hi_byte: false, ..self }
        } else {
            CGRAMView { hi_byte: true, ..self }
        }
    }

    /// The state after a write: the first byte is buffered; the second
    /// stores both bytes of the colour, marks it dirty and moves on.
    pub open spec fn after_write(self, data: u8) -> CGRAMView {
        if self.hi_byte {
            let a = self.addr * 2;
            CGRAMView {
                data: self.data.update(a, self.buffer).update(a + 1, data),
                addr: ((self.addr + 1) % 256) as u8,
                hi_byte: false,
                bg_dirty: true,
                obj_dirty: self.obj_dirty || a >= 256,
                ..self
            }
        } else {
            CGRAMView { buffer: data, hi_byte: true, ..self }
        }
    }
}

impl CGRAM {
    pub fn new() -> (r: Self)
        ensures
            r@.wf(),
            r@.data == Seq::new(CGRAM_SIZE as nat, |i: int| 0u8),
            r@.addr == 0,
            !r@.hi_byte,
            r@.buffer == 0,
            r@.bg_dirty,
            r@.obj_dirty,
            r@ == initial_cgram(),
    {
        let r = CGRAM {
            data: vec![0; CGRAM_SIZE],
            addr: 0,
            hi_byte: false,
            buffer: 0,
            bg_dirty: true,
            obj_dirty: true,
        };
        assert(r@.data =~= Seq::new(CGRAM_SIZE as nat, |i: int| 0u8));
        r
    }

    pub fn set_addr(&mut self, addr: u8)
        ensures
            final(self)@ == (CGRAMView { addr: addr, hi_byte: false, ..old(self)@ }),
    {
        self.addr = addr;
        self.hi_byte = false;
    }

    pub fn read(&mut self) -> (r: u8)
        requires
            old(self)@.wf(),
        ensures
            final(self)@.wf(),
            r == old(self)@.read_result(),
            final(self)@ == old(self)@.after_read(),
    {
        let addr = ((self.addr as usize) * 2) + (if self.hi_byte {
            1
        } else {
            0
        });
        let ret = self.data[addr];
        self.hi_byte = if self.hi_byte {
            self.addr = ((self.addr as u16 + 1) % 256) as u8;
            false
        } else {
            true
        };
        ret
    }

    pub fn write(&mut self, data: u8)
        requires
            old(self)@.wf(),
        ensures
            final(self)@.wf(),
            final(self)@ == old(self)@.after_write(data),
    {
        if self.hi_byte {
            let addr = (self.addr as usize) * 2;
            if addr >= 256 {
                self.obj_dirty = true;
            }
            self.bg_dirty = true;
            self.data.set(addr, self.buffer);
            self.data.set(addr + 1, data);
            self.addr = ((self.addr as u16 + 1) % 256) as u8;
            self.hi_byte = false;
        } else {
            self.buffer = data;
            self.hi_byte = true;
        }
    }

    /// The palette bytes, for the renderer.
    pub fn ref_data(&self) -> (r: &[u8])
        ensures
            r@ == self@.data,
    {
        self.data.as_slice()
    }

    pub fn is_bg_dirty(&self) -> (r: bool)
        ensures
            r == self@.bg_dirty,
    {
        self.bg_dirty
    }

    pub fn is_obj_dirty(&self) -> (r: bool)
        ensures
            r == self@.obj_dirty,
    {
        self.obj_dirty
    }

    pub fn reset_dirty(&mut self)
        ensures
            final(self)@ == (CGRAMView { bg_dirty: false, obj_dirty: false, ..old(self)@ }),
    {
        self.bg_dirty = false;
        self.obj_dirty = false;
    }
}

/// A colour written as two bytes after setting the address reads back as
/// the same two bytes after setting the address again.
pub proof fn lemma_cgram_write_read(s: CGRAMView, addr: u8, lo: u8, hi: u8)
    requires
        s.wf(),
    ensures
        ({
            let w = CGRAMView { addr: addr, hi_byte: false, ..s }.after_write(lo).after_write(hi);
            let r0 = CGRAMView { addr: addr, hi_byte: false, ..w };
            &&& w.wf()
            &&& r0.read_result() == lo
            &&& r0.after_read().read_result() == hi
            &&& r0.after_read().after_read().addr == (addr + 1) % 256
        }),
{
}

} // verus!
