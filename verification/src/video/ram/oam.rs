//! OAM (Object Attribute Memory): the attributes of the 128 sprites.
use vstd::prelude::*;
use crate::bits::{set_lo16, set_hi16, make16, lemma_u8_low_masks};

verus! {

pub const LO_TABLE_SIZE: usize = 512;
pub const NUM_OBJECTS: usize = 128;

// Object attribute bits.
pub const ATTR_Y_FLIP: u8 = 0x80;
pub const ATTR_X_FLIP: u8 = 0x40;
pub const ATTR_PRIORITY: u8 = 0x30;
pub const ATTR_PALETTE: u8 = 0x0E;
pub const ATTR_NAME_TABLE: u8 = 0x01;

pub enum SpritePriority {
    _3,
    _2,
    _1,
    _0,
}

/// The unsigned 16-bit pattern of a signed word.
pub open spec fn u16_of(x: i16) -> u16 {
    if x >= 0 { x as u16 } else { (x + 0x10000) as u16 }
}

/// The signed word with a given 16-bit pattern.
pub open spec fn i16_of(x: u16) -> i16 {
    if x < 0x8000 { x as i16 } else { (x - 0x10000) as i16 }
}

fn to_u16(x: i16) -> (r: u16)
    ensures
        r == u16_of(x),
{
    if x >= 0 {
        x as u16
    } else {
        (x as i32 + 0x10000) as u16
    }
}

fn to_i16(x: u16) -> (r: i16)
    ensures
        r == i16_of(x),
{
    if x < 0x8000 {
        x as i16
    } else {
        (x as i32 - 0x10000) as i16
    }
}

/// A single object in memory.
#[derive(Clone, Copy)]
pub struct Object {
    pub x: i16,
    pub y: u8,
    pub tile_num: u8,
    pub attrs: u8,
    pub large: bool,
}

/// Byte `addr` (0-3) of an object's entry in the low table.
pub open spec fn obj_lo_byte(o: Object, addr: int) -> u8 {
    if addr == 0 {
        (u16_of(o.x) % 256) as u8
    } else if addr == 1 {
        o.y
    } else if addr == 2 {
        o.tile_num
    } else {
        o.attrs
    }
}

/// An object after writing byte `addr` (0-3) of its low table entry.
pub open spec fn obj_write_lo(o: Object, addr: int, val: u8) -> Object {
    if addr == 0 {
        Object { x: i16_of(((u16_of(o.x) / 256) * 256 + val) as u16), ..o }
    } else if addr == 1 {
        Object { y: val, ..o }
    } else if addr == 2 {
        Object { tile_num: val, ..o }
    } else {
        Object { attrs: val, ..o }
    }
}

/// The two bits of an object's entry in the high table: bit 0 is bit 8 of
/// X, bit 1 is the size.
pub open spec fn obj_hi_bits(o: Object) -> u8 {
    ((if u16_of(o.x) / 256 % 2 == 1 { 1int } else { 0 }) + (if o.large { 2int } else { 0 })) as u8
}

/// An object after writing its two high table bits: X bit 8 is sign
/// extended through the high byte.
pub open spec fn obj_write_hi(o: Object, val: u8) -> Object {
    Object {
        x: i16_of(((if val % 2 == 1 { 0xFFint } else { 0 }) * 256 + u16_of(o.x) % 256) as u16),
        large: (val / 2) % 2 == 1,
        ..o
    }
}

impl Object {
    pub fn new() -> (r: Self)
        ensures
            r == (Object { x: 0, y: 0, tile_num: 0, attrs: 0, large: false }),
    {
        Object { x: 0, y: 0, tile_num: 0, attrs: 0, large: false }
    }

    fn write_lo(&mut self, addr: usize, val: u8)
        requires
            addr < 4,
        ensures
            *final(self) == obj_write_lo(*old(self), addr as int, val),
    {
        if addr == 0 {
            self.x = to_i16(set_lo16(to_u16(self.x), val));
        } else if addr == 1 {
            self.y = val;
        } else if addr == 2 {
            self.tile_num = val;
        } else {
            self.attrs = val;
        }
    }

    fn write_hi(&mut self, val: u8)
        ensures
            *final(self) == obj_write_hi(*old(self), val),
    {
        proof {
            lemma_u8_low_masks(val);
        }
        let hi_x = if val & 1 != 0 {
            0xFF
        } else {
            0
        };
        self.x = to_i16(set_hi16(to_u16(self.x), hi_x));
        self.large = val & 2 != 0;
        proof {
            lemma_u8_low_masks(val);
        }
    }

    fn read_lo(&self, addr: usize) -> (r: u8)
        requires
            addr < 4,
        ensures
            r == obj_lo_byte(*self, addr as int),
    {
        if addr == 0 {
            (to_u16(self.x) % 256) as u8
        } else if addr == 1 {
            self.y
        } else if addr == 2 {
            self.tile_num
        } else {
            self.attrs
        }
    }

    fn read_hi(&self) -> (r: u8)
        ensures
            r == obj_hi_bits(*self),
    {
        let lo_bit: u8 = if (to_u16(self.x) / 256) % 2 == 1 {
            1
        } else {
            0
        };
        let hi_bit: u8 = if self.large {
            2
        } else {
            0
        };
        hi_bit + lo_bit
    }

    // Renderer readers
    pub fn x_flip(&self) -> (r: bool)
        ensures
            r == (self.attrs & ATTR_X_FLIP != 0),
    {
        self.attrs & ATTR_X_FLIP != 0
    }

    pub fn y_flip(&self) -> (r: bool)
        ensures
            r == (self.attrs & ATTR_Y_FLIP != 0),
    {
        self.attrs & ATTR_Y_FLIP != 0
    }

    /// Priority from bits 5-4 of the attributes.
    pub fn priority(&self) -> (r: SpritePriority)
        ensures
            r == (if (self.attrs / 16) % 4 == 3 {
                SpritePriority::_3
            } else if (self.attrs / 16) % 4 == 2 {
                SpritePriority::_2
            } else if (self.attrs / 16) % 4 == 1 {
                SpritePriority::_1
            } else {
                SpritePriority::_0
            }),
    {
        let a = self.attrs;
        let p = a & ATTR_PRIORITY;
        proof {
            lemma_u8_low_masks(a);
        }
        if p == 0x30 {
            SpritePriority::_3
        } else if p == 0x20 {
            SpritePriority::_2
        } else if p == 0x10 {
            SpritePriority::_1
        } else {
            SpritePriority::_0
        }
    }

    /// Offset of the object's palette in colours: the palette number
    /// (bits 3-1) times 8.
    pub fn palette_offset(&self) -> (r: usize)
        ensures
            r == ((self.attrs / 2) % 8) * 16,
    {
        let a = self.attrs;
        let p = a & ATTR_PALETTE;
        proof {
            lemma_u8_low_masks(a);
        }
        (p as usize) * 8
    }

    pub fn name_table(&self) -> (r: usize)
        ensures
            r == self.attrs % 2,
    {
        proof {
            lemma_u8_low_masks(self.attrs);
        }
        (self.attrs & ATTR_NAME_TABLE) as usize
    }

    /// Tile number for the pixel at (`x`, `y`) inside the sprite: the low
    /// nybble of the tile number steps with x/8 and the high nybble with
    /// y/8, each wrapping within its nybble.
    pub fn calc_tile_num(&self, x: usize, y: usize) -> (r: usize)
        ensures
            r == ((self.tile_num + ((y / 8) % 16) * 16) % 256) / 16 * 16 + (self.tile_num + x / 8) % 16,
    {
        let x_offset = ((x / 8) % 16) as u16;
        let x_val = ((self.tile_num as u16 + x_offset) % 16) as usize;
        let y_offset = (((y / 8) % 16) * 16) as u16;
        let y_val = (((self.tile_num as u16 + y_offset) % 256) / 16 * 16) as usize;
        y_val + x_val
    }
}

pub struct OAMView {
    pub objects: Seq<Object>,
    pub addr_lo: u8,
    pub addr_hi: u8,
    pub addr: usize,
    pub hi_byte: bool,
    pub buffer: u8,
}

/// OAM at power-on: every object zeroed, the address at the start.
pub open spec fn initial_oam() -> OAMView {
    OAMView {
        objects: Seq::new(NUM_OBJECTS as nat, |i: int| Object::new_spec()),
        addr_lo: 0,
        addr_hi: 0,
        addr: 0,
        hi_byte: false,
        buffer: 0,
    }
}

pub struct OAM {
    objects: Vec<Object>,
    addr_lo: u8,  // Cached internal address values
    addr_hi: u8,
    addr: usize,
    hi_byte: bool,
    buffer: u8,
}

impl View for OAM {
    type V = OAMView;

    closed spec fn view(&self) -> OAMView {
        OAMView {
            objects: self.objects@,
            addr_lo: self.addr_lo,
            addr_hi: self.addr_hi,
            addr: self.addr,
            hi_byte: self.hi_byte,
            buffer: self.buffer,
        }
    }
}

impl OAMView {
    pub open spec fn wf(self) -> bool {
        self.objects.len() == NUM_OBJECTS
    }

    /// Accessing the next byte does not run off the low table (an odd
    /// address 511 with the high byte pending would), and the address can
    /// advance.
    pub open spec fn access_ok(self) -> bool {
        !(self.addr == 511 && self.hi_byte) && self.addr + 2 <= usize::MAX
    }

    /// The byte the next read returns.
    pub open spec fn read_result(self) -> u8 {
        let a = self.addr + if self.hi_byte { 1int } else { 0 };
        if self.addr >= LO_TABLE_SIZE {
            let start = (a % 32) * 4;
            (obj_hi_bits(self.objects[start]) + obj_hi_bits(self.objects[start + 1]) * 4
                + obj_hi_bits(self.objects[start + 2]) * 16 + obj_hi_bits(self.objects[start + 3])
                * 64) as u8
        } else {
            obj_lo_byte(self.objects[a / 4], a % 4)
        }
    }

    pub open spec fn advanced(self) -> OAMView {
        if self.hi_byte {
            OAMView { addr: (self.addr + 2) as usize, hi_byte: false, ..self }
        } else {
            OAMView { hi_byte: true, ..self }
        }
    }

    /// The objects after writing `val` to byte `hi_addr` of the high table:
    /// two bits for each of four objects.
    pub open spec fn write_hi_table(self, hi_addr: int, val: u8) -> Seq<Object> {
        let start = (hi_addr % 32) * 4;
        Seq::new(
            self.objects.len(),
            |i: int|
                if start <= i < start + 4 {
                    obj_write_hi(self.objects[i], ((val as int / pow4(i - start)) % 4) as u8)
                } else {
                    self.objects[i]
                },
        )
    }

    pub open spec fn write_lo_table(objects: Seq<Object>, lo_addr: int, val: u8) -> Seq<Object> {
        objects.update(lo_addr / 4, obj_write_lo(objects[lo_addr / 4], lo_addr % 4, val))
    }

    /// The state after a write. In the low table the first byte is buffered
    /// and the second writes both; in the high table each byte is written
    /// directly.
    pub open spec fn after_write(self, data: u8) -> OAMView {
        if self.addr >= LO_TABLE_SIZE {
            let a = self.addr % 32 + if self.hi_byte { 1int } else { 0 };
            OAMView { objects: self.write_hi_table(a, data), ..self.advanced() }
        } else if self.hi_byte {
            OAMView {
                objects: OAMView::write_lo_table(
                    OAMView::write_lo_table(self.objects, self.addr as int, self.buffer),
                    self.addr + 1,
                    data,
                ),
                ..self.advanced()
            }
        } else {
            OAMView { buffer: data, hi_byte: true, ..self }
        }
    }
}

pub open spec fn pow4(n: int) -> int {
    if n <= 0 { 1 } else if n == 1 { 4 } else if n == 2 { 16 } else { 64 }
}

impl OAM {
    pub fn new() -> (r: Self)
        ensures
            r@.wf(),
            forall|i: int| 0 <= i < NUM_OBJECTS ==> #[trigger] r@.objects[i] == Object::new_spec(),
            r@.addr_lo == 0,
            r@.addr_hi == 0,
            r@.addr == 0,
            !r@.hi_byte,
            r@.buffer == 0,
            r@ == initial_oam(),
    {
        let r = OAM {
            objects: vec![Object::new(); NUM_OBJECTS],
            addr_lo: 0,
            addr_hi: 0,
            addr: 0,
            hi_byte: false,
            buffer: 0,
        };
        assert(r@.objects =~= initial_oam().objects);
        r
    }

    pub fn set_addr_lo(&mut self, addr: u8)
        ensures
            final(self)@ == (OAMView {
                addr_lo: addr,
                addr: (old(self)@.addr_hi * 256 + addr) as usize,
                hi_byte: false,
                ..old(self)@
            }),
    {
        self.addr_lo = addr;
        self.set_addr();
    }

    pub fn set_addr_hi(&mut self, addr: u8)
        ensures
            final(self)@ == (OAMView {
                addr_hi: addr,
                addr: (addr * 256 + old(self)@.addr_lo) as usize,
                hi_byte: false,
                ..old(self)@
            }),
    {
        self.addr_hi = addr;
        self.set_addr();
    }

    pub fn read(&mut self) -> (r: u8)
        requires
            old(self)@.wf(),
            old(self)@.access_ok(),
        ensures
            final(self)@.wf(),
            r == old(self)@.read_result(),
            final(self)@ == old(self)@.advanced(),
    {
        let addr = self.addr + (if self.hi_byte {
            1
        } else {
            0
        });
        let ret = if self.addr >= LO_TABLE_SIZE {
            let hi_addr = addr % 32;
            self.read_hi_table(hi_addr)
        } else {
            self.read_lo_table(addr)
        };
        self.hi_byte = if self.hi_byte {
            self.addr = self.addr + 2;
            false
        } else {
            true
        };
        ret
    }

    pub fn write(&mut self, data: u8)
        requires
            old(self)@.wf(),
            old(self)@.access_ok(),
        ensures
            final(self)@.wf(),
            final(self)@ == old(self)@.after_write(data),
    {
        if self.addr >= LO_TABLE_SIZE {
            let addr = self.addr % 32;
            if self.hi_byte {
                self.write_hi_table(addr + 1, data);
                self.addr = self.addr + 2;
                self.hi_byte = false;
            } else {
                self.write_hi_table(addr, data);
                self.hi_byte = true;
            }
        } else {
            if self.hi_byte {
                self.write_lo_table(self.addr, self.buffer);
                self.write_lo_table(self.addr + 1, data);
                self.addr = self.addr + 2;
                self.hi_byte = false;
            } else {
                self.buffer = data;
                self.hi_byte = true;
            }
        }
    }

    /// Reload the internal address from the address registers.
    pub fn reset(&mut self)
        ensures
            final(self)@ == (OAMView {
                addr: (old(self)@.addr_hi * 256 + old(self)@.addr_lo) as usize,
                hi_byte: false,
                ..old(self)@
            }),
    {
        self.set_addr();
    }

    /// The objects, for the renderer.
    pub fn ref_data(&self) -> (r: &[Object])
        ensures
            r@ == self@.objects,
    {
        self.objects.as_slice()
    }
}

impl Object {
    pub open spec fn new_spec() -> Object {
        Object { x: 0, y: 0, tile_num: 0, attrs: 0, large: false }
    }
}

impl OAM {
    fn set_addr(&mut self)
        ensures
            final(self)@ == (OAMView {
                addr: (old(self)@.addr_hi * 256 + old(self)@.addr_lo) as usize,
                hi_byte: false,
                ..old(self)@
            }),
    {
        self.addr = make16(self.addr_hi, self.addr_lo) as usize;
        self.hi_byte = false;
    }

    fn write_lo_table(&mut self, lo_addr: usize, val: u8)
        requires
            old(self)@.wf(),
            lo_addr < LO_TABLE_SIZE,
        ensures
            final(self)@.wf(),
            final(self)@ == (OAMView {
                objects: OAMView::write_lo_table(old(self)@.objects, lo_addr as int, val),
                ..old(self)@
            }),
    {
        let mut obj = self.objects[lo_addr / 4];
        obj.write_lo(lo_addr % 4, val);
        self.objects.set(lo_addr / 4, obj);
    }

    fn write_hi_table(&mut self, hi_addr: usize, val: u8)
        requires
            old(self)@.wf(),
        ensures
            final(self)@.wf(),
            final(self)@ == (OAMView { objects: old(self)@.write_hi_table(hi_addr as int, val), ..old(self)@ }),
    {
        let ghost o = self@;
        let start = (hi_addr % 32) * 4;
        let mut i: usize = 0;
        while i < 4
            invariant
                0 <= i <= 4,
                start == (hi_addr % 32) * 4,
                o.wf(),
                self@ == (OAMView { objects: self@.objects, ..o }),
                self@.objects.len() == NUM_OBJECTS,
                forall|j: int|
                    0 <= j < NUM_OBJECTS ==> #[trigger] self@.objects[j] == if start <= j < start + i {
                        obj_write_hi(o.objects[j], ((val as int / pow4(j - start)) % 4) as u8)
                    } else {
                        o.objects[j]
                    },
            decreases 4 - i,
        {
            let hi_bits = (val >> ((i * 2) as u8)) & 0x3;
            proof {
                let sh = (i * 2) as u8;
                assert(hi_bits == (val as int / pow4(i as int)) % 4) by {
                    lemma_u8_low_masks(val);
                }
            }
            let mut obj = self.objects[start + i];
            obj.write_hi(hi_bits);
            self.objects.set(start + i, obj);
            i = i + 1;
        }
        proof {
            assert(self@.objects =~= o.write_hi_table(hi_addr as int, val));
        }
    }

    fn read_lo_table(&self, lo_addr: usize) -> (r: u8)
        requires
            self@.wf(),
            lo_addr < LO_TABLE_SIZE,
        ensures
            r == obj_lo_byte(self@.objects[(lo_addr / 4) as int], (lo_addr % 4) as int),
    {
        self.objects[lo_addr / 4].read_lo(lo_addr % 4)
    }

    fn read_hi_table(&self, hi_addr: usize) -> (r: u8)
        requires
            self@.wf(),
        ensures
            ({
                let start = (hi_addr % 32) * 4;
                r == (obj_hi_bits(self@.objects[start]) + obj_hi_bits(self@.objects[start + 1]) * 4
                    + obj_hi_bits(self@.objects[start + 2]) * 16 + obj_hi_bits(self@.objects[start + 3])
                    * 64)
            }),
    {
        let start = (hi_addr % 32) * 4;
        let b0 = self.objects[start].read_hi();
        let b1 = self.objects[start + 1].read_hi();
        let b2 = self.objects[start + 2].read_hi();
        let b3 = self.objects[start + 3].read_hi();
        proof {
            assert(b0 < 4 && b1 < 4 && b2 < 4 && b3 < 4);
            assert(b0 | (b1 << 2u8) | (b2 << 4u8) | (b3 << 6u8) == b0 + b1 * 4 + b2 * 16 + b3 * 64)
                by (bit_vector)
                requires
                    b0 < 4,
                    b1 < 4,
                    b2 < 4,
                    b3 < 4,
            ;
        }
        b0 | (b1 << 2) | (b2 << 4) | (b3 << 6)
    }
}

proof fn lemma_u16_i16(x: u16)
    ensures
        u16_of(i16_of(x)) == x,
{
}

/// Two bytes written to the low table, after setting the address, read
/// back in the same order after setting it again.
pub proof fn lemma_oam_write_read(s: OAMView, a: usize, d0: u8, d1: u8)
    requires
        s.wf(),
        a + 1 < LO_TABLE_SIZE,
    ensures
        ({
            let w = OAMView { addr: a, hi_byte: false, ..s }.after_write(d0).after_write(d1);
            let r = OAMView { addr: a, hi_byte: false, ..w };
            &&& w.wf()
            &&& r.read_result() == d0
            &&& r.advanced().read_result() == d1
        }),
{
    let o = s.objects[(a / 4) as int];
    let k = (a % 4) as int;
    let objs1 = OAMView::write_lo_table(s.objects, a as int, d0);
    let objs2 = OAMView::write_lo_table(objs1, a + 1, d1);
    lemma_u16_i16(((u16_of(o.x) / 256) * 256 + d0) as u16);
    if k < 3 {
        assert((a + 1) / 4 == a / 4);
        assert((a + 1) % 4 == k + 1);
        let o1 = obj_write_lo(o, k, d0);
        let o2 = obj_write_lo(o1, k + 1, d1);
        assert(objs2[(a / 4) as int] == o2);
        assert(obj_lo_byte(o2, k) == d0);
        assert(obj_lo_byte(o2, k + 1) == d1);
    } else {
        let n = s.objects[((a + 1) / 4) as int];
        assert((a + 1) / 4 == a / 4 + 1);
        assert((a + 1) % 4 == 0);
        lemma_u16_i16(((u16_of(n.x) / 256) * 256 + d1) as u16);
        assert(objs2[(a / 4) as int] == obj_write_lo(o, 3, d0));
        assert(objs2[((a + 1) / 4) as int] == obj_write_lo(n, 0, d1));
    }
}

proof fn lemma_hi_bits_write(o: Object, v: u8)
    requires
        v < 4,
    ensures
        obj_hi_bits(obj_write_hi(o, v)) == v,
{
    let hi: int = if v % 2 == 1 { 0xFF } else { 0 };
    lemma_u16_i16((hi * 256 + u16_of(o.x) % 256) as u16);
}

proof fn lemma_byte_pairs(d: u8)
    ensures
        d % 4 + ((d / 4) % 4) * 4 + ((d / 16) % 4) * 16 + ((d / 64) % 4) * 64 == d,
{
    assert(d % 4 + ((d / 4) % 4) * 4 + ((d / 16) % 4) * 16 + ((d / 64) % 4) * 64 == d) by (bit_vector);
}

proof fn lemma_hi_table_entries(s: OAMView, h: int, d: u8)
    requires
        s.wf(),
        0 <= h < 32,
    ensures
        ({
            let objs = s.write_hi_table(h, d);
            &&& objs.len() == NUM_OBJECTS
            &&& obj_hi_bits(objs[h * 4]) == d % 4
            &&& obj_hi_bits(objs[h * 4 + 1]) == (d / 4) % 4
            &&& obj_hi_bits(objs[h * 4 + 2]) == (d / 16) % 4
            &&& obj_hi_bits(objs[h * 4 + 3]) == (d / 64) % 4
        }),
{
    let start = h * 4;
    let objs = s.write_hi_table(h, d);
    assert(h % 32 == h);
    assert(pow4(0) == 1 && pow4(1) == 4 && pow4(2) == 16 && pow4(3) == 64);
    assert(objs[start] == obj_write_hi(s.objects[start], (d as int % 4) as u8));
    assert(objs[start + 1] == obj_write_hi(s.objects[start + 1], ((d as int / 4) % 4) as u8));
    assert(objs[start + 2] == obj_write_hi(s.objects[start + 2], ((d as int / 16) % 4) as u8));
    assert(objs[start + 3] == obj_write_hi(s.objects[start + 3], ((d as int / 64) % 4) as u8));
    lemma_hi_bits_write(s.objects[start], (d % 4) as u8);
    lemma_hi_bits_write(s.objects[start + 1], ((d / 4) % 4) as u8);
    lemma_hi_bits_write(s.objects[start + 2], ((d / 16) % 4) as u8);
    lemma_hi_bits_write(s.objects[start + 3], ((d / 64) % 4) as u8);
}

/// A byte written to the high table, after setting the address, reads back
/// after setting it again: the two bits of each of four objects.
pub proof fn lemma_oam_hi_write_read(s: OAMView, a: usize, d: u8)
    requires
        s.wf(),
        LO_TABLE_SIZE <= a,
        a + 2 <= usize::MAX,
    ensures
        ({
            let w = OAMView { addr: a, hi_byte: false, ..s }.after_write(d);
            let r = OAMView { addr: a, hi_byte: false, ..w };
            &&& w.wf()
            &&& r.read_result() == d
        }),
{
    let s1 = OAMView { addr: a, hi_byte: false, ..s };
    let h = (a % 32) as int;
    lemma_hi_table_entries(s1, h, d);
    lemma_byte_pairs(d);
    let w = s1.after_write(d);
    assert(w.objects == s1.write_hi_table(h, d));
}

} // verus!
