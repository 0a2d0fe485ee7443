//! Palette caches for decoded CGRAM.
use vstd::prelude::*;
use crate::video::ram::VideoMem;
use super::Colour;

verus! {

const MAX_COLOUR: u16 = 0x1F;

/// A 5-bit channel widened to 8 bits: shifted up by 3, with its top bits
/// repeated in the low 3.
pub open spec fn channel_888(c: int) -> int {
    c * 8 + c / 4
}

/// A BGR555 colour as RGB888.
pub open spec fn col15_spec(rgb: u16) -> Colour {
    Colour {
        r: channel_888((rgb % 32) as int) as u8,
        g: channel_888(((rgb / 32) % 32) as int) as u8,
        b: channel_888(((rgb / 1024) % 32) as int) as u8,
    }
}

proof fn lemma_channel(c: u16)
    requires
        c < 32,
    ensures
        ((c << 3u16) | ((c << 3u16) >> 5u16)) == c * 8 + c / 4,
        c * 8 + c / 4 < 256,
{
    assert(((c << 3u16) | ((c << 3u16) >> 5u16)) == c * 8 + c / 4) by (bit_vector)
        requires
            c < 32,
    ;
}

proof fn lemma_fields(x: u16)
    ensures
        x & MAX_COLOUR == x % 32,
        (x >> 5u16) & MAX_COLOUR == (x / 32) % 32,
        (x >> 10u16) & MAX_COLOUR == (x / 1024) % 32,
{
    assert(x & 0x1F == x % 32) by (bit_vector);
    assert((x >> 5u16) & 0x1F == (x / 32) % 32) by (bit_vector);
    assert((x >> 10u16) & 0x1F == (x / 1024) % 32) by (bit_vector);
}

fn channel(c: u16) -> (r: u8)
    requires
        c < 32,
    ensures
        r == channel_888(c as int),
{
    proof {
        lemma_channel(c);
    }
    let c_i = c << 3;
    (c_i | (c_i >> 5)) as u8
}

/// Convert a BGR555 colour to RGB888.
pub fn col15_to_col888(rgb: u16) -> (r: Colour)
    ensures
        r == col15_spec(rgb),
{
    proof {
        lemma_fields(rgb);
    }
    let r = channel(rgb & MAX_COLOUR);
    let g = channel((rgb >> 5) & MAX_COLOUR);
    let b = channel((rgb >> 10) & MAX_COLOUR);
    Colour::new(r, g, b)
}

/// The colour of palette entry `i` of CGRAM bytes `cgram`, little-endian.
pub open spec fn cgram_colour(cgram: Seq<u8>, i: int) -> Colour {
    col15_spec((cgram[2 * i + 1] * 256 + cgram[2 * i]) as u16)
}

/// Decoded colours: 128 for backgrounds, then 128 for sprites.
pub struct PaletteMem {
    colours: Vec<Colour>,
}

impl View for PaletteMem {
    type V = Seq<Colour>;

    closed spec fn view(&self) -> Seq<Colour> {
        self.colours@
    }
}

impl PaletteMem {
    pub fn new() -> (r: Self)
        ensures
            r@ == Seq::new(256, |i: int| Colour { r: 0, g: 0, b: 0 }),
    {
        let mut colours: Vec<Colour> = Vec::new();
        let mut i: usize = 0;
        while i < 256
            invariant
                i <= 256,
                colours@ == Seq::new(i as nat, |j: int| Colour { r: 0, g: 0, b: 0 }),
            decreases 256 - i,
        {
            colours.push(Colour::zero());
            i = i + 1;
            assert(colours@ =~= Seq::new(i as nat, |j: int| Colour { r: 0, g: 0, b: 0 }));
        }
        PaletteMem { colours: colours }
    }

    /// Decode entries `start` to `start + 127` from CGRAM.
    fn decode(&mut self, cgram: &[u8], start: usize)
        requires
            cgram@.len() == 512,
            old(self)@.len() == 256,
            start == 0 || start == 128,
        ensures
            final(self)@.len() == 256,
            forall|i: int|
                #![trigger final(self)@[i]]
                0 <= i < 256 ==> final(self)@[i] == if start <= i < start + 128 {
                    cgram_colour(cgram@, i)
                } else {
                    old(self)@[i]
                },
    {
        let mut i: usize = start;
        while i < start + 128
            invariant
                cgram@.len() == 512,
                start == 0 || start == 128,
                start <= i <= start + 128,
                self@.len() == 256,
                forall|j: int|
                    #![trigger self@[j]]
                    0 <= j < 256 ==> self@[j] == if start <= j < i {
                        cgram_colour(cgram@, j)
                    } else {
                        old(self)@[j]
                    },
            decreases start + 128 - i,
        {
            let lo = cgram[2 * i];
            let hi = cgram[2 * i + 1];
            let c = col15_to_col888(crate::bits::make16(hi, lo));
            self.colours.set(i, c);
            i = i + 1;
        }
    }

    /// Decode the background palettes: the first 128 colours of CGRAM.
    pub fn make_bg_palette(&mut self, mem: &VideoMem)
        requires
            mem@.cgram.data.len() == 512,
            old(self)@.len() == 256,
        ensures
            final(self)@.len() == 256,
            forall|i: int|
                #![trigger final(self)@[i]]
                0 <= i < 256 ==> final(self)@[i] == if i < 128 {
                    cgram_colour(mem@.cgram.data, i)
                } else {
                    old(self)@[i]
                },
    {
        self.decode(mem.get_cgram(), 0);
    }

    /// Decode the sprite palettes: the last 128 colours of CGRAM.
    pub fn make_obj_palette(&mut self, mem: &VideoMem)
        requires
            mem@.cgram.data.len() == 512,
            old(self)@.len() == 256,
        ensures
            final(self)@.len() == 256,
            forall|i: int|
                #![trigger final(self)@[i]]
                0 <= i < 256 ==> final(self)@[i] == if i >= 128 {
                    cgram_colour(mem@.cgram.data, i)
                } else {
                    old(self)@[i]
                },
    {
        self.decode(mem.get_cgram(), 128);
    }

    pub fn get_bg_colour(&self, which: usize) -> (r: Colour)
        requires
            which < self@.len(),
        ensures
            r == self@[which as int],
    {
        self.colours[which]
    }

    pub fn get_obj_colour(&self, which: usize) -> (r: Colour)
        requires
            which < 128,
            self@.len() == 256,
        ensures
            r == self@[which + 128],
    {
        self.colours[which + 128]
    }
}

} // verus!
