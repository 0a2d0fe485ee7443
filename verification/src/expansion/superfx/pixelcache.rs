//! The GSU's pixel cache: rows of 8 pixels collected by PLOT and written
//! back to RAM as bitplanes.
use vstd::prelude::*;
use crate::bits::{bit_of, p2, lemma_p2_double, lemma_u8_low_masks, lemma_u8_bits, bit8};

verus! {

// Screen mode bits.
pub const SM_HT1: u8 = 0x20;
pub const SM_RON: u8 = 0x10;
pub const SM_RAN: u8 = 0x08;
pub const SM_HT0: u8 = 0x04;
pub const SM_MD: u8 = 0x03;

// Plot option bits.
pub const PO_OBJ_MODE: u8 = 0x10;
pub const PO_FREEZE_HI: u8 = 0x08;
pub const PO_HI_NYBBLE: u8 = 0x04;
pub const PO_DITHER: u8 = 0x02;
pub const PO_TRANSPARENT: u8 = 0x01;

/// Bits per pixel.
#[derive(Clone, Copy, PartialEq, Eq, Structural)]
pub enum BPP {
    _2,
    _4,
    _8,
}

/// Screen height in pixels, or the sprite layout.
#[derive(Clone, Copy, PartialEq, Eq, Structural)]
pub enum ScreenHeight {
    _128,
    _160,
    _192,
    Obj,
}

pub open spec fn bpp_of(mode: u8) -> BPP {
    if mode % 4 == 0 { BPP::_2 } else if mode % 4 == 1 { BPP::_4 } else { BPP::_8 }
}

pub open spec fn height_of(mode: u8) -> ScreenHeight {
    if bit8(mode, 2) && bit8(mode, 5) {
        ScreenHeight::Obj
    } else if bit8(mode, 2) {
        ScreenHeight::_160
    } else if bit8(mode, 5) {
        ScreenHeight::_192
    } else {
        ScreenHeight::_128
    }
}

fn bpp_from(mode: u8) -> (r: BPP)
    ensures
        r == bpp_of(mode),
{
    proof {
        lemma_u8_low_masks(mode);
    }
    let md = mode & SM_MD;
    if md == 0 {
        BPP::_2
    } else if md == 1 {
        BPP::_4
    } else {
        BPP::_8
    }
}

fn height_from(mode: u8) -> (r: ScreenHeight)
    ensures
        r == height_of(mode),
{
    proof {
        lemma_u8_bits(mode);
    }
    if mode & SM_HT0 != 0 && mode & SM_HT1 != 0 {
        ScreenHeight::Obj
    } else if mode & SM_HT0 != 0 {
        ScreenHeight::_160
    } else if mode & SM_HT1 != 0 {
        ScreenHeight::_192
    } else {
        ScreenHeight::_128
    }
}

/// A row of 8 pixels. Each pixel is 2, 4, or 8 bits.
#[derive(Clone, Copy)]
pub struct CacheLine {
    pub data: [u8; 8],
    pub bitp: u8,  // Bit-pending flags
    pub tile_x: u8,
    pub y: u8,
}

/// The byte of bitplane `plane` for the 8 pixels `data`: pixel 0 in bit 7.
pub open spec fn plane_byte(data: Seq<u8>, plane: int, n: int) -> int
    decreases n,
{
    if n <= 0 {
        0
    } else {
        plane_byte(data, plane, n - 1) * 2 + (data[n - 1] as int / p2(plane)) % 2
    }
}

/// A pixel from `n` bitplane bytes: bit `i` of the pixel is the bit for
/// this pixel (`x`, counted from bit 7) in byte `i`.
pub open spec fn pixel_from_planes(buffer: Seq<u8>, x: int, n: int) -> int
    decreases n,
{
    if n <= 0 {
        0
    } else {
        pixel_from_planes(buffer, x, n - 1) + ((buffer[n - 1] as int / p2(7 - x)) % 2) * p2(n - 1)
    }
}

proof fn lemma_plane_byte_bound(data: Seq<u8>, plane: int, n: int)
    requires
        0 <= n <= 8,
    ensures
        0 <= plane_byte(data, plane, n) < p2(n),
    decreases n,
{
    if n > 0 {
        lemma_plane_byte_bound(data, plane, n - 1);
        lemma_p2_double(n - 1);
    }
}

proof fn lemma_pixel_bound(buffer: Seq<u8>, x: int, n: int)
    requires
        0 <= n <= 8,
    ensures
        0 <= pixel_from_planes(buffer, x, n) < p2(n),
    decreases n,
{
    if n > 0 {
        lemma_pixel_bound(buffer, x, n - 1);
        lemma_p2_double(n - 1);
        let b = (buffer[n - 1] as int / p2(7 - x)) % 2;
        assert(b == 0 || b == 1);
        assert(b * p2(n - 1) <= p2(n - 1)) by (nonlinear_arith)
            requires
                b == 0 || b == 1,
                p2(n - 1) > 0,
        ;
    }
}

impl CacheLine {
    pub fn new() -> (r: Self)
        ensures
            r.data@ == seq![0u8, 0u8, 0u8, 0u8, 0u8, 0u8, 0u8, 0u8],
            r.bitp == 0,
            r.tile_x == 0,
            r.y == 0,
    {
        let r = Self { data: [0; 8], bitp: 0, tile_x: 0, y: 0 };
        assert(r.data@ =~= seq![0u8, 0u8, 0u8, 0u8, 0u8, 0u8, 0u8, 0u8]);
        r
    }

    fn init(&mut self, x: u8, y: u8)
        ensures
            final(self).data@ == seq![0u8, 0u8, 0u8, 0u8, 0u8, 0u8, 0u8, 0u8],
            final(self).bitp == 0,
            final(self).tile_x == x,
            final(self).y == y,
    {
        self.data = [0; 8];
        self.bitp = 0;
        self.tile_x = x;
        self.y = y;
        assert(self.data@ =~= seq![0u8, 0u8, 0u8, 0u8, 0u8, 0u8, 0u8, 0u8]);
    }

    /// Write a pixel and mark it pending.
    fn write_pix(&mut self, x: u8, data: u8)
        requires
            x < 8,
        ensures
            final(self).data@ == old(self).data@.update(x as int, data),
            final(self).bitp == old(self).bitp | (1u8 << x),
            final(self).tile_x == old(self).tile_x,
            final(self).y == old(self).y,
    {
        self.data[x as usize] = data;
        self.bitp = self.bitp | (1u8 << x);
    }

    /// Pack the pixels into bitplanes: pair `p` of the buffer gets
    /// bitplanes 2p and 2p+1. Clears the pending flags.
    fn flush(&mut self, buffer: &mut [[u8; 2]])
        requires
            old(buffer)@.len() <= 4,
        ensures
            final(buffer)@.len() == old(buffer)@.len(),
            forall|p: int, o: int|
                0 <= p < final(buffer)@.len() && 0 <= o < 2 ==> #[trigger] final(buffer)@[p]@[o]
                    == plane_byte(old(self).data@, 2 * p + o, 8),
            *final(self) == (CacheLine { bitp: 0, ..*old(self) }),
    {
        let n = buffer.len();
        let mut p: usize = 0;
        while p < n
            invariant
                n == buffer@.len(),
                n <= 4,
                0 <= p <= n,
                forall|q: int, o: int|
                    0 <= q < p && 0 <= o < 2 ==> #[trigger] buffer@[q]@[o] == plane_byte(self.data@, 2 * q + o, 8),
            decreases n - p,
        {
            let mut pair = buffer[p];
            let mut o: usize = 0;
            while o < 2
                invariant
                    0 <= o <= 2,
                    p < 4,
                    forall|oo: int| 0 <= oo < o ==> #[trigger] pair@[oo] == plane_byte(self.data@, 2 * p + oo, 8),
                decreases 2 - o,
            {
                let plane = (p * 2 + o) as u8;
                let mut acc: u8 = 0;
                let mut i: usize = 0;
                while i < 8
                    invariant
                        0 <= i <= 8,
                        plane < 8,
                        acc == plane_byte(self.data@, plane as int, i as int),
                    decreases 8 - i,
                {
                    proof {
                        lemma_plane_byte_bound(self.data@, plane as int, i as int);
                        lemma_plane_byte_bound(self.data@, plane as int, i + 1);
                    }
                    let bit = bit_of(self.data[i], plane);
                    acc = acc * 2 + bit;
                    i = i + 1;
                }
                pair[o] = acc;
                o = o + 1;
            }
            buffer[p] = pair;
            p = p + 1;
        }
        self.bitp = 0;
    }

    fn is_dirty(&self) -> (r: bool)
        ensures
            r == (self.bitp != 0),
    {
        self.bitp != 0
    }
}

pub struct PixelCacheView {
    pub primary: CacheLine,
    pub secondary: CacheLine,
    pub screen_base: u32,
    pub screen_mode: u8,
    pub colr: u8,
    pub por: u8,
    pub bpp: BPP,
    pub height: ScreenHeight,
}

pub struct PixelCache {
    primary: CacheLine,
    secondary: CacheLine,
    screen_base: u32,
    screen_mode: u8,
    colr: u8,
    por: u8,
    bpp: BPP,
    height: ScreenHeight,
}

impl View for PixelCache {
    type V = PixelCacheView;

    closed spec fn view(&self) -> PixelCacheView {
        PixelCacheView {
            primary: self.primary,
            secondary: self.secondary,
            screen_base: self.screen_base,
            screen_mode: self.screen_mode,
            colr: self.colr,
            por: self.por,
            bpp: self.bpp,
            height: self.height,
        }
    }
}

/// Bytes per tile row set for a depth.
pub open spec fn tile_bytes(bpp: BPP) -> int {
    match bpp {
        BPP::_2 => 0x10,
        BPP::_4 => 0x20,
        BPP::_8 => 0x40,
    }
}

impl PixelCacheView {
    /// The screen base is one of the 256 1kB steps from $70:0000, and the
    /// cached rows lie on the 32 tile columns.
    pub open spec fn wf(self) -> bool {
        &&& self.screen_base <= 0x70_0000 + 0x400 * 255
        &&& self.primary.tile_x < 32
        &&& self.secondary.tile_x < 32
    }

    /// Tile number of the tile holding pixel (x, y) in the current layout:
    /// column-major with 16, 20 or 24 rows, or the 16x16 sprite layout.
    pub open spec fn tile_num(self, x: u8, y: u8) -> int {
        let tile_x = x / 8;
        let tile_y = y / 8;
        match self.height {
            ScreenHeight::_128 => tile_x * 0x10 + tile_y,
            ScreenHeight::_160 => tile_x * 0x14 + tile_y,
            ScreenHeight::_192 => tile_x * 0x18 + tile_y,
            ScreenHeight::Obj => (tile_x % 16) + (tile_y % 16) * 16 + (tile_x / 16) * 0x100 + (tile_y / 16) * 0x200,
        }
    }

    /// RAM address of the row of pixel (x, y).
    pub open spec fn tile_addr(self, x: u8, y: u8) -> int {
        self.screen_base + self.tile_num(x, y) * tile_bytes(self.bpp) + (y % 8) * 2
    }

    /// The colour a PLOT at (x, y) writes: with dithering, the high or low
    /// nybble of COLR by the parity of x+y; masked to the depth.
    pub open spec fn plot_colour(self, x: u8, y: u8) -> u8 {
        let c: int = if bit8(self.por, 1) {
            if (x + y) % 2 == 1 { self.colr as int / 16 } else { self.colr as int % 16 }
        } else {
            self.colr as int
        };
        (match self.bpp {
            BPP::_2 => c % 4,
            BPP::_4 => c % 16,
            BPP::_8 => c,
        }) as u8
    }

    /// Whether a colour is plotted: always when transparency is allowed,
    /// else only non-zero colours (looking at the low nybble when the high
    /// nybble is frozen).
    pub open spec fn plots(self, col: u8) -> bool {
        bit8(self.por, 0) || (if bit8(self.por, 3) { col % 16 != 0 } else { col != 0 })
    }
}

/// The pixel cache after COLR is written.
pub open spec fn colr_written(v: PixelCacheView, data: u8) -> PixelCacheView {
    let to_write: int = if bit8(v.por, 2) {
        (data as int / 16) * 17
    } else {
        data as int
    };
    PixelCacheView {
        colr: (if bit8(v.por, 3) {
            (v.colr as int / 16) * 16 + to_write % 16
        } else {
            to_write
        }) as u8,
        ..v
    }
}

/// The pixel cache after POR is written.
pub open spec fn por_written(v: PixelCacheView, data: u8) -> PixelCacheView {
    PixelCacheView {
        por: data & 0x1F,
        height: if bit8(data, 4) { ScreenHeight::Obj } else { height_of(v.screen_mode) },
        ..v
    }
}

impl PixelCache {
    pub fn new() -> (r: Self)
        ensures
            r@.wf(),
            r@.screen_base == 0,
            r@.screen_mode == 0,
            r@.colr == 0,
            r@.por == 0,
            r@.bpp == BPP::_2,
            r@.height == ScreenHeight::_128,
            r@.primary.data@ == seq![0u8, 0u8, 0u8, 0u8, 0u8, 0u8, 0u8, 0u8],
            r@.primary.bitp == 0,
            r@.primary.tile_x == 0,
            r@.primary.y == 0,
            r@.secondary.data@ == seq![0u8, 0u8, 0u8, 0u8, 0u8, 0u8, 0u8, 0u8],
            r@.secondary.bitp == 0,
            r@.secondary.tile_x == 0,
            r@.secondary.y == 0,
    {
        Self {
            primary: CacheLine::new(),
            secondary: CacheLine::new(),
            screen_base: 0,
            screen_mode: 0,
            colr: 0,
            por: 0,
            bpp: BPP::_2,
            height: ScreenHeight::_128,
        }
    }

    /// SCBR: the screen base is $70:0000 plus 1kB steps.
    pub fn set_screen_base(&mut self, data: u8)
        requires
            old(self)@.wf(),
        ensures
            final(self)@.wf(),
            final(self)@ == (PixelCacheView { screen_base: (0x70_0000 + 0x400 * data) as u32, ..old(self)@ }),
    {
        self.screen_base = 0x70_0000 + (0x400 * (data as u32));
    }

    /// SCMR: depth and height; returns true if the GSU owns the ROM bus.
    pub fn set_screen_mode(&mut self, data: u8) -> (r: bool)
        requires
            old(self)@.wf(),
        ensures
            final(self)@.wf(),
            final(self)@ == (PixelCacheView {
                screen_mode: data & 0x3F,
                bpp: bpp_of(data & 0x3F),
                height: if bit8(old(self)@.por, 4) { ScreenHeight::Obj } else { height_of(data & 0x3F) },
                ..old(self)@
            }),
            r == bit8(data, 4),
    {
        self.screen_mode = data & 0x3F;
        self.bpp = bpp_from(self.screen_mode);
        proof {
            lemma_u8_bits(self.por);
            lemma_u8_bits(data);
            let m = data & 0x3F;
            assert((m & 0x10 != 0) == (data & 0x10 != 0)) by (bit_vector)
                requires
                    m == data & 0x3F,
            ;
            lemma_u8_bits(m);
        }
        self.height = if self.por & PO_OBJ_MODE != 0 {
            ScreenHeight::Obj
        } else {
            height_from(self.screen_mode)
        };
        self.screen_mode & SM_RON != 0
    }

    /// COLR: with the high nybble option the high nybble is copied into
    /// both; with the freeze option only the low nybble changes.
    pub fn set_colr(&mut self, data: u8)
        ensures
            ({
                let to_write: int = if bit8(old(self)@.por, 2) {
                    (data as int / 16) * 17
                } else {
                    data as int
                };
                final(self)@ == (PixelCacheView {
                    colr: (if bit8(old(self)@.por, 3) {
                        (old(self)@.colr as int / 16) * 16 + to_write % 16
                    } else {
                        to_write
                    }) as u8,
                    ..old(self)@
                })
            }),
            final(self)@ == colr_written(old(self)@, data),
    {
        proof {
            lemma_u8_bits(self.por);
            lemma_u8_low_masks(data);
            lemma_u8_low_masks(self.colr);
        }
        let to_write = if self.por & PO_HI_NYBBLE != 0 {
            let hi = data >> 4;
            hi * 16 + hi
        } else {
            data
        };
        proof {
            lemma_u8_low_masks(to_write);
        }
        self.colr = if self.por & PO_FREEZE_HI != 0 {
            (self.colr & 0xF0) + (to_write & 0xF)
        } else {
            to_write
        };
    }

    /// POR: plot options; the sprite option forces the sprite layout.
    pub fn set_por(&mut self, data: u8)
        ensures
            final(self)@ == por_written(old(self)@, data),
    {
        self.por = data & 0x1F;
        proof {
            lemma_u8_bits(data);
            let p = data & 0x1F;
            assert((p & 0x10 != 0) == (data & 0x10 != 0)) by (bit_vector)
                requires
                    p == data & 0x1F,
            ;
        }
        self.height = if self.por & PO_OBJ_MODE != 0 {
            ScreenHeight::Obj
        } else {
            height_from(self.screen_mode)
        };
    }

    /// Plot the pixel if the primary row holds it. If false is returned,
    /// the pixel could not be written.
    pub fn try_plot(&mut self, x: u8, y: u8) -> (r: bool)
        requires
            old(self)@.wf(),
        ensures
            final(self)@.wf(),
            r == (old(self)@.primary.y == y && old(self)@.primary.tile_x == x / 8),
            !r ==> final(self)@ == old(self)@,
            r ==> final(self)@ == if old(self)@.plots(old(self)@.plot_colour(x % 8, y)) {
                PixelCacheView {
                    primary: CacheLine {
                        data: final(self)@.primary.data,
                        bitp: old(self)@.primary.bitp | (1u8 << (x % 8)),
                        ..old(self)@.primary
                    },
                    ..old(self)@
                }
            } else {
                old(self)@
            },
            r && old(self)@.plots(old(self)@.plot_colour(x % 8, y)) ==> final(self)@.primary.data@
                == old(self)@.primary.data@.update((x % 8) as int, old(self)@.plot_colour(x % 8, y)),
    {
        let tile_x = x / 8;
        if self.primary.y == y && self.primary.tile_x == tile_x {
            self.do_plot(x % 8, y);
            true
        } else {
            false
        }
    }

    /// Address of the tile row for pixel (x, y).
    pub fn calc_tile_addr(&mut self, x: u8, y: u8) -> (r: u32)
        requires
            old(self)@.wf(),
        ensures
            r == old(self)@.tile_addr(x, y),
            final(self)@ == old(self)@,
    {
        let tile_x = (x / 8) as u32;
        let tile_y = (y / 8) as u32;
        let tile_num = match self.height {
            ScreenHeight::_128 => (tile_x * 0x10) + tile_y,
            ScreenHeight::_160 => (tile_x * 0x14) + tile_y,
            ScreenHeight::_192 => (tile_x * 0x18) + tile_y,
            ScreenHeight::Obj => {
                let hi_x = (tile_x / 0x10) * 0x100;
                let hi_y = (tile_y / 0x10) * 0x200;
                let lo_x = tile_x % 0x10;
                let lo_y = (tile_y % 0x10) * 0x10;
                lo_x + lo_y + hi_x + hi_y
            },
        };
        let y_idx = ((y % 8) * 2) as u32;
        self.screen_base + match self.bpp {
            BPP::_2 => tile_num * 0x10,
            BPP::_4 => tile_num * 0x20,
            BPP::_8 => tile_num * 0x40,
        } + y_idx
    }
}

// Flushing
impl PixelCache {
    /// While this is true, keep calling flush.
    pub fn needs_flush(&self) -> (r: bool)
        ensures
            r == (self@.secondary.bitp != 0),
    {
        self.secondary.is_dirty()
    }

    /// Pack the secondary row into the buffer; returns the address to
    /// write it to (0 if there was nothing to flush).
    pub fn flush(&mut self, buffer: &mut [[u8; 2]]) -> (r: u32)
        requires
            old(self)@.wf(),
            old(buffer)@.len() <= 4,
        ensures
            final(self)@.wf(),
            final(buffer)@.len() == old(buffer)@.len(),
            old(self)@.secondary.bitp == 0 ==> r == 0 && final(self)@ == old(self)@ && final(buffer)@
                == old(buffer)@,
            old(self)@.secondary.bitp != 0 ==> {
                &&& r == old(self)@.tile_addr((old(self)@.secondary.tile_x * 8) as u8, old(self)@.secondary.y)
                &&& final(self)@ == (PixelCacheView {
                    secondary: CacheLine { bitp: 0, ..old(self)@.secondary },
                    ..old(self)@
                })
                &&& forall|p: int, o: int|
                    0 <= p < final(buffer)@.len() && 0 <= o < 2 ==> #[trigger] final(buffer)@[p]@[o]
                        == plane_byte(old(self)@.secondary.data@, 2 * p + o, 8)
            },
    {
        if self.secondary.is_dirty() {
            self.secondary.flush(buffer);
            self.calc_tile_addr(self.secondary.tile_x * 8, self.secondary.y)
        } else {
            0
        }
    }

    /// Number of pairs of bitplanes needed to flush a row.
    pub fn flush_bitplane_pairs(&self) -> (r: usize)
        ensures
            r == tile_bytes(self@.bpp) / 16,
    {
        match self.bpp {
            BPP::_2 => 1,
            BPP::_4 => 2,
            BPP::_8 => 4,
        }
    }

    pub fn bpp(&self) -> (r: u32)
        ensures
            r == tile_bytes(self@.bpp) / 8,
    {
        match self.bpp {
            BPP::_2 => 2,
            BPP::_4 => 4,
            BPP::_8 => 8,
        }
    }
}

// RPIX
impl PixelCache {
    /// Move the primary row to the secondary one and fill the primary row
    /// from bitplane bytes (byte i holds bitplane i).
    pub fn fill(&mut self, x: u8, y: u8, buffer: &[u8])
        requires
            old(self)@.wf(),
            buffer@.len() <= 8,
        ensures
            final(self)@.wf(),
            final(self)@.secondary == (CacheLine { bitp: old(self)@.primary.bitp, ..old(self)@.primary }),
            final(self)@.primary.tile_x == x / 8,
            final(self)@.primary.y == y,
            final(self)@.primary.bitp == 0,
            forall|i: int| 0 <= i < 8 ==> #[trigger] final(self)@.primary.data@[i] == pixel_from_planes(buffer@, i, buffer@.len() as int),
            final(self)@.screen_base == old(self)@.screen_base,
            final(self)@.screen_mode == old(self)@.screen_mode,
            final(self)@.colr == old(self)@.colr,
            final(self)@.por == old(self)@.por,
            final(self)@.bpp == old(self)@.bpp,
            final(self)@.height == old(self)@.height,
    {
        self.transfer_to_secondary();
        let mut line = CacheLine::new();
        line.tile_x = x / 8;
        line.y = y;
        let n = buffer.len();
        let mut px: usize = 0;
        while px < 8
            invariant
                0 <= px <= 8,
                n == buffer@.len(),
                n <= 8,
                line.tile_x == x / 8,
                line.y == y,
                line.bitp == 0,
                forall|i: int| 0 <= i < px ==> #[trigger] line.data@[i] == pixel_from_planes(buffer@, i, n as int),
            decreases 8 - px,
        {
            let mut acc: u32 = 0;
            let mut i: usize = 0;
            let mut weight: u32 = 1;
            while i < n
                invariant
                    0 <= i <= n,
                    n <= 8,
                    px < 8,
                    n == buffer@.len(),
                    weight == p2(i as int),
                    acc == pixel_from_planes(buffer@, px as int, i as int),
                decreases n - i,
            {
                proof {
                    lemma_pixel_bound(buffer@, px as int, i as int);
                    lemma_pixel_bound(buffer@, px as int, i + 1);
                    lemma_p2_double(i as int);
                }
                let bit = bit_of(buffer[i], (7 - px) as u8);
                acc = acc + (bit as u32) * weight;
                weight = weight * 2;
                i = i + 1;
            }
            proof {
                lemma_pixel_bound(buffer@, px as int, n as int);
            }
            line.data[px] = acc as u8;
            px = px + 1;
        }
        self.primary = line;
    }

    /// Read a pixel from the primary row.
    pub fn read_pixel(&self, x: u8) -> (r: u8)
        requires
            x < 8,
        ensures
            r == self@.primary.data@[x as int],
    {
        self.primary.data[x as usize]
    }
}

// internal
impl PixelCache {
    fn transfer_to_secondary(&mut self)
        ensures
            final(self)@ == (PixelCacheView {
                secondary: (CacheLine { bitp: old(self)@.primary.bitp, ..old(self)@.primary }),
                primary: CacheLine { bitp: 0, ..old(self)@.primary },
                ..old(self)@
            }),
    {
        self.secondary = self.primary;
        self.primary.bitp = 0;
    }

    fn do_plot(&mut self, x: u8, y: u8)
        requires
            x < 8,
        ensures
            final(self)@ == if old(self)@.plots(old(self)@.plot_colour(x, y)) {
                PixelCacheView {
                    primary: CacheLine {
                        data: final(self)@.primary.data,
                        bitp: old(self)@.primary.bitp | (1u8 << x),
                        ..old(self)@.primary
                    },
                    ..old(self)@
                }
            } else {
                old(self)@
            },
            old(self)@.plots(old(self)@.plot_colour(x, y)) ==> final(self)@.primary.data@
                == old(self)@.primary.data@.update(x as int, old(self)@.plot_colour(x, y)),
    {
        proof {
            lemma_u8_bits(self.por);
            lemma_u8_low_masks(self.colr);
            lemma_u8_bits(x ^ y);
            assert(((x ^ y) & 1 != 0) == ((x + y) % 2 == 1)) by (bit_vector);
        }
        let colour = if self.por & PO_DITHER != 0 {
            if (x ^ y) & 1 != 0 {
                self.colr >> 4
            } else {
                self.colr & 0xF
            }
        } else {
            self.colr
        };
        proof {
            lemma_u8_low_masks(colour);
        }
        let masked_colour = match self.bpp {
            BPP::_2 => colour & 0x3,
            BPP::_4 => colour & 0xF,
            BPP::_8 => colour,
        };
        if self.should_plot(masked_colour) {
            self.primary.write_pix(x, masked_colour);
        }
    }

    fn should_plot(&self, col: u8) -> (r: bool)
        ensures
            r == self@.plots(col),
    {
        proof {
            lemma_u8_bits(self.por);
            lemma_u8_low_masks(col);
        }
        let mask: u8 = if self.por & PO_FREEZE_HI != 0 {
            0xF
        } else {
            0xFF
        };
        self.por & PO_TRANSPARENT != 0 || (col & mask) != 0
    }
}

} // verus!
