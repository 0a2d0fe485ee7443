//! The cached image of a single background.
use vstd::prelude::*;
use crate::video::ram::bgregs::{BGReg, MapMirror};
use crate::video::ram::VideoMem;
use crate::video::ram::vram::VRAMView;
use super::patternmem::{PatternMem, PatternMemView, texel_index};

verus! {

/// Sub-map size, in tiles on a side.
pub const SUB_MAP_LEN: usize = 32;
pub const SMALL_TILE: usize = 8;
pub const LARGE_TILE: usize = 16;

/// The attribute byte of a tile map entry.
#[derive(Clone, Copy, PartialEq, Eq, Structural)]
pub struct TileAttributes {
    pub bits: u8,
}

pub const TILE_Y_FLIP: u8 = 0x80;
pub const TILE_X_FLIP: u8 = 0x40;
pub const TILE_PRIORITY: u8 = 0x20;
pub const TILE_PALETTE: u8 = 0x1C;
pub const TILE_NUM: u8 = 0x03;

/// A pixel of the background: its colour index and its tile's attributes.
#[derive(Clone, Copy, PartialEq, Eq, Structural)]
pub struct BGData {
    pub texel: u8,
    pub attrs: TileAttributes,
}

impl BGData {
    pub fn new() -> (r: Self)
        ensures
            r == (BGData { texel: 0, attrs: TileAttributes { bits: 0 } }),
    {
        BGData { texel: 0, attrs: TileAttributes { bits: 0 } }
    }
}

/// The abstract state of a background cache.
pub struct BGCacheView {
    /// Pixels row by row, `size_x` to a row.
    pub data: Seq<BGData>,
    pub size_x: nat,
    pub size_y: nat,
    /// The mask that wraps a column into the map: `size_x - 1`.
    pub mask_x: nat,
    pub bg_reg: BGReg,
    pub large_tiles: bool,
    pub start_addr: u16,
}

impl BGCacheView {
    /// The data holds `size_y` rows of `size_x` pixels; the column mask is
    /// one less than the width.
    pub open spec fn wf(self) -> bool {
        &&& self.mask_x + 1 == self.size_x
        &&& self.data.len() == self.size_x * self.size_y
    }
}

/// The width (or height) in pixels of a background map: one or two
/// sub-maps of 32 tiles.
pub open spec fn bg_size(mirror: bool, large_tiles: bool) -> nat {
    (if mirror { 64nat } else { 32nat }) * (if large_tiles { 16nat } else { 8nat })
}

/// An empty cache for a background with settings `bg_reg`.
pub open spec fn fresh_cache(bg_reg: BGReg, large_tiles: bool) -> BGCacheView {
    let sx = bg_size(bg_reg.bits % 2 == 1, large_tiles);
    let sy = bg_size((bg_reg.bits / 2) % 2 == 1, large_tiles);
    BGCacheView {
        data: Seq::new(sx * sy, |i: int| BGData { texel: 0, attrs: TileAttributes { bits: 0 } }),
        size_x: sx,
        size_y: sy,
        mask_x: (sx - 1) as nat,
        bg_reg: bg_reg,
        large_tiles: large_tiles,
        start_addr: (((bg_reg.bits & 0xFC) as u16) << 9u16),
    }
}

/// Size in bytes of a sub-map in VRAM: 32 by 32 entries of two bytes.
pub const SUB_MAP_SIZE: usize = 0x800;

/// Pixel (`x`, `y`) of a map entry with bytes `lo` and `attr`, for tiles
/// `ts` pixels on a side: large tiles are four 8x8 tiles, the next one to
/// the right and the one 16 further on below; flips mirror the whole tile.
pub open spec fn entry_pixel(tiles: PatternMemView, lo: u8, attr: u8, ts: int, x: int, y: int) -> BGData {
    let tile_num = (attr % 4) * 256 + lo;
    let tx = if attr & TILE_X_FLIP != 0 { ts - 1 - x } else { x };
    let ty = if attr & TILE_Y_FLIP != 0 { ts - 1 - y } else { y };
    let idx = tile_num + (if tx >= 8 { 1int } else { 0 }) + (if ty >= 8 { 16int } else { 0 });
    BGData {
        texel: tiles.tiles[idx % (tiles.tiles.len() as int)][texel_index(tx % 8, ty % 8)],
        attrs: TileAttributes { bits: attr },
    }
}

/// The number of a sub-map's entries that lie in VRAM when it starts at
/// byte `start`.
pub open spec fn entries_in_vram(start: int) -> int {
    if start >= 0x10000 {
        0
    } else if (0x10000 - start) / 2 < 1024 {
        (0x10000 - start) / 2
    } else {
        1024
    }
}

/// Pixel (`px`, `py`) of the cache after the sub-map at `so` bytes past
/// the map start is decoded into the tiles from (`xo`, `yo`) on: pixels of
/// its entries that lie in VRAM are decoded, the others stay `old`.
pub open spec fn submap_pixel(
    c: BGCacheView,
    tiles: PatternMemView,
    vram: Seq<u8>,
    so: int,
    xo: int,
    yo: int,
    px: int,
    py: int,
    old: BGData,
) -> BGData {
    let ts: int = if c.large_tiles { 16 } else { 8 };
    let start = c.start_addr + so;
    let mx = px / ts - xo;
    let my = py / ts - yo;
    if 0 <= mx < 32 && 0 <= my < 32 && my * 32 + mx < entries_in_vram(start) {
        let a = start + 2 * (my * 32 + mx);
        entry_pixel(tiles, vram[a], vram[a + 1], ts, px % ts, py % ts)
    } else {
        old
    }
}

/// The cache's data after decoding that sub-map.
pub open spec fn submap_data(c: BGCacheView, tiles: PatternMemView, vram: Seq<u8>, so: int, xo: int, yo: int) -> Seq<BGData> {
    Seq::new(
        c.data.len(),
        |q: int| submap_pixel(c, tiles, vram, so, xo, yo, q % (c.size_x as int), q / (c.size_x as int), c.data[q]),
    )
}

/// The cache view after decoding the sub-map at `so` into tiles from
/// (`xo`, `yo`) on, when `redo` holds.
pub open spec fn submap_step(c: BGCacheView, tiles: PatternMemView, vram: Seq<u8>, redo: bool, so: int, xo: int, yo: int) -> BGCacheView {
    if redo {
        BGCacheView { data: submap_data(c, tiles, vram, so, xo, yo), ..c }
    } else {
        c
    }
}

/// The cache's data after `construct`: sub-map A, then B, C and D as the
/// mirroring uses them (B to the right, or below when only the height is
/// mirrored), each decoded when the tiles changed or its VRAM is dirty.
pub open spec fn construct_data(c: BGCacheView, tiles: PatternMemView, vram: VRAMView, changed: bool) -> Seq<BGData> {
    let s = c.start_addr as int;
    let dirty = |k: int| changed || vram.region_dirty((s + k * SUB_MAP_SIZE) as u16);
    let a = submap_step(c, tiles, vram.data, dirty(0), 0, 0, 0);
    let m = c.bg_reg.bits % 4;
    if m == 0 {
        a.data
    } else if m == 1 {
        submap_step(a, tiles, vram.data, dirty(1), SUB_MAP_SIZE as int, 32, 0).data
    } else if m == 2 {
        submap_step(a, tiles, vram.data, dirty(1), SUB_MAP_SIZE as int, 0, 32).data
    } else {
        let b = submap_step(a, tiles, vram.data, dirty(1), SUB_MAP_SIZE as int, 32, 0);
        let cc = submap_step(b, tiles, vram.data, dirty(2), 2 * SUB_MAP_SIZE as int, 0, 32);
        submap_step(cc, tiles, vram.data, dirty(3), 3 * SUB_MAP_SIZE as int, 32, 32).data
    }
}

pub struct BGCache {
    data: Vec<BGData>,
    bg_reg: BGReg,
    large_tiles: bool,
    start_addr: u16,
    size_x: usize,
    mask_x: usize,
    mask_y: usize,
}

impl View for BGCache {
    type V = BGCacheView;

    closed spec fn view(&self) -> BGCacheView {
        BGCacheView {
            data: self.data@,
            size_x: self.size_x as nat,
            size_y: (self.mask_y + 1) as nat,
            mask_x: self.mask_x as nat,
            bg_reg: self.bg_reg,
            large_tiles: self.large_tiles,
            start_addr: self.start_addr,
        }
    }
}

impl BGCache {
    pub open spec fn wf(&self) -> bool {
        self@.wf()
    }

    /// An empty cache for a background with settings `bg_reg`.
    pub fn new(bg_reg: BGReg, large_tiles: bool) -> (r: Self)
        ensures
            r.wf(),
            r@.size_x == bg_size(bg_reg.bits % 2 == 1, large_tiles),
            r@.size_y == bg_size((bg_reg.bits / 2) % 2 == 1, large_tiles),
            r@.data == Seq::new(r@.size_x * r@.size_y, |i: int| BGData { texel: 0, attrs: TileAttributes { bits: 0 } }),
            r@.mask_x == r@.size_x - 1,
            r@.bg_reg == bg_reg,
            r@.large_tiles == large_tiles,
            r@.start_addr == (((bg_reg.bits & 0xFC) as u16) << 9u16),
            r@ == fresh_cache(bg_reg, large_tiles),
    {
        proof {
            crate::bits::lemma_u8_low_masks(bg_reg.bits);
        }
        let tile_size = if large_tiles { LARGE_TILE } else { SMALL_TILE };
        let size_x = (if bg_reg.bits & 0x01 != 0 { SUB_MAP_LEN * 2 } else { SUB_MAP_LEN }) * tile_size;
        let size_y = (if bg_reg.bits & 0x02 != 0 { SUB_MAP_LEN * 2 } else { SUB_MAP_LEN }) * tile_size;
        let b = bg_reg.bits;
        assert((b & 0x02 != 0) == ((b / 2) % 2 == 1)) by (bit_vector);
        assert(size_x <= 1024 && size_y <= 1024);
        assert(size_x * size_y <= 1024 * 1024) by (nonlinear_arith)
            requires
                size_x <= 1024,
                size_y <= 1024,
        ;
        let total = size_x * size_y;
        let mut data: Vec<BGData> = Vec::new();
        let mut i: usize = 0;
        while i < total
            invariant
                i <= total,
                data@ == Seq::new(i as nat, |j: int| BGData { texel: 0, attrs: TileAttributes { bits: 0 } }),
            decreases total - i,
        {
            data.push(BGData::new());
            i = i + 1;
            assert(data@ =~= Seq::new(i as nat, |j: int| BGData { texel: 0, attrs: TileAttributes { bits: 0 } }));
        }
        BGCache {
            data: data,
            bg_reg: bg_reg,
            large_tiles: large_tiles,
            start_addr: ((bg_reg.bits & BGREG_ADDR_BITS) as u16) << 9,
            size_x: size_x,
            mask_x: size_x - 1,
            mask_y: size_y - 1,
        }
    }

    /// Whether the settings are still valid for this background: true when
    /// they are those this cache was made for.
    pub fn check_if_valid(&self, settings: BGReg, large_tiles: bool) -> (r: bool)
        ensures
            r == (settings == self@.bg_reg && large_tiles == self@.large_tiles),
    {
        (settings.bits == self.bg_reg.bits) && (large_tiles == self.large_tiles)
    }

    pub fn mask_x(&self) -> (r: usize)
        requires
            self.wf(),
        ensures
            r == self@.mask_x,
            r == self@.size_x - 1,
    {
        self.mask_x
    }

    pub fn mask_y(&self) -> (r: usize)
        ensures
            r == self@.size_y - 1,
    {
        self.mask_y
    }

    pub fn get_data(&self, x: usize, y: usize) -> (r: BGData)
        requires
            self.wf(),
            x < self@.size_x,
            y < self@.size_y,
        ensures
            r == self@.data[y * self@.size_x + x],
    {
        proof {
            assert(y * self@.size_x + x < self@.size_x * self@.size_y) by (nonlinear_arith)
                requires
                    x < self@.size_x,
                    y < self@.size_y,
            ;
        }
        let len = self.data.len();
        assert(y * self.size_x + x < len);
        self.data[y * self.size_x + x]
    }
}

impl BGCache {
    /// Decode one pixel of a map entry.
    fn entry_pixel(tiles: &PatternMem, lo: u8, attr: u8, large: bool, x: usize, y: usize) -> (r: BGData)
        requires
            tiles@.wf(),
            x < (if large { 16usize } else { 8usize }),
            y < (if large { 16usize } else { 8usize }),
        ensures
            r == entry_pixel(tiles@, lo, attr, if large { 16 } else { 8 }, x as int, y as int),
    {
        let ts: usize = if large { LARGE_TILE } else { SMALL_TILE };
        let tile_num = (attr as usize % 4) * 256 + lo as usize;
        let tx = if attr & TILE_X_FLIP != 0 { ts - 1 - x } else { x };
        let ty = if attr & TILE_Y_FLIP != 0 { ts - 1 - y } else { y };
        let idx = tile_num + (if tx >= 8 { 1usize } else { 0 }) + (if ty >= 8 { 16usize } else { 0 });
        let tile = tiles.ref_tile(idx);
        assert(tile@.len() == 64);
        BGData { texel: tile.get_texel(tx % 8, ty % 8), attrs: TileAttributes { bits: attr } }
    }

    /// Decode the sub-map `start_offset` bytes past the map start into the
    /// tiles from (`x_offset`, `y_offset`) on.
    fn construct_submap(&mut self, tiles: &PatternMem, mem: &VideoMem, start_offset: usize, x_offset: usize, y_offset: usize)
        requires
            old(self).wf(),
            tiles@.wf(),
            mem@.vram.data.len() == 0x10000,
            start_offset <= 3 * SUB_MAP_SIZE,
            x_offset <= SUB_MAP_LEN,
            y_offset <= SUB_MAP_LEN,
        ensures
            final(self).wf(),
            final(self)@ == (BGCacheView {
                data: submap_data(old(self)@, tiles@, mem@.vram.data, start_offset as int, x_offset as int, y_offset as int),
                ..old(self)@
            }),
    {
        let ghost c = self@;
        let vram = mem.get_vram();
        let start = self.start_addr as usize + start_offset;
        let n: usize = if start >= 0x10000 {
            0
        } else if (0x10000 - start) / 2 < 1024 {
            (0x10000 - start) / 2
        } else {
            1024
        };
        let large = self.large_tiles;
        let ts: usize = if large { LARGE_TILE } else { SMALL_TILE };
        let sx = self.size_x;
        let len = self.data.len();
        let mut p: usize = 0;
        while p < len
            invariant
                self.wf(),
                self@ == (BGCacheView { data: self@.data, ..c }),
                c.data.len() == len,
                self.data@.len() == len,
                c.size_x == sx,
                sx > 0,
                p <= len,
                vram@ == mem@.vram.data,
                vram@.len() == 0x10000,
                tiles@.wf(),
                start == c.start_addr + start_offset,
                n == entries_in_vram(start as int),
                large == c.large_tiles,
                ts == (if large { 16usize } else { 8usize }),
                x_offset <= SUB_MAP_LEN,
                y_offset <= SUB_MAP_LEN,
                forall|q: int|
                    0 <= q < len ==> #[trigger] self@.data[q] == if q < p {
                        submap_pixel(c, tiles@, vram@, start_offset as int, x_offset as int, y_offset as int, q % (sx as int), q / (sx as int), c.data[q])
                    } else {
                        c.data[q]
                    },
            decreases len - p,
        {
            let px = p % sx;
            let py = p / sx;
            let mx = px / ts;
            let my = py / ts;
            if mx >= x_offset && mx - x_offset < 32 && my >= y_offset && my - y_offset < 32 {
                let i = (my - y_offset) * 32 + (mx - x_offset);
                if i < n {
                    let a = start + 2 * i;
                    let d = Self::entry_pixel(tiles, vram[a], vram[a + 1], large, px % ts, py % ts);
                    self.data.set(p, d);
                }
            }
            p = p + 1;
        }
        assert(self@.data =~= submap_data(c, tiles@, mem@.vram.data, start_offset as int, x_offset as int, y_offset as int));
    }

    /// Decode the map from VRAM into the cache: the first sub-map, and the
    /// others that the map's mirroring uses, each where its tiles changed
    /// or its part of VRAM was written.
    pub fn construct(&mut self, tiles: &PatternMem, mem: &VideoMem, tiles_changed: bool)
        requires
            old(self).wf(),
            tiles@.wf(),
            mem@.vram.data.len() == 0x10000,
            old(self)@.start_addr + (if old(self)@.bg_reg.bits % 4 == 0 {
                0int
            } else if old(self)@.bg_reg.bits % 4 == 3 {
                3 * SUB_MAP_SIZE as int
            } else {
                SUB_MAP_SIZE as int
            }) <= u16::MAX,
        ensures
            final(self).wf(),
            final(self)@ == (BGCacheView { data: final(self)@.data, ..old(self)@ }),
            final(self)@.data == construct_data(old(self)@, tiles@, mem@.vram, tiles_changed),
    {
        let start = self.start_addr;
        if tiles_changed || mem.vram_dirty_range(start) {
            self.construct_submap(tiles, mem, 0, 0, 0);
        }
        let step = SUB_MAP_SIZE as u16;
        match MapMirror::from_reg(self.bg_reg) {
            MapMirror::Neither => {},
            MapMirror::X => {
                if tiles_changed || mem.vram_dirty_range(start + step) {
                    self.construct_submap(tiles, mem, SUB_MAP_SIZE, SUB_MAP_LEN, 0);
                }
            },
            MapMirror::Y => {
                if tiles_changed || mem.vram_dirty_range(start + step) {
                    self.construct_submap(tiles, mem, SUB_MAP_SIZE, 0, SUB_MAP_LEN);
                }
            },
            MapMirror::Both => {
                if tiles_changed || mem.vram_dirty_range(start + step) {
                    self.construct_submap(tiles, mem, SUB_MAP_SIZE, SUB_MAP_LEN, 0);
                }
                if tiles_changed || mem.vram_dirty_range(start + 2 * step) {
                    self.construct_submap(tiles, mem, SUB_MAP_SIZE * 2, 0, SUB_MAP_LEN);
                }
                if tiles_changed || mem.vram_dirty_range(start + 3 * step) {
                    self.construct_submap(tiles, mem, SUB_MAP_SIZE * 3, SUB_MAP_LEN, SUB_MAP_LEN);
                }
            },
        }
    }
}

const BGREG_ADDR_BITS: u8 = 0xFC;

} // verus!
