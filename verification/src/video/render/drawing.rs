//! The software renderer's own state: the pattern memories that each video
//! mode needs, the background caches, the sprite pattern tables and
//! palettes; drawing sprites and backgrounds into a line, and choosing
//! between layers by priority.
use vstd::prelude::*;
use super::{VideoMode, Colour};
use super::patternmem::{BitsPerPixel, PatternMem, PatternMemView, empty_pattern, texel_index, tile_decoded, decoded_bit};
use super::palette::{PaletteMem, cgram_colour};
use super::bgcache::{BGCache, BGCacheView, BGData, TILE_PRIORITY, TILE_PALETTE};
use crate::video::ram::bgregs::{BGReg, Registers as BGRegisters, BGRegistersView, scroll_x_spec, scroll_y_spec};
use crate::video::ram::registers::{RegistersView, obj0_addr_spec, objn_addr_spec, char_addr_spec, pattern_height_spec};
use super::bgcache::{fresh_cache, construct_data, SUB_MAP_SIZE};
use super::patternmem::tile_bytes;
use crate::constants::H_RES;
use crate::video::ram::VideoMem;
use crate::video::ram::vram::VRAMView;
use crate::video::ram::oam::{Object, SpritePriority, ATTR_X_FLIP, ATTR_Y_FLIP};
use crate::video::ram::windowregs::{WindowRegisters, WindowRegistersView, show_spec, obj_window_spec, bg_window_spec};

verus! {

/// The abstract state of the renderer.
pub struct RendererView {
    pub mode: VideoMode,
    /// The pattern memories of the four backgrounds.
    pub bg_pattern: Seq<PatternMemView>,
    /// The decoded maps of the four backgrounds.
    pub bg_cache: Seq<BGCacheView>,
    /// The two sprite pattern tables.
    pub obj_pattern: Seq<PatternMemView>,
    /// Decoded colours: backgrounds, then sprites.
    pub palettes: Seq<Colour>,
}

pub struct Renderer {
    mode: VideoMode,
    bg_pattern_mem: [PatternMem; 4],
    bg_cache: [BGCache; 4],
    obj_pattern_mem: [PatternMem; 2],
    palettes: PaletteMem,
}

impl View for Renderer {
    type V = RendererView;

    closed spec fn view(&self) -> RendererView {
        RendererView {
            mode: self.mode,
            bg_pattern: self.bg_pattern_mem@.map_values(|p: PatternMem| p@),
            bg_cache: self.bg_cache@.map_values(|c: BGCache| c@),
            obj_pattern: self.obj_pattern_mem@.map_values(|p: PatternMem| p@),
            palettes: self.palettes@,
        }
    }
}

/// The depth that video mode `mode` gives background `bg`, for the
/// backgrounds whose pattern memory the mode sets up.
pub open spec fn mode_bpp(mode: VideoMode, bg: int) -> Option<BitsPerPixel> {
    match mode {
        VideoMode::_0 => if bg == 0 || bg == 1 { Some(BitsPerPixel::_2) } else { None },
        VideoMode::_1 | VideoMode::_2 => if bg == 0 || bg == 1 { Some(BitsPerPixel::_4) } else { None },
        VideoMode::_3 => if bg == 0 {
            Some(BitsPerPixel::_8)
        } else if bg == 1 {
            Some(BitsPerPixel::_4)
        } else {
            None
        },
        VideoMode::_4 => if bg == 0 {
            Some(BitsPerPixel::_8)
        } else if bg == 1 {
            Some(BitsPerPixel::_2)
        } else {
            None
        },
        VideoMode::_5 => if bg == 0 {
            Some(BitsPerPixel::_4)
        } else if bg == 1 {
            Some(BitsPerPixel::_2)
        } else {
            None
        },
        VideoMode::_6 => if bg == 0 { Some(BitsPerPixel::_4) } else { None },
        VideoMode::_7 => None,
    }
}

/// Background `bg`'s pattern memory after switching to `mode`: one of a
/// different depth is replaced by an empty one of the mode's depth, and in
/// mode 0 the first background's always is.
pub open spec fn switched_pattern(mode: VideoMode, bg: int, p: PatternMemView) -> PatternMemView {
    match mode_bpp(mode, bg) {
        Some(b) => if (mode == VideoMode::_0 && bg == 0) || p.bits_per_pixel != b {
            empty_pattern(b)
        } else {
            p
        },
        None => p,
    }
}

impl RendererView {
    /// Four background pattern memories, two 4-bit sprite tables, 256
    /// colours.
    pub open spec fn wf(self) -> bool {
        &&& self.bg_pattern.len() == 4
        &&& self.bg_cache.len() == 4
        &&& forall|i: int| 0 <= i < 4 ==> (#[trigger] self.bg_cache[i]).wf()
        &&& forall|i: int|
            0 <= i < 4 && #[trigger] self.bg_pattern[i].start_addr != u16::MAX ==> self.bg_pattern[i].wf()
        &&& forall|i: int, t: int|
            0 <= i < 4 && 0 <= t < self.bg_pattern[i].tiles.len() ==> (#[trigger] self.bg_pattern[i].tiles[t]).len() == 64
        &&& self.obj_pattern.len() == 2
        &&& self.palettes.len() == 256
        &&& forall|i: int| 0 <= i < 2 ==> (#[trigger] self.obj_pattern[i]).bits_per_pixel == BitsPerPixel::_4
        &&& forall|i: int, t: int|
            0 <= i < 2 && 0 <= t < self.obj_pattern[i].tiles.len() ==> sprite_tile_ok(
                #[trigger] self.obj_pattern[i].tiles[t],
            )
        &&& forall|i: int|
            0 <= i < 2 && #[trigger] self.obj_pattern[i].start_addr != u16::MAX ==> self.obj_pattern[i].wf()
                && self.obj_pattern[i].tiles.len() == 256
    }

    /// Both sprite pattern tables hold tiles.
    pub open spec fn obj_ready(self) -> bool {
        forall|i: int| 0 <= i < 2 ==> (#[trigger] self.obj_pattern[i]).tiles.len() > 0
    }
}

/// A sprite tile: 64 pixels of 4 bits.
pub open spec fn sprite_tile_ok(tile: Seq<u8>) -> bool {
    tile.len() == 64 && forall|j: int| 0 <= j < 64 ==> #[trigger] tile[j] < 16
}

// ----- Sprites -----

pub const SPRITES_PER_LINE: usize = 32;

/// A sprite's colour, and whether it takes part in colour math.
#[derive(Clone, Copy)]
pub struct SpriteColour {
    pub colour: Colour,
    pub col_math: bool,
}

/// What a line holds at one pixel for sprites: a sprite's colour at one of
/// four priorities, a pixel where sprites are masked out, or nothing.
#[derive(Clone, Copy)]
pub enum SpritePixel {
    Prio3(SpriteColour),
    Prio2(SpriteColour),
    Prio1(SpriteColour),
    Prio0(SpriteColour),
    Masked,
    Empty,
}

impl SpritePixel {
    pub fn is_masked(&self) -> (r: bool)
        ensures
            r == (*self is Masked),
    {
        match self {
            SpritePixel::Masked => true,
            _ => false,
        }
    }
}

/// Sprite width and height for the size bits (7-5) of the object
/// settings, small or large.
pub open spec fn obj_size(settings: u8, large: bool) -> (int, int) {
    let s = settings / 32;
    if !large {
        if s <= 2 {
            (8, 8)
        } else if s <= 4 {
            (16, 16)
        } else if s == 5 {
            (32, 32)
        } else {
            (16, 32)
        }
    } else {
        if s == 0 {
            (16, 16)
        } else if s == 1 || s == 3 || s == 7 {
            (32, 32)
        } else if s == 6 {
            (32, 64)
        } else {
            (64, 64)
        }
    }
}

/// Whether object `o` covers line `y`, its rows wrapping from the bottom of
/// the 256 lines to the top.
pub open spec fn on_line(o: Object, settings: u8, y: u8) -> bool {
    let h = obj_size(settings, o.large).1;
    let bottom = (o.y + h - 1) % 256;
    if bottom > o.y {
        o.y <= y <= bottom
    } else {
        y >= o.y || y <= bottom
    }
}

/// The objects among the first `n` that cover line `y`, in OAM order, at
/// most 32 of them.
pub open spec fn first_on_line(objs: Seq<Object>, settings: u8, y: u8, n: int) -> Seq<Object>
    decreases n,
{
    if n <= 0 {
        Seq::empty()
    } else {
        let prev = first_on_line(objs, settings, y, n - 1);
        if prev.len() < SPRITES_PER_LINE && on_line(objs[n - 1], settings, y) {
            prev.push(objs[n - 1])
        } else {
            prev
        }
    }
}

/// The line of a sprite that line `y` shows.
pub open spec fn sprite_row(o: Object, y: u8) -> int {
    if y >= o.y {
        y - o.y
    } else {
        y + 256 - o.y
    }
}

pub open spec fn prio_pixel(prio: int, c: SpriteColour) -> SpritePixel {
    if prio == 3 {
        SpritePixel::Prio3(c)
    } else if prio == 2 {
        SpritePixel::Prio2(c)
    } else if prio == 1 {
        SpritePixel::Prio1(c)
    } else {
        SpritePixel::Prio0(c)
    }
}

/// The pixel that object `o` puts at column `px` of line `y`: none outside
/// the sprite or where its texel is transparent. Flipped sprites read their
/// pattern mirrored; sprite palettes 4-7 take part in colour math.
pub open spec fn obj_pixel(r: RendererView, o: Object, settings: u8, y: u8, px: int) -> Option<SpritePixel> {
    let (w, h) = obj_size(settings, o.large);
    let xx = px - o.x;
    if xx < 0 || xx >= w {
        None
    } else {
        let sy = sprite_row(o, y);
        let y_pix = if o.attrs & ATTR_Y_FLIP != 0 { h - 1 - sy } else { sy };
        let x_pix = if o.attrs & ATTR_X_FLIP != 0 { w - 1 - xx } else { xx };
        let tile_num = ((o.tile_num + ((y_pix / 8) % 16) * 16) % 256) / 16 * 16 + (o.tile_num + x_pix / 8) % 16;
        let pat = r.obj_pattern[o.attrs as int % 2];
        let texel = pat.tiles[tile_num % (pat.tiles.len() as int)][texel_index(x_pix % 8, y_pix % 8)];
        if texel == 0 {
            None
        } else {
            let col = ((o.attrs / 2) % 8) * 16 + texel;
            Some(prio_pixel((o.attrs as int / 16) % 4, SpriteColour { colour: r.palettes[col + 128], col_math: col >= 64 }))
        }
    }
}

/// The pixel at column `px` of the first object from `k` on in `objs` that
/// puts one there.
pub open spec fn sprite_at(r: RendererView, objs: Seq<Object>, settings: u8, y: u8, px: int, k: int) -> Option<SpritePixel>
    decreases objs.len() - k,
{
    if k < 0 || k >= objs.len() {
        None
    } else {
        match obj_pixel(r, objs[k], settings, y, px) {
            Some(p) => Some(p),
            None => sprite_at(r, objs, settings, y, px, k + 1),
        }
    }
}

/// Sprite table `p` after setting it up for address `addr` of VRAM `vram`:
/// when the address changed or its region was written, 256 tiles decoded
/// from 8kB at `addr`; otherwise as it was.
pub open spec fn obj_table_setup(p: PatternMemView, q: PatternMemView, addr: u16, vram: Seq<u8>, dirty: bool) -> bool {
    if p.start_addr != addr || dirty {
        &&& q.bits_per_pixel == p.bits_per_pixel
        &&& q.start_addr == addr
        &&& q.end_addr == addr + 8191
        &&& q.tiles.len() == 256
        &&& forall|t: int| 0 <= t < 256 ==> tile_decoded(#[trigger] q.tiles[t], vram, addr as int, 4, t)
    } else {
        q == p
    }
}

/// A tile decoded at 4 bits per pixel holds pixels below 16.
proof fn lemma_decoded_sprite_tile(tile: Seq<u8>, data: Seq<u8>, start: int, t: int)
    requires
        tile_decoded(tile, data, start, 4, t),
    ensures
        sprite_tile_ok(tile),
{
    assert forall|j: int| 0 <= j < 64 implies #[trigger] tile[j] < 16 by {
        let x = j % 8;
        let y = j / 8;
        assert(texel_index(x, y) == j);
        let v = tile[j];
        assert((v >> (4int as u8)) & 1 == decoded_bit(data, start, 4, t, x, y, 4));
        assert((v >> (5int as u8)) & 1 == decoded_bit(data, start, 4, t, x, y, 5));
        assert((v >> (6int as u8)) & 1 == decoded_bit(data, start, 4, t, x, y, 6));
        assert((v >> (7int as u8)) & 1 == decoded_bit(data, start, 4, t, x, y, 7));
        assert(((v >> 4u8) & 1 == 0 && (v >> 5u8) & 1 == 0 && (v >> 6u8) & 1 == 0 && (v >> 7u8) & 1 == 0) ==> v < 16)
            by (bit_vector);
    }
}

proof fn lemma_sprite_at_unmasked(r: RendererView, objs: Seq<Object>, settings: u8, y: u8, px: int, k: int)
    ensures
        sprite_at(r, objs, settings, y, px, k) matches Some(p) ==> !(p is Masked),
    decreases objs.len() - k,
{
    if 0 <= k < objs.len() {
        lemma_sprite_at_unmasked(r, objs, settings, y, px, k + 1);
    }
}

/// Drawing object `k` over a line that holds the objects after it gives
/// the line of the objects from `k` on.
proof fn lemma_draw_step(r: RendererView, objs: Seq<Object>, settings: u8, y: u8, px: int, k: int, base: SpritePixel)
    requires
        0 <= k < objs.len(),
    ensures
        line_result(
            line_result(base, sprite_at(r, objs, settings, y, px, k + 1)),
            obj_pixel(r, objs[k], settings, y, px),
        ) == line_result(base, sprite_at(r, objs, settings, y, px, k)),
{
    lemma_sprite_at_unmasked(r, objs, settings, y, px, k + 1);
}

/// A masked pixel stays masked; another takes the sprite pixel if there is
/// one.
pub open spec fn line_result(base: SpritePixel, found: Option<SpritePixel>) -> SpritePixel {
    if base is Masked {
        SpritePixel::Masked
    } else {
        match found {
            Some(p) => p,
            None => base,
        }
    }
}

/// Whether sprites show at column `x` of the main (or sub) screen.
pub open spec fn obj_shown(w: WindowRegistersView, main: bool, x: u8) -> bool {
    if main {
        show_spec(w.main_screen_desg, w.main_mask_desg, 4, obj_window_spec(w, x))
    } else {
        show_spec(w.sub_screen_desg, w.sub_mask_desg, 4, obj_window_spec(w, x))
    }
}

/// What column `x` of line `y` holds after drawing sprites into it, when it
/// held `old`: masked where the window hides sprites, else the pixel of the
/// first of the line's sprites (in OAM order) that is opaque there, else
/// `old`.
pub open spec fn sprite_pixel_spec(
    r: RendererView,
    objs: Seq<Object>,
    settings: u8,
    w: WindowRegistersView,
    main: bool,
    old: SpritePixel,
    x: int,
    y: u8,
) -> SpritePixel {
    let base = if obj_shown(w, main, x as u8) { old } else { SpritePixel::Masked };
    let line = first_on_line(objs, settings, y, objs.len() as int);
    line_result(base, sprite_at(r, line, settings, y, x, 0))
}

impl Renderer {
    /// A renderer in mode 7 with empty pattern memories: 2 bits per pixel
    /// for backgrounds, 4 for sprites.
    pub fn new() -> (r: Self)
        ensures
            r@.wf(),
            r@.mode == VideoMode::_7,
            r@.bg_pattern == Seq::new(4, |i: int| empty_pattern(BitsPerPixel::_2)),
            r@.obj_pattern == Seq::new(2, |i: int| empty_pattern(BitsPerPixel::_4)),
            r@.palettes == Seq::new(256, |i: int| Colour { r: 0, g: 0, b: 0 }),
    {
        let r = Renderer {
            mode: VideoMode::_7,
            bg_pattern_mem: [
                PatternMem::new(BitsPerPixel::_2),
                PatternMem::new(BitsPerPixel::_2),
                PatternMem::new(BitsPerPixel::_2),
                PatternMem::new(BitsPerPixel::_2),
            ],
            bg_cache: [
                BGCache::new(BGReg { bits: 0 }, false),
                BGCache::new(BGReg { bits: 0 }, false),
                BGCache::new(BGReg { bits: 0 }, false),
                BGCache::new(BGReg { bits: 0 }, false),
            ],
            obj_pattern_mem: [PatternMem::new(BitsPerPixel::_4), PatternMem::new(BitsPerPixel::_4)],
            palettes: PaletteMem::new(),
        };
        assert(r@.bg_pattern =~= Seq::new(4, |i: int| empty_pattern(BitsPerPixel::_2)));
        assert(r@.obj_pattern =~= Seq::new(2, |i: int| empty_pattern(BitsPerPixel::_4)));
        r
    }

    /// Give background `bg` an empty pattern memory of depth `bpp` if it has
    /// another depth, or if `always`.
    fn set_bg_depth(&mut self, bg: usize, bpp: BitsPerPixel, always: bool)
        requires
            bg < 4,
        ensures
            final(self)@ == (RendererView {
                bg_pattern: old(self)@.bg_pattern.update(
                    bg as int,
                    if always || old(self)@.bg_pattern[bg as int].bits_per_pixel != bpp {
                        empty_pattern(bpp)
                    } else {
                        old(self)@.bg_pattern[bg as int]
                    },
                ),
                ..old(self)@
            }),
    {
        if always || self.bg_pattern_mem[bg].get_bits_per_pixel() != bpp {
            self.bg_pattern_mem[bg] = PatternMem::new(bpp);
        }
        assert(self@.bg_pattern =~= old(self)@.bg_pattern.update(
            bg as int,
            if always || old(self)@.bg_pattern[bg as int].bits_per_pixel != bpp {
                empty_pattern(bpp)
            } else {
                old(self)@.bg_pattern[bg as int]
            },
        ));
    }

    /// Switch video mode: set up the background pattern memories for it.
    pub fn switch_mode(&mut self, mode: VideoMode)
        requires
            old(self)@.wf(),
        ensures
            final(self)@.wf(),
            final(self)@ == (RendererView {
                mode: mode,
                bg_pattern: Seq::new(4, |i: int| switched_pattern(mode, i, old(self)@.bg_pattern[i])),
                ..old(self)@
            }),
            forall|i: int|
                0 <= i < 4 && #[trigger] mode_bpp(mode, i) is Some ==> final(self)@.bg_pattern[i].bits_per_pixel
                    == mode_bpp(mode, i).unwrap(),
    {
        self.mode = mode;
        match mode {
            VideoMode::_0 => {
                self.set_bg_depth(0, BitsPerPixel::_2, true);
                self.set_bg_depth(1, BitsPerPixel::_2, false);
            },
            VideoMode::_1 | VideoMode::_2 => {
                self.set_bg_depth(0, BitsPerPixel::_4, false);
                self.set_bg_depth(1, BitsPerPixel::_4, false);
            },
            VideoMode::_3 => {
                self.set_bg_depth(0, BitsPerPixel::_8, false);
                self.set_bg_depth(1, BitsPerPixel::_4, false);
            },
            VideoMode::_4 => {
                self.set_bg_depth(0, BitsPerPixel::_8, false);
                self.set_bg_depth(1, BitsPerPixel::_2, false);
            },
            VideoMode::_5 => {
                self.set_bg_depth(0, BitsPerPixel::_4, false);
                self.set_bg_depth(1, BitsPerPixel::_2, false);
            },
            VideoMode::_6 => {
                self.set_bg_depth(0, BitsPerPixel::_4, false);
            },
            VideoMode::_7 => {},
        }
        assert(self@.bg_pattern =~= Seq::new(4, |i: int| switched_pattern(mode, i, old(self)@.bg_pattern[i])));
    }

    /// The number of backgrounds the current mode draws.
    pub fn num_bgs(&self) -> (r: usize)
        ensures
            r == (if self@.mode == VideoMode::_0 {
                4usize
            } else if self@.mode == VideoMode::_1 {
                3usize
            } else {
                2usize
            }),
    {
        match self.mode {
            VideoMode::_0 => 4,
            VideoMode::_1 => 3,
            _ => 2,
        }
    }

    pub fn get_mode(&self) -> (r: VideoMode)
        ensures
            r == self@.mode,
    {
        self.mode
    }

    /// The depth of background `bg`'s pattern memory.
    pub fn bg_bits_per_pixel(&self, bg: usize) -> (r: BitsPerPixel)
        requires
            bg < 4,
        ensures
            r == self@.bg_pattern[bg as int].bits_per_pixel,
    {
        self.bg_pattern_mem[bg].get_bits_per_pixel()
    }
}

fn obj_dims(settings: u8, large: bool) -> (r: (u16, u16))
    ensures
        r.0 == obj_size(settings, large).0,
        r.1 == obj_size(settings, large).1,
{
    let s = settings / 32;
    if !large {
        if s <= 2 {
            (8, 8)
        } else if s <= 4 {
            (16, 16)
        } else if s == 5 {
            (32, 32)
        } else {
            (16, 32)
        }
    } else {
        if s == 0 {
            (16, 16)
        } else if s == 1 || s == 3 || s == 7 {
            (32, 32)
        } else if s == 6 {
            (32, 64)
        } else {
            (64, 64)
        }
    }
}

fn is_on_line(o: &Object, settings: u8, y: u8) -> (r: bool)
    ensures
        r == on_line(*o, settings, y),
{
    let h = obj_dims(settings, o.large).1;
    let bottom = ((o.y as u16 + h - 1) % 256) as u8;
    if bottom > o.y {
        (y >= o.y) && (y <= bottom)
    } else {
        (y >= o.y) || (y <= bottom)
    }
}

/// The line of the sprite that line `y` shows, for an object that covers
/// line `y`.
fn row_in_sprite(o: &Object, settings: u8, y: u8) -> (r: u16)
    requires
        on_line(*o, settings, y),
    ensures
        r == sprite_row(*o, y),
        r < obj_size(settings, o.large).1,
{
    let h = obj_dims(settings, o.large).1;
    assert(h >= 8 && h <= 64);
    if y >= o.y {
        (y - o.y) as u16
    } else {
        (y as u16 + 256) - o.y as u16
    }
}

impl Renderer {
    /// Texel (`x`, `y`) of tile `num` (modulo the table's size) of sprite
    /// table `table`.
    fn obj_texel(&self, table: usize, num: usize, x: usize, y: usize) -> (r: u8)
        requires
            self@.wf(),
            self@.obj_ready(),
            table < 2,
            x < 8,
            y < 8,
        ensures
            r == self@.obj_pattern[table as int].tiles[(num as int) % (self@.obj_pattern[table as int].tiles.len() as int)][texel_index(x as int, y as int)],
            r < 16,
    {
        let ghost pat = self@.obj_pattern[table as int];
        assert(self.obj_pattern_mem@[table as int]@ == pat);
        let tile = self.obj_pattern_mem[table].ref_tile(num);
        assert(sprite_tile_ok(pat.tiles[(num as int) % (pat.tiles.len() as int)]));
        tile.get_texel(x, y)
    }

    /// The pixel that object `o`, which covers line `y`, puts at column
    /// `px`.
    fn obj_pixel_at(&self, o: &Object, settings: u8, y: u8, px: i32) -> (r: Option<SpritePixel>)
        requires
            self@.wf(),
            self@.obj_ready(),
            on_line(*o, settings, y),
            0 <= px < H_RES,
        ensures
            r == obj_pixel(self@, *o, settings, y, px as int),
            r matches Some(p) ==> !(p is Masked),
    {
        let (w, h) = obj_dims(settings, o.large);
        let xx = px - o.x as i32;
        if xx < 0 || xx >= w as i32 {
            return None;
        }
        let sy = row_in_sprite(o, settings, y);
        let y_pix: usize = if o.y_flip() {
            (h - 1 - sy) as usize
        } else {
            sy as usize
        };
        let x_pix: usize = if o.x_flip() {
            (w as i32 - 1 - xx) as usize
        } else {
            xx as usize
        };
        let tile_num = o.calc_tile_num(x_pix, y_pix);
        let texel = self.obj_texel(o.name_table(), tile_num, x_pix % 8, y_pix % 8);
        if texel == 0 {
            None
        } else {
            let col = o.palette_offset() + texel as usize;
            let colour = self.palettes.get_obj_colour(col);
            let c = SpriteColour { colour: colour, col_math: col >= 64 };
            Some(
                match o.priority() {
                    SpritePriority::_3 => SpritePixel::Prio3(c),
                    SpritePriority::_2 => SpritePixel::Prio2(c),
                    SpritePriority::_1 => SpritePixel::Prio1(c),
                    SpritePriority::_0 => SpritePixel::Prio0(c),
                },
            )
        }
    }
}

impl Renderer {
    /// Draw object `o`, which covers line `y`, into both lines, except at
    /// masked pixels.
    fn draw_object(&self, o: &Object, settings: u8, y: u8, main_line: &mut [SpritePixel], sub_line: &mut [SpritePixel])
        requires
            self@.wf(),
            self@.obj_ready(),
            on_line(*o, settings, y),
            old(main_line)@.len() == H_RES,
            old(sub_line)@.len() == H_RES,
        ensures
            final(main_line)@.len() == H_RES,
            final(sub_line)@.len() == H_RES,
            forall|px: int|
                0 <= px < H_RES ==> #[trigger] final(main_line)@[px] == line_result(
                    old(main_line)@[px],
                    obj_pixel(self@, *o, settings, y, px),
                ),
            forall|px: int|
                0 <= px < H_RES ==> #[trigger] final(sub_line)@[px] == line_result(
                    old(sub_line)@[px],
                    obj_pixel(self@, *o, settings, y, px),
                ),
    {
        let w = obj_dims(settings, o.large).0;
        let mut xi: u16 = 0;
        while xi < w
            invariant
                self@.wf(),
                self@.obj_ready(),
                on_line(*o, settings, y),
                w == obj_size(settings, o.large).0,
                xi <= w,
                main_line@.len() == H_RES,
                sub_line@.len() == H_RES,
                forall|px: int|
                    0 <= px < H_RES ==> #[trigger] main_line@[px] == if px - o.x < xi {
                        line_result(old(main_line)@[px], obj_pixel(self@, *o, settings, y, px))
                    } else {
                        old(main_line)@[px]
                    },
                forall|px: int|
                    0 <= px < H_RES ==> #[trigger] sub_line@[px] == if px - o.x < xi {
                        line_result(old(sub_line)@[px], obj_pixel(self@, *o, settings, y, px))
                    } else {
                        old(sub_line)@[px]
                    },
            decreases w - xi,
        {
            let line_x = o.x as i32 + xi as i32;
            if line_x >= 0 && line_x < H_RES as i32 {
                let lx = line_x as usize;
                let main_masked = main_line[lx].is_masked();
                let sub_masked = sub_line[lx].is_masked();
                if !(main_masked && sub_masked) {
                    match self.obj_pixel_at(o, settings, y, line_x) {
                        Some(p) => {
                            if !main_masked {
                                main_line[lx] = p;
                            }
                            if !sub_masked {
                                sub_line[lx] = p;
                            }
                        },
                        None => {},
                    }
                }
            }
            xi = xi + 1;
        }
    }

    /// Draw the sprites of line `y` into a main and a sub screen line: first
    /// mask out the pixels where the window hides sprites, then draw the
    /// first 32 sprites on the line, so that those earlier in OAM end up in
    /// front.
    pub fn draw_sprites_to_line(
        &self,
        mem: &VideoMem,
        window: &WindowRegisters,
        main_line: &mut [SpritePixel],
        sub_line: &mut [SpritePixel],
        y: u8,
    )
        requires
            self@.wf(),
            self@.obj_ready(),
            old(main_line)@.len() == H_RES,
            old(sub_line)@.len() == H_RES,
        ensures
            final(main_line)@.len() == H_RES,
            final(sub_line)@.len() == H_RES,
            forall|x: int|
                0 <= x < H_RES ==> #[trigger] final(main_line)@[x] == sprite_pixel_spec(
                    self@,
                    mem@.oam.objects,
                    mem@.registers.object_settings,
                    window@,
                    true,
                    old(main_line)@[x],
                    x,
                    y,
                ),
            forall|x: int|
                0 <= x < H_RES ==> #[trigger] final(sub_line)@[x] == sprite_pixel_spec(
                    self@,
                    mem@.oam.objects,
                    mem@.registers.object_settings,
                    window@,
                    false,
                    old(sub_line)@[x],
                    x,
                    y,
                ),
    {
        let settings = mem.get_registers().get_object_settings();
        let mut x: usize = 0;
        while x < H_RES
            invariant
                x <= H_RES,
                main_line@.len() == H_RES,
                sub_line@.len() == H_RES,
                forall|i: int|
                    0 <= i < H_RES ==> #[trigger] main_line@[i] == if i < x && !obj_shown(window@, true, i as u8) {
                        SpritePixel::Masked
                    } else {
                        old(main_line)@[i]
                    },
                forall|i: int|
                    0 <= i < H_RES ==> #[trigger] sub_line@[i] == if i < x && !obj_shown(window@, false, i as u8) {
                        SpritePixel::Masked
                    } else {
                        old(sub_line)@[i]
                    },
            decreases H_RES - x,
        {
            if !window.show_obj_pixel_main(x as u8) {
                main_line[x] = SpritePixel::Masked;
            }
            if !window.show_obj_pixel_sub(x as u8) {
                sub_line[x] = SpritePixel::Masked;
            }
            x = x + 1;
        }
        let ghost base_main = main_line@;
        let ghost base_sub = sub_line@;

        let objects = mem.get_oam();
        let mut line: Vec<Object> = Vec::new();
        let mut i: usize = 0;
        while i < objects.len()
            invariant
                i <= objects@.len(),
                line@ == first_on_line(objects@, settings, y, i as int),
                forall|k: int| 0 <= k < line@.len() ==> on_line(#[trigger] line@[k], settings, y),
            decreases objects@.len() - i,
        {
            if line.len() < SPRITES_PER_LINE && is_on_line(&objects[i], settings, y) {
                line.push(objects[i]);
            }
            i = i + 1;
        }

        let mut k: usize = line.len();
        while k > 0
            invariant
                self@.wf(),
                self@.obj_ready(),
                k <= line@.len(),
                forall|j: int| 0 <= j < line@.len() ==> on_line(#[trigger] line@[j], settings, y),
                main_line@.len() == H_RES,
                sub_line@.len() == H_RES,
                forall|px: int|
                    0 <= px < H_RES ==> #[trigger] main_line@[px] == line_result(
                        base_main[px],
                        sprite_at(self@, line@, settings, y, px, k as int),
                    ),
                forall|px: int|
                    0 <= px < H_RES ==> #[trigger] sub_line@[px] == line_result(
                        base_sub[px],
                        sprite_at(self@, line@, settings, y, px, k as int),
                    ),
            decreases k,
        {
            k = k - 1;
            let o = line[k];
            let ghost before_main = main_line@;
            let ghost before_sub = sub_line@;
            self.draw_object(&o, settings, y, main_line, sub_line);
            proof {
                assert forall|px: int| 0 <= px < H_RES implies #[trigger] main_line@[px] == line_result(
                    base_main[px],
                    sprite_at(self@, line@, settings, y, px, k as int),
                ) by {
                    lemma_draw_step(self@, line@, settings, y, px, k as int, base_main[px]);
                    assert(before_main[px] == line_result(base_main[px], sprite_at(self@, line@, settings, y, px, k + 1)));
                }
                assert forall|px: int| 0 <= px < H_RES implies #[trigger] sub_line@[px] == line_result(
                    base_sub[px],
                    sprite_at(self@, line@, settings, y, px, k as int),
                ) by {
                    lemma_draw_step(self@, line@, settings, y, px, k as int, base_sub[px]);
                    assert(before_sub[px] == line_result(base_sub[px], sprite_at(self@, line@, settings, y, px, k + 1)));
                }
            }
        }
    }
}

impl Renderer {
    /// Set up sprite table `i` for address `addr`: move it there if it is
    /// elsewhere, and decode its tiles if it moved or VRAM there changed.
    fn setup_obj_table(&mut self, i: usize, addr: u16, mem: &VideoMem, force: bool)
        requires
            old(self)@.wf(),
            mem@.wf(),
            i < 2,
            addr <= 0xE000,
        ensures
            final(self)@.wf(),
            final(self)@ == (RendererView { obj_pattern: final(self)@.obj_pattern, ..old(self)@ }),
            final(self)@.obj_pattern.len() == 2,
            final(self)@.obj_pattern[i as int].tiles.len() > 0,
            obj_table_setup(
                old(self)@.obj_pattern[i as int],
                final(self)@.obj_pattern[i as int],
                addr,
                mem@.vram.data,
                force || mem@.vram.region_dirty(addr),
            ),
            forall|j: int| 0 <= j < 2 && j != i ==> #[trigger] final(self)@.obj_pattern[j] == old(self)@.obj_pattern[j],
    {
        let ghost old_p = old(self)@.obj_pattern[i as int];
        assert(self.obj_pattern_mem@[i as int]@ == old_p);
        let moved = self.obj_pattern_mem[i].get_start_addr() != addr;
        let dirty = force || mem.vram_dirty_range(addr);
        let ghost mut fresh = old_p;
        if moved || dirty {
            let mut table = PatternMem::new(BitsPerPixel::_4);
            std::mem::swap(&mut table, &mut self.obj_pattern_mem[i]);
            assert(table@ == old_p);
            if moved {
                table.set_addr_obj(addr);
            }
            assert(table@.wf());
            table.make_tiles(mem.get_vram());
            proof {
                assert forall|t: int| 0 <= t < table@.tiles.len() implies sprite_tile_ok(#[trigger] table@.tiles[t]) by {
                    lemma_decoded_sprite_tile(table@.tiles[t], mem@.vram.data, addr as int, t);
                }
            }
            proof {
                fresh = table@;
            }
            self.obj_pattern_mem[i] = table;
            assert(self@.obj_pattern[i as int] == fresh);
        } else {
            assert(self@.obj_pattern[i as int] == old_p);
        }
        proof {
            assert(self@.bg_cache == old(self)@.bg_cache);
            assert forall|k: int| 0 <= k < 4 implies (#[trigger] self@.bg_cache[k]).wf() by {
                assert(old(self)@.bg_cache[k].wf());
            }
            assert forall|j: int| 0 <= j < 2 && j != i implies #[trigger] self@.obj_pattern[j] == old(self)@.obj_pattern[j] by {
                assert(self.obj_pattern_mem@[j] == old(self).obj_pattern_mem@[j]);
            }
            assert(self@.obj_pattern[i as int] == self.obj_pattern_mem@[i as int]@);
            assert forall|j: int, t: int|
                0 <= j < 2 && 0 <= t < self@.obj_pattern[j].tiles.len() implies sprite_tile_ok(
                #[trigger] self@.obj_pattern[j].tiles[t],
            ) by {
                if j != i {
                    assert(self@.obj_pattern[j] == old(self)@.obj_pattern[j]);
                    assert(sprite_tile_ok(old(self)@.obj_pattern[j].tiles[t]));
                } else {
                    assert(self@.obj_pattern[j] == fresh);
                    assert(sprite_tile_ok(fresh.tiles[t]));
                }
            }
            assert forall|j: int|
                0 <= j < 2 && #[trigger] self@.obj_pattern[j].start_addr != u16::MAX implies self@.obj_pattern[j].wf()
                && self@.obj_pattern[j].tiles.len() == 256 by {
                if j != i {
                    assert(self@.obj_pattern[j] == old(self)@.obj_pattern[j]);
                }
            }
            assert forall|j: int| 0 <= j < 2 implies (#[trigger] self@.obj_pattern[j]).bits_per_pixel == BitsPerPixel::_4 by {
                if j != i {
                    assert(self@.obj_pattern[j] == old(self)@.obj_pattern[j]);
                }
            }
        }
    }

    /// Set up what drawing sprites reads: both sprite pattern tables at the
    /// addresses the object settings give, and the sprite palettes when
    /// CGRAM has changed.
    pub fn setup_obj_caches(&mut self, mem: &VideoMem)
        requires
            old(self)@.wf(),
            mem@.wf(),
            objn_addr_spec(mem@.registers) <= 0xE000,
        ensures
            final(self)@.wf(),
            final(self)@.obj_ready(),
            final(self)@.mode == old(self)@.mode,
            final(self)@.bg_pattern == old(self)@.bg_pattern,
            obj_table_setup(
                old(self)@.obj_pattern[0],
                final(self)@.obj_pattern[0],
                obj0_addr_spec(mem@.registers),
                mem@.vram.data,
                mem@.vram.region_dirty(obj0_addr_spec(mem@.registers)),
            ),
            obj_table_setup(
                old(self)@.obj_pattern[1],
                final(self)@.obj_pattern[1],
                objn_addr_spec(mem@.registers),
                mem@.vram.data,
                mem@.vram.region_dirty(objn_addr_spec(mem@.registers)),
            ),
            forall|c: int|
                0 <= c < 256 ==> #[trigger] final(self)@.palettes[c] == if mem@.cgram.obj_dirty && c >= 128 {
                    cgram_colour(mem@.cgram.data, c)
                } else {
                    old(self)@.palettes[c]
                },
    {
        let regs = mem.get_registers();
        let a0 = regs.obj_0_pattern_addr();
        let an = regs.obj_n_pattern_addr();
        proof {
            assert(obj0_addr_spec(mem@.registers) <= 0xE000);
        }
        self.setup_obj_table(0, a0, mem, false);
        self.setup_obj_table(1, an, mem, false);
        if mem.is_cgram_obj_dirty() {
            self.palettes.make_obj_palette(mem);
        }
    }
}

// ----- Layer priority -----

/// The pixel that wins at one position of a line, with the layer it came
/// from: a background, a sprite that takes part in colour math (palettes
/// 4-7) or not, or nothing (the backdrop shows).
#[derive(Clone, Copy)]
pub enum Pixel {
    BG1(Colour),
    BG2(Colour),
    BG3(Colour),
    BG4(Colour),
    ObjHi(Colour),
    ObjLo(Colour),
    Clear,
}

/// The pixel of a sprite pixel that holds a colour.
pub open spec fn sprite_to_pixel(p: SpritePixel) -> Pixel {
    match p {
        SpritePixel::Prio3(c) | SpritePixel::Prio2(c) | SpritePixel::Prio1(c) | SpritePixel::Prio0(c) => if c.col_math {
            Pixel::ObjHi(c.colour)
        } else {
            Pixel::ObjLo(c.colour)
        },
        _ => Pixel::Clear,
    }
}

/// A background pixel that shows: its texel is not transparent.
pub open spec fn opaque(d: BGData) -> bool {
    d.texel != 0
}

/// An opaque background pixel of a high priority tile.
pub open spec fn opaque_hi(d: BGData) -> bool {
    d.texel != 0 && d.attrs.bits & TILE_PRIORITY != 0
}

/// Colour index of a 2-bit background pixel: palettes of 4 colours.
pub open spec fn index_2bpp(d: BGData) -> int {
    (d.attrs.bits & TILE_PALETTE) + d.texel
}

/// Colour index of a 4-bit background pixel: palettes of 16 colours.
pub open spec fn index_4bpp(d: BGData) -> int {
    (d.attrs.bits & TILE_PALETTE) * 4 + d.texel
}

/// The colour index fits in a byte (as it does for decoded tiles).
pub open spec fn index_ok(d: BGData) -> bool {
    index_2bpp(d) < 256 && index_4bpp(d) < 256
}

/// Mode 0: four 2-bit backgrounds; sprites of each priority sit above the
/// backgrounds' low and high priority tiles in the hardware's order.
pub open spec fn eval_mode_0_spec(
    r: RendererView,
    sprite: SpritePixel,
    bg1: BGData,
    bg2: BGData,
    bg3: BGData,
    bg4: BGData,
) -> Pixel {
    if sprite is Prio3 {
        sprite_to_pixel(sprite)
    } else if opaque_hi(bg1) {
        Pixel::BG1(r.palettes[index_2bpp(bg1)])
    } else if opaque_hi(bg2) {
        Pixel::BG2(r.palettes[index_2bpp(bg2)])
    } else if sprite is Prio2 {
        sprite_to_pixel(sprite)
    } else if opaque(bg1) {
        Pixel::BG1(r.palettes[index_2bpp(bg1)])
    } else if opaque(bg2) {
        Pixel::BG2(r.palettes[index_2bpp(bg2)])
    } else if sprite is Prio1 {
        sprite_to_pixel(sprite)
    } else if opaque_hi(bg3) {
        Pixel::BG3(r.palettes[index_2bpp(bg3)])
    } else if opaque_hi(bg4) {
        Pixel::BG4(r.palettes[index_2bpp(bg4)])
    } else if sprite is Prio0 {
        sprite_to_pixel(sprite)
    } else if opaque(bg3) {
        Pixel::BG3(r.palettes[index_2bpp(bg3)])
    } else if opaque(bg4) {
        Pixel::BG4(r.palettes[index_2bpp(bg4)])
    } else {
        Pixel::Clear
    }
}

/// Mode 1: two 4-bit backgrounds and a 2-bit one, whose high priority
/// tiles can be put in front of everything.
pub open spec fn eval_mode_1_spec(
    r: RendererView,
    bg3_hi: bool,
    sprite: SpritePixel,
    bg1: BGData,
    bg2: BGData,
    bg3: BGData,
) -> Pixel {
    if bg3_hi && opaque(bg3) {
        Pixel::BG3(r.palettes[index_2bpp(bg3)])
    } else if sprite is Prio3 {
        sprite_to_pixel(sprite)
    } else if opaque_hi(bg1) {
        Pixel::BG1(r.palettes[index_4bpp(bg1)])
    } else if opaque_hi(bg2) {
        Pixel::BG2(r.palettes[index_4bpp(bg2)])
    } else if sprite is Prio2 {
        sprite_to_pixel(sprite)
    } else if opaque(bg1) {
        Pixel::BG1(r.palettes[index_4bpp(bg1)])
    } else if opaque(bg2) {
        Pixel::BG2(r.palettes[index_4bpp(bg2)])
    } else if sprite is Prio1 {
        sprite_to_pixel(sprite)
    } else if opaque_hi(bg3) {
        Pixel::BG3(r.palettes[index_2bpp(bg3)])
    } else if sprite is Prio0 {
        sprite_to_pixel(sprite)
    } else if opaque(bg3) {
        Pixel::BG3(r.palettes[index_2bpp(bg3)])
    } else {
        Pixel::Clear
    }
}

/// The pixel a sprite pixel shows when it wins: its colour, as a layer
/// that takes part in colour math or not.
pub open spec fn sprite_shown(p: Pixel, s: SpritePixel) -> bool {
    match s {
        SpritePixel::Prio3(c) | SpritePixel::Prio2(c) | SpritePixel::Prio1(c) | SpritePixel::Prio0(c) => p == if c.col_math {
            Pixel::ObjHi(c.colour)
        } else {
            Pixel::ObjLo(c.colour)
        },
        _ => false,
    }
}

/// Mode 1's layers from front to back: BG3's high tiles when the mode puts
/// them in front, sprites of priority 3, high tiles of BG1 then BG2,
/// sprites of priority 2, low tiles of BG1 then BG2, sprites of priority 1,
/// BG3's high tiles, sprites of priority 0, BG3's low tiles. The first
/// layer that is opaque at the pixel shows, in its own colour (BG1 and BG2
/// with 16-colour palettes, BG3 with 4-colour ones); with none, the
/// backdrop does.
pub proof fn lemma_mode_1_order(r: RendererView, bg3_hi: bool, sprite: SpritePixel, bg1: BGData, bg2: BGData, bg3: BGData)
    ensures
        ({
            let p = eval_mode_1_spec(r, bg3_hi, sprite, bg1, bg2, bg3);
            let c1 = Pixel::BG1(r.palettes[(bg1.attrs.bits & 0x1C) * 4 + bg1.texel]);
            let c2 = Pixel::BG2(r.palettes[(bg2.attrs.bits & 0x1C) * 4 + bg2.texel]);
            let c3 = Pixel::BG3(r.palettes[(bg3.attrs.bits & 0x1C) + bg3.texel]);
            let l1 = bg3_hi && bg3.texel != 0;
            let l2 = l1 || sprite is Prio3;
            let l3 = l2 || (bg1.texel != 0 && bg1.attrs.bits & 0x20 != 0);
            let l4 = l3 || (bg2.texel != 0 && bg2.attrs.bits & 0x20 != 0);
            let l5 = l4 || sprite is Prio2;
            let l6 = l5 || bg1.texel != 0;
            let l7 = l6 || bg2.texel != 0;
            let l8 = l7 || sprite is Prio1;
            let l9 = l8 || (bg3.texel != 0 && bg3.attrs.bits & 0x20 != 0);
            let l10 = l9 || sprite is Prio0;
            let l11 = l10 || bg3.texel != 0;
            &&& l1 ==> p == c3
            &&& !l1 && l2 ==> sprite_shown(p, sprite)
            &&& !l2 && l3 ==> p == c1
            &&& !l3 && l4 ==> p == c2
            &&& !l4 && l5 ==> sprite_shown(p, sprite)
            &&& !l5 && l6 ==> p == c1
            &&& !l6 && l7 ==> p == c2
            &&& !l7 && l8 ==> sprite_shown(p, sprite)
            &&& !l8 && l9 ==> p == c3
            &&& !l9 && l10 ==> sprite_shown(p, sprite)
            &&& !l10 && l11 ==> p == c3
            &&& !l11 ==> p == Pixel::Clear
        }),
{
}

/// Mode 0's layers from front to back: sprites of priority 3, high tiles
/// of BG1 then BG2, sprites of priority 2, low tiles of BG1 then BG2,
/// sprites of priority 1, high tiles of BG3 then BG4, sprites of priority
/// 0, low tiles of BG3 then BG4. The first layer that is opaque at the
/// pixel shows, in its own colour (4-colour palettes); with none, the
/// backdrop does.
pub proof fn lemma_mode_0_order(r: RendererView, sprite: SpritePixel, bg1: BGData, bg2: BGData, bg3: BGData, bg4: BGData)
    ensures
        ({
            let p = eval_mode_0_spec(r, sprite, bg1, bg2, bg3, bg4);
            let c1 = Pixel::BG1(r.palettes[(bg1.attrs.bits & 0x1C) + bg1.texel]);
            let c2 = Pixel::BG2(r.palettes[(bg2.attrs.bits & 0x1C) + bg2.texel]);
            let c3 = Pixel::BG3(r.palettes[(bg3.attrs.bits & 0x1C) + bg3.texel]);
            let c4 = Pixel::BG4(r.palettes[(bg4.attrs.bits & 0x1C) + bg4.texel]);
            let l1 = sprite is Prio3;
            let l2 = l1 || (bg1.texel != 0 && bg1.attrs.bits & 0x20 != 0);
            let l3 = l2 || (bg2.texel != 0 && bg2.attrs.bits & 0x20 != 0);
            let l4 = l3 || sprite is Prio2;
            let l5 = l4 || bg1.texel != 0;
            let l6 = l5 || bg2.texel != 0;
            let l7 = l6 || sprite is Prio1;
            let l8 = l7 || (bg3.texel != 0 && bg3.attrs.bits & 0x20 != 0);
            let l9 = l8 || (bg4.texel != 0 && bg4.attrs.bits & 0x20 != 0);
            let l10 = l9 || sprite is Prio0;
            let l11 = l10 || bg3.texel != 0;
            let l12 = l11 || bg4.texel != 0;
            &&& l1 ==> sprite_shown(p, sprite)
            &&& !l1 && l2 ==> p == c1
            &&& !l2 && l3 ==> p == c2
            &&& !l3 && l4 ==> sprite_shown(p, sprite)
            &&& !l4 && l5 ==> p == c1
            &&& !l5 && l6 ==> p == c2
            &&& !l6 && l7 ==> sprite_shown(p, sprite)
            &&& !l7 && l8 ==> p == c3
            &&& !l8 && l9 ==> p == c4
            &&& !l9 && l10 ==> sprite_shown(p, sprite)
            &&& !l10 && l11 ==> p == c3
            &&& !l11 && l12 ==> p == c4
            &&& !l12 ==> p == Pixel::Clear
        }),
{
}

impl SpritePixel {
    /// The pixel of a sprite pixel that holds a colour.
    pub fn pixel(&self) -> (r: Pixel)
        requires
            !(*self is Masked),
            !(*self is Empty),
        ensures
            r == sprite_to_pixel(*self),
    {
        match self {
            SpritePixel::Prio3(c) | SpritePixel::Prio2(c) | SpritePixel::Prio1(c) | SpritePixel::Prio0(c) => {
                if c.col_math {
                    Pixel::ObjHi(c.colour)
                } else {
                    Pixel::ObjLo(c.colour)
                }
            },
            _ => Pixel::Clear,
        }
    }
}

impl Pixel {
    /// The colour, if a layer won.
    pub fn any(self) -> (r: Option<Colour>)
        ensures
            r == match self {
                Pixel::BG1(c) | Pixel::BG2(c) | Pixel::BG3(c) | Pixel::BG4(c) | Pixel::ObjHi(c) | Pixel::ObjLo(c) => Some(c),
                Pixel::Clear => None::<Colour>,
            },
    {
        match self {
            Pixel::BG1(c) | Pixel::BG2(c) | Pixel::BG3(c) | Pixel::BG4(c) | Pixel::ObjHi(c) | Pixel::ObjLo(c) => Some(c),
            Pixel::Clear => None,
        }
    }
}

fn is_opaque_hi(d: BGData) -> (r: bool)
    ensures
        r == opaque_hi(d),
{
    d.texel != 0 && d.attrs.bits & TILE_PRIORITY != 0
}

impl Renderer {
    /// The colour of a 2-bit background pixel.
    fn make_2bpp_pixel(&self, d: BGData) -> (r: Colour)
        requires
            self@.wf(),
            index_ok(d),
        ensures
            r == self@.palettes[index_2bpp(d)],
    {
        self.palettes.get_bg_colour(((d.attrs.bits & TILE_PALETTE) as usize) + d.texel as usize)
    }

    /// The colour of a 4-bit background pixel.
    fn make_4bpp_pixel(&self, d: BGData) -> (r: Colour)
        requires
            self@.wf(),
            index_ok(d),
        ensures
            r == self@.palettes[index_4bpp(d)],
    {
        self.palettes.get_bg_colour(((d.attrs.bits & TILE_PALETTE) as usize) * 4 + d.texel as usize)
    }

    /// The winning pixel in mode 0 of a sprite pixel and four background
    /// pixels.
    pub fn eval_mode_0(&self, sprite: SpritePixel, bg1: BGData, bg2: BGData, bg3: BGData, bg4: BGData) -> (r: Pixel)
        requires
            self@.wf(),
            index_ok(bg1),
            index_ok(bg2),
            index_ok(bg3),
            index_ok(bg4),
        ensures
            r == eval_mode_0_spec(self@, sprite, bg1, bg2, bg3, bg4),
    {
        if let SpritePixel::Prio3(_) = sprite {
            sprite.pixel()
        } else if is_opaque_hi(bg1) {
            Pixel::BG1(self.make_2bpp_pixel(bg1))
        } else if is_opaque_hi(bg2) {
            Pixel::BG2(self.make_2bpp_pixel(bg2))
        } else if let SpritePixel::Prio2(_) = sprite {
            sprite.pixel()
        } else if bg1.texel != 0 {
            Pixel::BG1(self.make_2bpp_pixel(bg1))
        } else if bg2.texel != 0 {
            Pixel::BG2(self.make_2bpp_pixel(bg2))
        } else if let SpritePixel::Prio1(_) = sprite {
            sprite.pixel()
        } else if is_opaque_hi(bg3) {
            Pixel::BG3(self.make_2bpp_pixel(bg3))
        } else if is_opaque_hi(bg4) {
            Pixel::BG4(self.make_2bpp_pixel(bg4))
        } else if let SpritePixel::Prio0(_) = sprite {
            sprite.pixel()
        } else if bg3.texel != 0 {
            Pixel::BG3(self.make_2bpp_pixel(bg3))
        } else if bg4.texel != 0 {
            Pixel::BG4(self.make_2bpp_pixel(bg4))
        } else {
            Pixel::Clear
        }
    }

    /// The winning pixel in mode 1 of a sprite pixel and three background
    /// pixels; `bg3_hi` puts the third background's high priority tiles
    /// in front.
    pub fn eval_mode_1(&self, bg3_hi: bool, sprite: SpritePixel, bg1: BGData, bg2: BGData, bg3: BGData) -> (r: Pixel)
        requires
            self@.wf(),
            index_ok(bg1),
            index_ok(bg2),
            index_ok(bg3),
        ensures
            r == eval_mode_1_spec(self@, bg3_hi, sprite, bg1, bg2, bg3),
    {
        if bg3_hi && bg3.texel != 0 {
            Pixel::BG3(self.make_2bpp_pixel(bg3))
        } else if let SpritePixel::Prio3(_) = sprite {
            sprite.pixel()
        } else if is_opaque_hi(bg1) {
            Pixel::BG1(self.make_4bpp_pixel(bg1))
        } else if is_opaque_hi(bg2) {
            Pixel::BG2(self.make_4bpp_pixel(bg2))
        } else if let SpritePixel::Prio2(_) = sprite {
            sprite.pixel()
        } else if bg1.texel != 0 {
            Pixel::BG1(self.make_4bpp_pixel(bg1))
        } else if bg2.texel != 0 {
            Pixel::BG2(self.make_4bpp_pixel(bg2))
        } else if let SpritePixel::Prio1(_) = sprite {
            sprite.pixel()
        } else if is_opaque_hi(bg3) {
            Pixel::BG3(self.make_2bpp_pixel(bg3))
        } else if let SpritePixel::Prio0(_) = sprite {
            sprite.pixel()
        } else if bg3.texel != 0 {
            Pixel::BG3(self.make_2bpp_pixel(bg3))
        } else {
            Pixel::Clear
        }
    }
}

// ----- Backgrounds -----

/// The mosaic block size that applies to background `bg`: from the high
/// nybble of the mosaic register when mosaic is on for it, zero otherwise.
pub open spec fn mosaic_amount(regs: BGRegistersView, bg: int) -> int {
    let bit: u8 = if bg == 0 {
        1
    } else if bg == 1 {
        2
    } else if bg == 2 {
        4
    } else {
        8
    };
    if regs.mosaic_settings & bit != 0 && regs.mosaic_settings >= 16 {
        regs.mosaic_settings / 16 + 1
    } else {
        0
    }
}

/// Whether background `bg` shows at column `x` of the main (or sub)
/// screen.
pub open spec fn bg_shown(w: WindowRegistersView, bg: int, main: bool, x: u8) -> bool {
    if main {
        show_spec(w.main_screen_desg, w.main_mask_desg, bg, bg_window_spec(w, bg, x))
    } else {
        show_spec(w.sub_screen_desg, w.sub_mask_desg, bg, bg_window_spec(w, bg, x))
    }
}

/// What column `x` of line `y` holds after background `bg` is drawn into
/// it, when it held `old`: where the background shows, the cached pixel at
/// the scrolled position, moved back to the start of its mosaic block and
/// wrapped into the map; elsewhere `old`.
pub open spec fn bg_pixel_spec(
    r: RendererView,
    regs: BGRegistersView,
    w: WindowRegistersView,
    bg: int,
    main: bool,
    old: BGData,
    x: int,
    y: int,
) -> BGData {
    let c = r.bg_cache[bg];
    let m = mosaic_amount(regs, bg);
    let bg_y = ((y + scroll_y_spec(regs, bg) % 0x400 - y % (m + 1)) as usize) & ((c.size_y - 1) as usize);
    let bg_x = ((x + scroll_x_spec(regs, bg) % 0x400 - x % (m + 1)) as usize) & (c.mask_x as usize);
    if bg_shown(w, bg, main, x as u8) {
        c.data[bg_y * c.size_x + bg_x]
    } else {
        old
    }
}

proof fn lemma_mask_le(v: usize, m: usize)
    ensures
        v & m <= m,
{
    assert(v & m <= m) by (bit_vector);
}

/// The offset into a mosaic block steps with the column and wraps at the
/// block size.
proof fn lemma_mosaic_step(x: int, m: int, off: int)
    requires
        x >= 0,
        m >= 0,
        off == x % (m + 1),
    ensures
        (x + 1) % (m + 1) == if off == m { 0 } else { off + 1 },
{
    vstd::arithmetic::div_mod::lemma_fundamental_div_mod(x, m + 1);
    let q = x / (m + 1);
    if off == m {
        assert(x + 1 == (q + 1) * (m + 1) + 0) by (nonlinear_arith)
            requires
                x == (m + 1) * q + off,
                off == m,
        ;
        vstd::arithmetic::div_mod::lemma_fundamental_div_mod_converse(x + 1, m + 1, q + 1, 0);
    } else {
        assert(0 <= off < m + 1);
        assert(x + 1 == q * (m + 1) + (off + 1)) by (nonlinear_arith)
            requires
                x == (m + 1) * q + off,
        ;
        vstd::arithmetic::div_mod::lemma_fundamental_div_mod_converse(x + 1, m + 1, q, off + 1);
    }
}

impl Renderer {
    /// Draw line `y` of background `bg` into a main and a sub screen line,
    /// where the window lets it through on each.
    pub fn draw_bg_to_line(
        &self,
        regs: &BGRegisters,
        window: &WindowRegisters,
        bg: usize,
        main_line: &mut [BGData],
        sub_line: &mut [BGData],
        y: usize,
    )
        requires
            self@.wf(),
            bg < 4,
            old(main_line)@.len() == H_RES,
            old(sub_line)@.len() == H_RES,
            y <= usize::MAX - 0x400,
        ensures
            final(main_line)@.len() == H_RES,
            final(sub_line)@.len() == H_RES,
            forall|x: int|
                0 <= x < H_RES ==> #[trigger] final(main_line)@[x] == bg_pixel_spec(
                    self@,
                    regs@,
                    window@,
                    bg as int,
                    true,
                    old(main_line)@[x],
                    x,
                    y as int,
                ),
            forall|x: int|
                0 <= x < H_RES ==> #[trigger] final(sub_line)@[x] == bg_pixel_spec(
                    self@,
                    regs@,
                    window@,
                    bg as int,
                    false,
                    old(sub_line)@[x],
                    x,
                    y as int,
                ),
    {
        let mosaic: usize = if regs.bg_mosaic_enabled(bg) {
            regs.bg_mosaic_mask() as usize
        } else {
            0
        };
        let cache = &self.bg_cache[bg];
        let ghost c = self@.bg_cache[bg as int];
        assert(cache@ == c);
        assert(c.wf());
        let y_mosaic_offset = y % (mosaic + 1);
        proof {
            vstd::arithmetic::div_mod::lemma_mod_decreases(y as nat, (mosaic + 1) as nat);
        }
        let mask_y = cache.mask_y();
        let bg_y = (y + regs.get_bg_scroll_y(bg) as usize - y_mosaic_offset) & mask_y;
        proof {
            lemma_mask_le((y + scroll_y_spec(regs@, bg as int) % 0x400 - y_mosaic_offset) as usize, mask_y);
        }
        let x_offset = regs.get_bg_scroll_x(bg) as usize;
        let mask_x = cache.mask_x();
        let mut x_mosaic_offset: usize = 0;
        let mut x: usize = 0;
        while x < H_RES
            invariant
                x <= H_RES,
                x_mosaic_offset == (x as int) % (mosaic as int + 1),
                mosaic as int == mosaic_amount(regs@, bg as int),
                mosaic <= 16,
                bg < 4,
                cache@ == c,
                c == self@.bg_cache[bg as int],
                c.wf(),
                mask_x == c.mask_x,
                bg_y < c.size_y,
                bg_y == ((y + scroll_y_spec(regs@, bg as int) % 0x400 - (y as int) % (mosaic as int + 1)) as usize) & ((c.size_y - 1) as usize),
                x_offset == scroll_x_spec(regs@, bg as int) % 0x400,
                main_line@.len() == H_RES,
                sub_line@.len() == H_RES,
                forall|i: int|
                    0 <= i < H_RES ==> #[trigger] main_line@[i] == if i < x {
                        bg_pixel_spec(self@, regs@, window@, bg as int, true, old(main_line)@[i], i, y as int)
                    } else {
                        old(main_line)@[i]
                    },
                forall|i: int|
                    0 <= i < H_RES ==> #[trigger] sub_line@[i] == if i < x {
                        bg_pixel_spec(self@, regs@, window@, bg as int, false, old(sub_line)@[i], i, y as int)
                    } else {
                        old(sub_line)@[i]
                    },
            decreases H_RES - x,
        {
            proof {
                vstd::arithmetic::div_mod::lemma_mod_decreases(x as nat, (mosaic + 1) as nat);
            }
            let bg_x = (x + x_offset - x_mosaic_offset) & mask_x;
            proof {
                lemma_mask_le((x + x_offset - x_mosaic_offset) as usize, mask_x);
                lemma_mosaic_step(x as int, mosaic as int, x_mosaic_offset as int);
            }
            if x_mosaic_offset == mosaic {
                x_mosaic_offset = 0;
            } else {
                x_mosaic_offset = x_mosaic_offset + 1;
            }
            let d = cache.get_data(bg_x, bg_y);
            if window.show_bg_pixel_main(bg, x as u8) {
                main_line[x] = d;
            }
            if window.show_bg_pixel_sub(bg, x as u8) {
                sub_line[x] = d;
            }
            x = x + 1;
        }
    }
}

// ----- Cache setup -----

/// Background `bg`'s character (pattern) address.
pub open spec fn bg_char_addr(r: RegistersView, bg: int) -> u16 {
    if bg == 0 {
        char_addr_spec(r.bg12_char_addr % 16)
    } else if bg == 1 {
        char_addr_spec(r.bg12_char_addr / 16)
    } else if bg == 2 {
        char_addr_spec(r.bg34_char_addr % 16)
    } else {
        char_addr_spec(r.bg34_char_addr / 16)
    }
}

/// Background `bg`'s settings register.
pub open spec fn bg_settings_of(r: RegistersView, bg: int) -> u8 {
    if bg == 0 {
        r.bg1_settings
    } else if bg == 1 {
        r.bg2_settings
    } else if bg == 2 {
        r.bg3_settings
    } else {
        r.bg4_settings
    }
}

/// Whether background `bg` uses 16x16 tiles.
pub open spec fn bg_large_of(r: RegistersView, bg: int) -> bool {
    r.bg_mode & (if bg == 0 {
        0x10u8
    } else if bg == 1 {
        0x20u8
    } else if bg == 2 {
        0x40u8
    } else {
        0x80u8
    }) != 0
}

/// The video mode the registers select.
pub open spec fn mode_of(r: RegistersView) -> VideoMode {
    VideoMode::from_index((r.bg_mode % 8) as int)
}

/// The number of backgrounds video mode `m` draws.
pub open spec fn bgs_of(m: VideoMode) -> int {
    if m == VideoMode::_0 {
        4
    } else if m == VideoMode::_1 {
        3
    } else {
        2
    }
}

/// The renderer once it follows mode `m`.
pub open spec fn with_mode(v: RendererView, m: VideoMode) -> RendererView {
    if m == v.mode {
        v
    } else {
        RendererView { mode: m, bg_pattern: Seq::new(4, |i: int| switched_pattern(m, i, v.bg_pattern[i])), ..v }
    }
}

/// Background `bg`'s pattern memory is elsewhere than the registers say.
pub open spec fn bg_moves(v: RendererView, r: RegistersView, bg: int) -> bool {
    v.bg_pattern[bg].start_addr != bg_char_addr(r, bg)
}

/// Background `bg`'s cache was made for other settings.
pub open spec fn cache_stale(v: RendererView, r: RegistersView, bg: int) -> bool {
    !(v.bg_cache[bg].bg_reg == (BGReg { bits: bg_settings_of(r, bg) }) && v.bg_cache[bg].large_tiles == bg_large_of(r, bg))
}

/// Background `bg`'s cache once it follows the registers.
pub open spec fn cache_for(v: RendererView, r: RegistersView, bg: int) -> BGCacheView {
    if cache_stale(v, r, bg) {
        fresh_cache(BGReg { bits: bg_settings_of(r, bg) }, bg_large_of(r, bg))
    } else {
        v.bg_cache[bg]
    }
}

/// The height of background `bg`'s pattern table, in rows of 16 tiles.
pub open spec fn bg_height(v: RendererView, r: RegistersView, bg: int) -> u32 {
    pattern_height_spec(r, bg_char_addr(r, bg), v.bg_pattern[bg].bits_per_pixel.spec_bits() as u32)
}

/// An active background's pattern memory or cache changes.
pub open spec fn bg_changes(v: RendererView, r: RegistersView, bg: int) -> bool {
    bg < bgs_of(v.mode) && (bg_moves(v, r, bg) || cache_stale(v, r, bg))
}

/// Whether the layout of VRAM changes, so that every pattern table and
/// map is read again.
pub open spec fn layout_changes(v: RendererView, r: RegistersView) -> bool {
    ||| bg_changes(v, r, 0)
    ||| bg_changes(v, r, 1)
    ||| bg_changes(v, r, 2)
    ||| bg_changes(v, r, 3)
    ||| v.obj_pattern[0].start_addr != obj0_addr_spec(r)
    ||| v.obj_pattern[1].start_addr != objn_addr_spec(r)
}

/// The extra VRAM a map takes after its first sub-map, by mirroring.
pub open spec fn map_extent(settings: u8) -> int {
    if settings % 4 == 0 {
        0
    } else if settings % 4 == 3 {
        3 * SUB_MAP_SIZE as int
    } else {
        SUB_MAP_SIZE as int
    }
}

/// Setting up background `bg` does not overflow: a pattern table that
/// moves has at least one row and fits below 64kB, and the map with its
/// mirrors fits below 64kB.
pub open spec fn bg_setup_ok(v: RendererView, r: RegistersView, bg: int) -> bool {
    let h = bg_height(v, r, bg);
    let bytes = tile_bytes(v.bg_pattern[bg].bits_per_pixel.spec_bits());
    let c = cache_for(v, r, bg);
    &&& bg_moves(v, r, bg) ==> h >= 1 && 16 * h * bytes <= u16::MAX && bg_char_addr(r, bg) + 16 * h * bytes - 1 <= u16::MAX
    &&& c.start_addr + map_extent(c.bg_reg.bits) <= u16::MAX
}

/// Setting up the caches for registers `r` does not overflow.
pub open spec fn setup_ok(v0: RendererView, r: RegistersView) -> bool {
    let v = with_mode(v0, mode_of(r));
    &&& forall|bg: int| 0 <= bg < bgs_of(v.mode) ==> #[trigger] bg_setup_ok(v, r, bg)
    &&& objn_addr_spec(r) <= 0xE000
}

/// Background `bg`'s pattern memory `q` after setup from `p`: at the
/// registers' address, moved there with the table's height when it was
/// elsewhere, and decoded from VRAM when `remade`.
pub open spec fn bg_pattern_after(p: PatternMemView, q: PatternMemView, addr: u16, height: u32, remade: bool, vram: Seq<u8>) -> bool {
    &&& q.bits_per_pixel == p.bits_per_pixel
    &&& q.start_addr == addr
    &&& q.wf()
    &&& if p.start_addr != addr {
        q.tiles.len() == 16 * height
    } else {
        q.tiles.len() == p.tiles.len() && q.end_addr == p.end_addr
    }
    &&& if remade {
        forall|t: int|
            0 <= t < q.tiles.len() ==> tile_decoded(#[trigger] q.tiles[t], vram, addr as int, p.bits_per_pixel.spec_bits(), t)
    } else {
        q == p
    }
}

impl Renderer {
    /// Point background `bg`'s pattern memory and cache at what the
    /// registers say; whether either changed.
    fn prepare_bg(&mut self, bg: usize, mem: &VideoMem) -> (r: bool)
        requires
            old(self)@.wf(),
            bg < 4,
            bg_setup_ok(old(self)@, mem@.registers, bg as int),
        ensures
            final(self)@.wf(),
            r == (bg_moves(old(self)@, mem@.registers, bg as int) || cache_stale(old(self)@, mem@.registers, bg as int)),
            final(self)@ == (RendererView {
                bg_pattern: final(self)@.bg_pattern,
                bg_cache: final(self)@.bg_cache,
                ..old(self)@
            }),
            final(self)@.bg_pattern.len() == 4,
            final(self)@.bg_cache.len() == 4,
            final(self)@.bg_cache[bg as int] == cache_for(old(self)@, mem@.registers, bg as int),
            final(self)@.bg_pattern[bg as int].bits_per_pixel == old(self)@.bg_pattern[bg as int].bits_per_pixel,
            final(self)@.bg_pattern[bg as int].start_addr == bg_char_addr(mem@.registers, bg as int),
            final(self)@.bg_pattern[bg as int].wf(),
            bg_moves(old(self)@, mem@.registers, bg as int) ==> final(self)@.bg_pattern[bg as int].tiles.len() == 16
                * bg_height(old(self)@, mem@.registers, bg as int),
            !bg_moves(old(self)@, mem@.registers, bg as int) ==> final(self)@.bg_pattern[bg as int] == old(self)@.bg_pattern[bg as int],
            forall|j: int| 0 <= j < 4 && j != bg ==> #[trigger] final(self)@.bg_pattern[j] == old(self)@.bg_pattern[j],
            forall|j: int| 0 <= j < 4 && j != bg ==> #[trigger] final(self)@.bg_cache[j] == old(self)@.bg_cache[j],
    {
        let regs = mem.get_registers();
        let ghost r = mem@.registers;
        let addr = if bg == 0 {
            regs.bg_1_pattern_addr()
        } else if bg == 1 {
            regs.bg_2_pattern_addr()
        } else if bg == 2 {
            regs.bg_3_pattern_addr()
        } else {
            regs.bg_4_pattern_addr()
        };
        let settings = BGReg { bits: regs.bg_settings(bg) };
        let large = if bg == 0 {
            regs.bg_1_large_tiles()
        } else if bg == 1 {
            regs.bg_2_large_tiles()
        } else if bg == 2 {
            regs.bg_3_large_tiles()
        } else {
            regs.bg_4_large_tiles()
        };
        assert(settings.bits == bg_settings_of(r, bg as int));
        let ghost p = old(self)@.bg_pattern[bg as int];
        assert(self.bg_pattern_mem@[bg as int]@ == p);
        let moved = self.bg_pattern_mem[bg].get_start_addr() != addr;
        if moved {
            let bits = self.bg_pattern_mem[bg].get_bits_per_pixel().bits() as u32;
            assert(0 < bits <= 8);
            assert(16 * 8 * bits <= u32::MAX) by (nonlinear_arith)
                requires
                    bits <= 8,
            ;
            let height = regs.get_pattern_table_height(addr, bits);
            proof {
                let bytes = tile_bytes(p.bits_per_pixel.spec_bits());
                assert(bytes >= 16);
                assert(16 * height * bytes <= u16::MAX);
                assert(height <= 16 * height * bytes) by (nonlinear_arith)
                    requires
                        bytes >= 16,
                ;
                assert forall|t: int| 0 <= t < p.tiles.len() implies (#[trigger] p.tiles[t]).len() == 64 by {
                    assert(old(self)@.bg_pattern[bg as int].tiles[t].len() == 64);
                }
            }
            assert(height == bg_height(old(self)@, r, bg as int));
            let mut table = PatternMem::new(BitsPerPixel::_2);
            std::mem::swap(&mut table, &mut self.bg_pattern_mem[bg]);
            assert(table@ == p);
            proof {
                if p.start_addr != u16::MAX {
                    assert(p.wf());
                }
            }
            table.set_addr(addr, height as u16);
            self.bg_pattern_mem[bg] = table;
        }
        let ghost c = old(self)@.bg_cache[bg as int];
        assert(self.bg_cache@[bg as int]@ == c);
        let stale = !self.bg_cache[bg].check_if_valid(settings, large);
        if stale {
            self.bg_cache[bg] = BGCache::new(settings, large);
        }
        proof {
            assert(self@.bg_cache[bg as int] == self.bg_cache@[bg as int]@);
            assert(self@.bg_pattern[bg as int] == self.bg_pattern_mem@[bg as int]@);
            assert forall|j: int| 0 <= j < 4 && j != bg implies #[trigger] self@.bg_pattern[j] == old(self)@.bg_pattern[j]
                && self@.bg_cache[j] == old(self)@.bg_cache[j] by {
                assert(self.bg_pattern_mem@[j] == old(self).bg_pattern_mem@[j]);
                assert(self.bg_cache@[j] == old(self).bg_cache@[j]);
            }
            assert forall|k: int| 0 <= k < 4 implies (#[trigger] self@.bg_cache[k]).wf() by {
                if k != bg {
                    assert(old(self)@.bg_cache[k].wf());
                }
            }
            assert forall|k: int| 0 <= k < 4 && #[trigger] self@.bg_pattern[k].start_addr != u16::MAX implies self@.bg_pattern[k].wf() by {
                if k != bg {
                    assert(self@.bg_pattern[k] == old(self)@.bg_pattern[k]);
                }
            }
            assert(self@.bg_pattern[bg as int].wf());
            assert forall|k: int, t: int|
                0 <= k < 4 && 0 <= t < self@.bg_pattern[k].tiles.len() implies (#[trigger] self@.bg_pattern[k].tiles[t]).len() == 64 by {
                if k != bg {
                    assert(self@.bg_pattern[k] == old(self)@.bg_pattern[k]);
                    assert(old(self)@.bg_pattern[k].tiles[t].len() == 64);
                }
            }
            assert(self@.obj_pattern == old(self)@.obj_pattern);
            assert(self@.palettes == old(self)@.palettes);
        }
        moved || stale
    }

    /// Read background `bg`'s pattern table again if `remake` or its VRAM
    /// changed, then decode its map into the cache.
    fn refresh_bg(&mut self, bg: usize, mem: &VideoMem, remake: bool)
        requires
            old(self)@.wf(),
            bg < 4,
            mem@.wf(),
            old(self)@.bg_pattern[bg as int].wf(),
            old(self)@.bg_cache[bg as int].start_addr + map_extent(old(self)@.bg_cache[bg as int].bg_reg.bits) <= u16::MAX,
        ensures
            final(self)@.wf(),
            final(self)@ == (RendererView {
                bg_pattern: final(self)@.bg_pattern,
                bg_cache: final(self)@.bg_cache,
                ..old(self)@
            }),
            final(self)@.bg_pattern.len() == 4,
            final(self)@.bg_cache.len() == 4,
            ({
                let p = old(self)@.bg_pattern[bg as int];
                let q = final(self)@.bg_pattern[bg as int];
                let redo = remake || mem@.vram.region_dirty(p.start_addr);
                &&& q.bits_per_pixel == p.bits_per_pixel
                &&& q.start_addr == p.start_addr
                &&& q.end_addr == p.end_addr
                &&& q.tiles.len() == p.tiles.len()
                &&& q.wf()
                &&& if redo {
                    forall|t: int|
                        0 <= t < q.tiles.len() ==> tile_decoded(
                            #[trigger] q.tiles[t],
                            mem@.vram.data,
                            p.start_addr as int,
                            p.bits_per_pixel.spec_bits(),
                            t,
                        )
                } else {
                    q == p
                }
                &&& final(self)@.bg_cache[bg as int] == (BGCacheView {
                    data: construct_data(old(self)@.bg_cache[bg as int], q, mem@.vram, redo),
                    ..old(self)@.bg_cache[bg as int]
                })
            }),
            forall|j: int| 0 <= j < 4 && j != bg ==> #[trigger] final(self)@.bg_pattern[j] == old(self)@.bg_pattern[j],
            forall|j: int| 0 <= j < 4 && j != bg ==> #[trigger] final(self)@.bg_cache[j] == old(self)@.bg_cache[j],
    {
        let ghost p = old(self)@.bg_pattern[bg as int];
        assert(self.bg_pattern_mem@[bg as int]@ == p);
        let start = self.bg_pattern_mem[bg].get_start_addr();
        let redo = remake || mem.vram_dirty_range(start);
        if redo {
            self.bg_pattern_mem[bg].make_tiles(mem.get_vram());
        }
        let ghost q = self.bg_pattern_mem@[bg as int]@;
        let ghost c = old(self)@.bg_cache[bg as int];
        assert(self.bg_cache@[bg as int]@ == c);
        assert(c.wf());
        self.bg_cache[bg].construct(&self.bg_pattern_mem[bg], mem, redo);
        proof {
            assert(self@.bg_cache[bg as int] == self.bg_cache@[bg as int]@);
            assert(self@.bg_pattern[bg as int] == self.bg_pattern_mem@[bg as int]@);
            assert forall|j: int| 0 <= j < 4 && j != bg implies #[trigger] self@.bg_pattern[j] == old(self)@.bg_pattern[j]
                && self@.bg_cache[j] == old(self)@.bg_cache[j] by {
                assert(self.bg_pattern_mem@[j] == old(self).bg_pattern_mem@[j]);
                assert(self.bg_cache@[j] == old(self).bg_cache@[j]);
            }
            assert forall|k: int| 0 <= k < 4 implies (#[trigger] self@.bg_cache[k]).wf() by {
                if k != bg {
                    assert(old(self)@.bg_cache[k].wf());
                }
            }
            assert forall|k: int| 0 <= k < 4 && #[trigger] self@.bg_pattern[k].start_addr != u16::MAX implies self@.bg_pattern[k].wf() by {
                if k != bg {
                    assert(self@.bg_pattern[k] == old(self)@.bg_pattern[k]);
                }
            }
            assert(self@.bg_pattern[bg as int].wf());
            assert forall|k: int, t: int|
                0 <= k < 4 && 0 <= t < self@.bg_pattern[k].tiles.len() implies (#[trigger] self@.bg_pattern[k].tiles[t]).len() == 64 by {
                if k != bg {
                    assert(self@.bg_pattern[k] == old(self)@.bg_pattern[k]);
                    assert(old(self)@.bg_pattern[k].tiles[t].len() == 64);
                }
            }
            assert(self@.obj_pattern == old(self)@.obj_pattern);
            assert(self@.palettes == old(self)@.palettes);
        }
    }
}

/// Background `bg`'s pattern memory `q` pointed at `addr` from `p`: moved
/// there, with `height` rows, when it was elsewhere.
pub open spec fn bg_pattern_pointed(p: PatternMemView, q: PatternMemView, addr: u16, height: u32) -> bool {
    &&& q.bits_per_pixel == p.bits_per_pixel
    &&& q.start_addr == addr
    &&& q.wf()
    &&& (p.start_addr != addr ==> q.tiles.len() == 16 * height)
    &&& (p.start_addr == addr ==> q == p)
}

/// Background `bg`'s pattern memory `q` and cache `c2` after reading them
/// again from `p` and `c`, when `redo`, or where VRAM was written.
pub open spec fn bg_refreshed(p: PatternMemView, q: PatternMemView, c: BGCacheView, c2: BGCacheView, redo: bool, vram: VRAMView) -> bool {
    &&& q.bits_per_pixel == p.bits_per_pixel
    &&& q.start_addr == p.start_addr
    &&& q.end_addr == p.end_addr
    &&& q.tiles.len() == p.tiles.len()
    &&& q.wf()
    &&& if redo {
        forall|t: int|
            0 <= t < q.tiles.len() ==> tile_decoded(#[trigger] q.tiles[t], vram.data, p.start_addr as int, p.bits_per_pixel.spec_bits(), t)
    } else {
        q == p
    }
    &&& c2 == (BGCacheView { data: construct_data(c, q, vram, redo), ..c })
}

impl Renderer {
    /// Point the active backgrounds' pattern memories and caches at what
    /// the registers say; whether the layout of VRAM changed.
    fn prepare_bgs(&mut self, mem: &VideoMem) -> (remake: bool)
        requires
            old(self)@.wf(),
            forall|bg: int| 0 <= bg < bgs_of(old(self)@.mode) ==> #[trigger] bg_setup_ok(old(self)@, mem@.registers, bg),
        ensures
            final(self)@.wf(),
            remake == layout_changes(old(self)@, mem@.registers),
            final(self)@ == (RendererView {
                bg_pattern: final(self)@.bg_pattern,
                bg_cache: final(self)@.bg_cache,
                ..old(self)@
            }),
            forall|bg: int|
                0 <= bg < 4 ==> if bg < bgs_of(old(self)@.mode) {
                    &&& #[trigger] final(self)@.bg_cache[bg] == cache_for(old(self)@, mem@.registers, bg)
                    &&& bg_pattern_pointed(
                        old(self)@.bg_pattern[bg],
                        final(self)@.bg_pattern[bg],
                        bg_char_addr(mem@.registers, bg),
                        bg_height(old(self)@, mem@.registers, bg),
                    )
                } else {
                    final(self)@.bg_cache[bg] == old(self)@.bg_cache[bg] && final(self)@.bg_pattern[bg] == old(self)@.bg_pattern[bg]
                },
    {
        let ghost v = old(self)@;
        let ghost r = mem@.registers;
        let n = self.num_bgs();
        let c0 = self.prepare_bg(0, mem);
        let ghost v1 = self@;
        assert(v1.bg_pattern[1] == v.bg_pattern[1]);
        assert(v1.bg_cache[1] == v.bg_cache[1]);
        assert(bg_setup_ok(v, r, 1));
        let c1 = self.prepare_bg(1, mem);
        let ghost v2 = self@;
        let c2 = if n > 2 {
            assert(v2.bg_pattern[2] == v.bg_pattern[2]);
            assert(v2.bg_cache[2] == v.bg_cache[2]);
            assert(bg_setup_ok(v, r, 2));
            self.prepare_bg(2, mem)
        } else {
            false
        };
        let ghost v3 = self@;
        let c3 = if n > 3 {
            assert(v3.bg_pattern[3] == v.bg_pattern[3]);
            assert(v3.bg_cache[3] == v.bg_cache[3]);
            assert(bg_setup_ok(v, r, 3));
            self.prepare_bg(3, mem)
        } else {
            false
        };
        let regs = mem.get_registers();
        let a0 = regs.obj_0_pattern_addr();
        let an = regs.obj_n_pattern_addr();
        proof {
            assert(self.obj_pattern_mem@[0]@ == self@.obj_pattern[0]);
            assert(self.obj_pattern_mem@[1]@ == self@.obj_pattern[1]);
        }
        let moved0 = self.obj_pattern_mem[0].get_start_addr() != a0;
        let moved1 = self.obj_pattern_mem[1].get_start_addr() != an;
        c0 || c1 || c2 || c3 || moved0 || moved1
    }

    /// Read the active backgrounds' pattern tables and maps again, all of
    /// them when `remake`, else those whose VRAM was written.
    fn refresh_bgs(&mut self, mem: &VideoMem, remake: bool)
        requires
            old(self)@.wf(),
            mem@.wf(),
            forall|bg: int|
                0 <= bg < bgs_of(old(self)@.mode) ==> (#[trigger] old(self)@.bg_pattern[bg]).wf()
                    && old(self)@.bg_cache[bg].start_addr + map_extent(old(self)@.bg_cache[bg].bg_reg.bits) <= u16::MAX,
        ensures
            final(self)@.wf(),
            final(self)@ == (RendererView {
                bg_pattern: final(self)@.bg_pattern,
                bg_cache: final(self)@.bg_cache,
                ..old(self)@
            }),
            forall|bg: int|
                0 <= bg < 4 ==> if bg < bgs_of(old(self)@.mode) {
                    bg_refreshed(
                        old(self)@.bg_pattern[bg],
                        #[trigger] final(self)@.bg_pattern[bg],
                        old(self)@.bg_cache[bg],
                        final(self)@.bg_cache[bg],
                        remake || mem@.vram.region_dirty(old(self)@.bg_pattern[bg].start_addr),
                        mem@.vram,
                    )
                } else {
                    final(self)@.bg_cache[bg] == old(self)@.bg_cache[bg] && final(self)@.bg_pattern[bg] == old(self)@.bg_pattern[bg]
                },
    {
        let ghost v = old(self)@;
        let n = self.num_bgs();
        assert(v.bg_pattern[0].wf());
        self.refresh_bg(0, mem, remake);
        let ghost v1 = self@;
        assert(v1.bg_pattern[1] == v.bg_pattern[1]);
        assert(v1.bg_cache[1] == v.bg_cache[1]);
        assert(v.bg_pattern[1].wf());
        self.refresh_bg(1, mem, remake);
        let ghost v2 = self@;
        if n > 2 {
            assert(v2.bg_pattern[2] == v.bg_pattern[2]);
            assert(v2.bg_cache[2] == v.bg_cache[2]);
            assert(v.bg_pattern[2].wf());
            self.refresh_bg(2, mem, remake);
        }
        let ghost v3 = self@;
        if n > 3 {
            assert(v3.bg_pattern[3] == v.bg_pattern[3]);
            assert(v3.bg_cache[3] == v.bg_cache[3]);
            assert(v.bg_pattern[3].wf());
            self.refresh_bg(3, mem, remake);
        }
    }

    /// Make the caches follow video memory before a frame is drawn: switch
    /// to the registers' video mode, point each active background's pattern
    /// memory and map cache, and both sprite tables, at what the registers
    /// say; when any of them changed, the layout of VRAM changed and every
    /// table and map is read again, otherwise those whose VRAM was written;
    /// then decode the palettes whose part of CGRAM changed.
    pub fn setup_caches(&mut self, mem: &VideoMem)
        requires
            old(self)@.wf(),
            mem@.wf(),
            setup_ok(old(self)@, mem@.registers),
        ensures
            final(self)@.wf(),
            final(self)@.obj_ready(),
            ({
                let r = mem@.registers;
                let v = with_mode(old(self)@, mode_of(r));
                let all = layout_changes(v, r);
                &&& final(self)@.mode == mode_of(r)
                &&& forall|bg: int|
                    0 <= bg < 4 ==> if bg < bgs_of(v.mode) {
                        let addr = bg_char_addr(r, bg);
                        let redo = all || mem@.vram.region_dirty(addr);
                        &&& bg_pattern_after(
                            v.bg_pattern[bg],
                            #[trigger] final(self)@.bg_pattern[bg],
                            addr,
                            bg_height(v, r, bg),
                            redo,
                            mem@.vram.data,
                        )
                        &&& final(self)@.bg_cache[bg] == (BGCacheView {
                            data: construct_data(cache_for(v, r, bg), final(self)@.bg_pattern[bg], mem@.vram, redo),
                            ..cache_for(v, r, bg)
                        })
                    } else {
                        final(self)@.bg_pattern[bg] == v.bg_pattern[bg] && final(self)@.bg_cache[bg] == v.bg_cache[bg]
                    }
                &&& obj_table_setup(
                    v.obj_pattern[0],
                    final(self)@.obj_pattern[0],
                    obj0_addr_spec(r),
                    mem@.vram.data,
                    all || mem@.vram.region_dirty(obj0_addr_spec(r)),
                )
                &&& obj_table_setup(
                    v.obj_pattern[1],
                    final(self)@.obj_pattern[1],
                    objn_addr_spec(r),
                    mem@.vram.data,
                    all || mem@.vram.region_dirty(objn_addr_spec(r)),
                )
                &&& forall|c: int|
                    0 <= c < 256 ==> #[trigger] final(self)@.palettes[c] == if c < 128 {
                        if mem@.cgram.bg_dirty { cgram_colour(mem@.cgram.data, c) } else { old(self)@.palettes[c] }
                    } else {
                        if mem@.cgram.obj_dirty { cgram_colour(mem@.cgram.data, c) } else { old(self)@.palettes[c] }
                    }
            }),
    {
        let regs = mem.get_registers();
        let ghost r = mem@.registers;
        let mode = VideoMode::from_bits(regs.get_mode());
        if mode != self.mode {
            self.switch_mode(mode);
        }
        let ghost v = self@;
        assert(v == with_mode(old(self)@, mode_of(r)));
        let remake = self.prepare_bgs(mem);
        let ghost p = self@;
        proof {
            assert forall|bg: int| 0 <= bg < bgs_of(p.mode) implies (#[trigger] p.bg_pattern[bg]).wf()
                && p.bg_cache[bg].start_addr + map_extent(p.bg_cache[bg].bg_reg.bits) <= u16::MAX by {
                assert(p.mode == v.mode);
                assert(bg_setup_ok(with_mode(old(self)@, mode_of(r)), r, bg));
                assert(bg_setup_ok(v, r, bg));
                assert(p.bg_cache[bg] == cache_for(v, r, bg));
                assert(bg_pattern_pointed(v.bg_pattern[bg], p.bg_pattern[bg], bg_char_addr(r, bg), bg_height(v, r, bg)));
            }
        }
        self.refresh_bgs(mem, remake);
        let ghost q = self@;
        let a0 = regs.obj_0_pattern_addr();
        let an = regs.obj_n_pattern_addr();
        proof {
            assert(obj0_addr_spec(r) <= 0xE000);
        }
        self.setup_obj_table(0, a0, mem, remake);
        self.setup_obj_table(1, an, mem, remake);
        if mem.is_cgram_dirty() {
            self.palettes.make_bg_palette(mem);
        }
        if mem.is_cgram_obj_dirty() {
            self.palettes.make_obj_palette(mem);
        }
        proof {
            assert(self@.bg_pattern == q.bg_pattern);
            assert(self@.bg_cache == q.bg_cache);
            assert forall|bg: int| 0 <= bg < 4 && bg < bgs_of(v.mode) implies bg_pattern_after(
                v.bg_pattern[bg],
                #[trigger] self@.bg_pattern[bg],
                bg_char_addr(r, bg),
                bg_height(v, r, bg),
                remake || mem@.vram.region_dirty(bg_char_addr(r, bg)),
                mem@.vram.data,
            ) by {
                assert(bg_pattern_pointed(v.bg_pattern[bg], p.bg_pattern[bg], bg_char_addr(r, bg), bg_height(v, r, bg)));
                assert(p.bg_pattern[bg].start_addr == bg_char_addr(r, bg));
                if v.bg_pattern[bg].start_addr != bg_char_addr(r, bg) {
                    assert(bg_changes(v, r, bg));
                }
            }
        }
    }
}

} // verus!
