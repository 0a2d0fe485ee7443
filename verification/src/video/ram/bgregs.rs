//! Video registers for background settings (second layout, with per-BG
//! accessors, map mirroring and mosaic).
use vstd::prelude::*;
use crate::bits::{make16, hi16, lemma_u8_low_masks, lemma_u16_low_masks};
use super::borders::{strictly_sorted, insert_sorted, find_region_end, region_end};

verus! {

pub const PATTERN_MAX_HEIGHT: u32 = 64;
pub const BG_SCROLL_MASK: u16 = 0x3FF;
/// Sub-map size (32x32 tiles of 2 bytes).
pub const SUB_MAP_SIZE: u16 = 32 * 32 * 2;

// Object settings bits.
pub const OBJ_SIZE: u8 = 0xE0;
pub const OBJ_SELECT: u8 = 0x18;
pub const OBJ_BASE: u8 = 0x07;

// BG mode bits.
pub const BG4_TILE_SIZE: u8 = 0x80;
pub const BG3_TILE_SIZE: u8 = 0x40;
pub const BG2_TILE_SIZE: u8 = 0x20;
pub const BG1_TILE_SIZE: u8 = 0x10;
pub const BG3_PRIORITY: u8 = 0x08;
pub const BG_MODE: u8 = 0x07;

// Mosaic bits.
pub const MOSAIC_PIXEL_SIZE: u8 = 0xF0;

/// A background settings register: map address (bits 7-2) and the
/// mirroring of the map in Y (bit 1) and X (bit 0).
#[derive(Clone, Copy, PartialEq, Eq, Structural)]
pub struct BGReg {
    pub bits: u8,
}

pub const BGREG_ADDR: u8 = 0xFC;
pub const BGREG_MIRROR_Y: u8 = 0x02;
pub const BGREG_MIRROR_X: u8 = 0x01;

/// Combination of mirror X and Y.
pub enum MapMirror {
    Neither,
    X,
    Y,
    Both,
}

impl MapMirror {
    /// The mirroring selected by a settings register.
    pub fn from_reg(val: BGReg) -> (r: MapMirror)
        ensures
            r == (if val.bits % 4 == 0 {
                MapMirror::Neither
            } else if val.bits % 4 == 1 {
                MapMirror::X
            } else if val.bits % 4 == 2 {
                MapMirror::Y
            } else {
                MapMirror::Both
            }),
    {
        proof {
            lemma_u8_low_masks(val.bits);
        }
        let m = val.bits & 0x3;
        if m == 0 {
            MapMirror::Neither
        } else if m == 1 {
            MapMirror::X
        } else if m == 2 {
            MapMirror::Y
        } else {
            MapMirror::Both
        }
    }
}

/// The register values.
pub struct BGRegistersView {
    pub screen_display: u8,
    pub object_settings: u8,
    pub bg_mode: u8,
    pub mosaic_settings: u8,
    pub bg1_settings: u8,
    pub bg2_settings: u8,
    pub bg3_settings: u8,
    pub bg4_settings: u8,
    pub bg12_char_addr: u8,
    pub bg34_char_addr: u8,
    pub bg1_scroll_x: u16,
    pub bg1_scroll_y: u16,
    pub bg2_scroll_x: u16,
    pub bg2_scroll_y: u16,
    pub bg3_scroll_x: u16,
    pub bg3_scroll_y: u16,
    pub bg4_scroll_x: u16,
    pub bg4_scroll_y: u16,
}

pub struct Registers {
    screen_display: u8,
    object_settings: u8,
    bg_mode: u8,
    mosaic_settings: u8,
    bg1_settings: u8,
    bg2_settings: u8,
    bg3_settings: u8,
    bg4_settings: u8,
    pub bg12_char_addr: u8,
    pub bg34_char_addr: u8,
    bg1_scroll_x: u16,
    bg1_scroll_y: u16,
    bg2_scroll_x: u16,
    bg2_scroll_y: u16,
    bg3_scroll_x: u16,
    bg3_scroll_y: u16,
    bg4_scroll_x: u16,
    bg4_scroll_y: u16,
}

impl View for Registers {
    type V = BGRegistersView;

    closed spec fn view(&self) -> BGRegistersView {
        BGRegistersView {
            screen_display: self.screen_display,
            object_settings: self.object_settings,
            bg_mode: self.bg_mode,
            mosaic_settings: self.mosaic_settings,
            bg1_settings: self.bg1_settings,
            bg2_settings: self.bg2_settings,
            bg3_settings: self.bg3_settings,
            bg4_settings: self.bg4_settings,
            bg12_char_addr: self.bg12_char_addr,
            bg34_char_addr: self.bg34_char_addr,
            bg1_scroll_x: self.bg1_scroll_x,
            bg1_scroll_y: self.bg1_scroll_y,
            bg2_scroll_x: self.bg2_scroll_x,
            bg2_scroll_y: self.bg2_scroll_y,
            bg3_scroll_x: self.bg3_scroll_x,
            bg3_scroll_y: self.bg3_scroll_y,
            bg4_scroll_x: self.bg4_scroll_x,
            bg4_scroll_y: self.bg4_scroll_y,
        }
    }
}

/// A scroll register after a write: the written byte becomes the high byte,
/// the previous high byte moves down.
pub open spec fn scroll_write(old: u16, data: u8) -> u16 {
    (data * 256 + old / 256) as u16
}

/// Settings register of background `bg` (0-3).
pub open spec fn bg_settings_spec(v: BGRegistersView, bg: int) -> u8 {
    if bg == 0 {
        v.bg1_settings
    } else if bg == 1 {
        v.bg2_settings
    } else if bg == 2 {
        v.bg3_settings
    } else {
        v.bg4_settings
    }
}

/// Character nybble of background `bg` (0-3).
pub open spec fn char_nybble_spec(v: BGRegistersView, bg: int) -> u8 {
    if bg == 0 {
        v.bg12_char_addr % 16
    } else if bg == 1 {
        v.bg12_char_addr / 16
    } else if bg == 2 {
        v.bg34_char_addr % 16
    } else {
        v.bg34_char_addr / 16
    }
}

pub open spec fn scroll_x_spec(v: BGRegistersView, bg: int) -> u16 {
    if bg == 0 {
        v.bg1_scroll_x
    } else if bg == 1 {
        v.bg2_scroll_x
    } else if bg == 2 {
        v.bg3_scroll_x
    } else {
        v.bg4_scroll_x
    }
}

pub open spec fn scroll_y_spec(v: BGRegistersView, bg: int) -> u16 {
    if bg == 0 {
        v.bg1_scroll_y
    } else if bg == 1 {
        v.bg2_scroll_y
    } else if bg == 2 {
        v.bg3_scroll_y
    } else {
        v.bg4_scroll_y
    }
}

/// Character base of a background: 8kB steps, modulo 64kB.
pub open spec fn char_addr_spec(nybble: u8) -> u16 {
    ((nybble * 0x2000) % 0x10000) as u16
}

/// Tile map base: bits 7-2 of the settings in 2kB steps, modulo 64kB.
pub open spec fn map_addr_spec(settings: u8) -> u16 {
    (((settings / 4) * 0x800) % 0x10000) as u16
}

/// First sprite pattern table: 16kB steps, modulo 64kB.
pub open spec fn obj0_addr_spec(v: BGRegistersView) -> u16 {
    (((v.object_settings % 8) * 0x4000) % 0x10000) as u16
}

/// Second sprite pattern table: (select + 1) 8kB steps after the first,
/// modulo 64kB.
pub open spec fn objn_addr_spec(v: BGRegistersView) -> u16 {
    ((obj0_addr_spec(v) + (((v.object_settings / 8) % 4 + 1) * 0x2000)) % 0x10000) as u16
}

/// The borders contributed by one background's tile map: its start, and the
/// starts of the extra sub-maps its mirroring uses (modulo 64kB).
pub open spec fn map_borders_spec(start: u16, settings: u8) -> Set<u16> {
    let m = settings % 4;
    let b = ((start + SUB_MAP_SIZE) % 0x10000) as u16;
    let c = ((start + SUB_MAP_SIZE * 2) % 0x10000) as u16;
    let d = ((start + SUB_MAP_SIZE * 3) % 0x10000) as u16;
    if m == 0 {
        set![start]
    } else if m == 1 || m == 2 {
        set![start, b]
    } else {
        set![start, b, c, d]
    }
}

/// The VRAM borders: both sprite tables, then map and characters of each
/// background in use (BG1 and BG2 always, BG3 in modes 0-1, BG4 in mode 0).
#[verifier::opaque]
pub open spec fn borders_spec(v: BGRegistersView) -> Set<u16> {
    let mode = v.bg_mode % 8;
    let bg = |i: int|
        map_borders_spec(map_addr_spec(bg_settings_spec(v, i)), bg_settings_spec(v, i)).insert(
            char_addr_spec(char_nybble_spec(v, i)),
        );
    let base = set![obj0_addr_spec(v), objn_addr_spec(v)] + bg(0) + bg(1);
    let with3 = if mode == 0 || mode == 1 { base + bg(2) } else { base };
    if mode == 0 { with3 + bg(3) } else { with3 }
}

/// The VRAM borders hold both sprite tables, and the tile map (with the
/// sub-maps its mirroring adds) and characters of BG1 and BG2, of BG3 in
/// modes 0 and 1, and of BG4 in mode 0.
pub proof fn lemma_borders_hold_tables(v: BGRegistersView, bg: int)
    requires
        0 <= bg < 4,
        bg >= 2 ==> v.bg_mode % 8 <= 1,
        bg == 3 ==> v.bg_mode % 8 == 0,
    ensures
        borders_spec(v).contains(obj0_addr_spec(v)),
        borders_spec(v).contains(objn_addr_spec(v)),
        borders_spec(v).contains(char_addr_spec(char_nybble_spec(v, bg))),
        map_borders_spec(map_addr_spec(bg_settings_spec(v, bg)), bg_settings_spec(v, bg)).subset_of(borders_spec(v)),
{
    reveal(borders_spec);
}

/// Height in tiles of the pattern table at `addr`, at most 64.
pub open spec fn pattern_height_spec(v: BGRegistersView, addr: u16, bpp: u32) -> u32 {
    let rows = (region_end(borders_spec(v), addr) - addr) / (16 * 8 * bpp as int);
    if rows < PATTERN_MAX_HEIGHT { rows as u32 } else { PATTERN_MAX_HEIGHT }
}

impl Registers {
    pub fn new() -> (r: Self)
        ensures
            r@ == (BGRegistersView {
                screen_display: 0,
                object_settings: 0,
                bg_mode: 0,
                mosaic_settings: 0,
                bg1_settings: 0,
                bg2_settings: 0,
                bg3_settings: 0,
                bg4_settings: 0,
                bg12_char_addr: 0,
                bg34_char_addr: 0,
                bg1_scroll_x: 0,
                bg1_scroll_y: 0,
                bg2_scroll_x: 0,
                bg2_scroll_y: 0,
                bg3_scroll_x: 0,
                bg3_scroll_y: 0,
                bg4_scroll_x: 0,
                bg4_scroll_y: 0,
            }),
    {
        Registers {
            screen_display: 0,
            object_settings: 0,
            bg_mode: 0,
            mosaic_settings: 0,
            bg1_settings: 0,
            bg2_settings: 0,
            bg3_settings: 0,
            bg4_settings: 0,
            bg12_char_addr: 0,
            bg34_char_addr: 0,
            bg1_scroll_x: 0,
            bg1_scroll_y: 0,
            bg2_scroll_x: 0,
            bg2_scroll_y: 0,
            bg3_scroll_x: 0,
            bg3_scroll_y: 0,
            bg4_scroll_x: 0,
            bg4_scroll_y: 0,
        }
    }

    pub fn set_screen_display(&mut self, data: u8)
        ensures
            final(self)@ == (BGRegistersView { screen_display: data, ..old(self)@ }),
    {
        self.screen_display = data;
    }

    pub fn set_object_settings(&mut self, data: u8)
        ensures
            final(self)@ == (BGRegistersView { object_settings: data, ..old(self)@ }),
    {
        self.object_settings = data;
    }

    pub fn set_bg_mode(&mut self, data: u8)
        ensures
            final(self)@ == (BGRegistersView { bg_mode: data, ..old(self)@ }),
    {
        self.bg_mode = data;
    }

    pub fn set_mosaic(&mut self, data: u8)
        ensures
            final(self)@ == (BGRegistersView { mosaic_settings: data, ..old(self)@ }),
    {
        self.mosaic_settings = data;
    }

    pub fn set_bg1_scroll_x(&mut self, data: u8)
        ensures
            final(self)@ == (BGRegistersView { bg1_scroll_x: scroll_write(old(self)@.bg1_scroll_x, data), ..old(self)@ }),
    {
        self.bg1_scroll_x = make16(data, hi16(self.bg1_scroll_x));
    }

    pub fn set_bg1_scroll_y(&mut self, data: u8)
        ensures
            final(self)@ == (BGRegistersView { bg1_scroll_y: scroll_write(old(self)@.bg1_scroll_y, data), ..old(self)@ }),
    {
        self.bg1_scroll_y = make16(data, hi16(self.bg1_scroll_y));
    }

    pub fn set_bg2_scroll_x(&mut self, data: u8)
        ensures
            final(self)@ == (BGRegistersView { bg2_scroll_x: scroll_write(old(self)@.bg2_scroll_x, data), ..old(self)@ }),
    {
        self.bg2_scroll_x = make16(data, hi16(self.bg2_scroll_x));
    }

    pub fn set_bg2_scroll_y(&mut self, data: u8)
        ensures
            final(self)@ == (BGRegistersView { bg2_scroll_y: scroll_write(old(self)@.bg2_scroll_y, data), ..old(self)@ }),
    {
        self.bg2_scroll_y = make16(data, hi16(self.bg2_scroll_y));
    }

    pub fn set_bg3_scroll_x(&mut self, data: u8)
        ensures
            final(self)@ == (BGRegistersView { bg3_scroll_x: scroll_write(old(self)@.bg3_scroll_x, data), ..old(self)@ }),
    {
        self.bg3_scroll_x = make16(data, hi16(self.bg3_scroll_x));
    }

    pub fn set_bg3_scroll_y(&mut self, data: u8)
        ensures
            final(self)@ == (BGRegistersView { bg3_scroll_y: scroll_write(old(self)@.bg3_scroll_y, data), ..old(self)@ }),
    {
        self.bg3_scroll_y = make16(data, hi16(self.bg3_scroll_y));
    }

    pub fn set_bg4_scroll_x(&mut self, data: u8)
        ensures
            final(self)@ == (BGRegistersView { bg4_scroll_x: scroll_write(old(self)@.bg4_scroll_x, data), ..old(self)@ }),
    {
        self.bg4_scroll_x = make16(data, hi16(self.bg4_scroll_x));
    }

    pub fn set_bg4_scroll_y(&mut self, data: u8)
        ensures
            final(self)@ == (BGRegistersView { bg4_scroll_y: scroll_write(old(self)@.bg4_scroll_y, data), ..old(self)@ }),
    {
        self.bg4_scroll_y = make16(data, hi16(self.bg4_scroll_y));
    }

    pub fn set_bg1_settings(&mut self, data: u8)
        ensures
            final(self)@ == (BGRegistersView { bg1_settings: data, ..old(self)@ }),
    {
        self.bg1_settings = data;
    }

    pub fn set_bg2_settings(&mut self, data: u8)
        ensures
            final(self)@ == (BGRegistersView { bg2_settings: data, ..old(self)@ }),
    {
        self.bg2_settings = data;
    }

    pub fn set_bg3_settings(&mut self, data: u8)
        ensures
            final(self)@ == (BGRegistersView { bg3_settings: data, ..old(self)@ }),
    {
        self.bg3_settings = data;
    }

    pub fn set_bg4_settings(&mut self, data: u8)
        ensures
            final(self)@ == (BGRegistersView { bg4_settings: data, ..old(self)@ }),
    {
        self.bg4_settings = data;
    }

    // Getters for the renderer.
    pub fn get_screen_display(&self) -> (r: u8)
        ensures
            r == self@.screen_display,
    {
        self.screen_display
    }

    pub fn get_mode(&self) -> (r: u8)
        ensures
            r == self@.bg_mode % 8,
    {
        proof {
            lemma_u8_low_masks(self.bg_mode);
        }
        self.bg_mode & BG_MODE
    }

    pub fn get_bg3_priority(&self) -> (r: bool)
        ensures
            r == (self@.bg_mode & BG3_PRIORITY != 0),
    {
        self.bg_mode & BG3_PRIORITY != 0
    }

    pub fn get_object_settings(&self) -> (r: u8)
        ensures
            r == self@.object_settings,
    {
        self.object_settings
    }

    pub fn obj0_pattern_addr(&self) -> (r: u16)
        ensures
            r == obj0_addr_spec(self@),
    {
        proof {
            lemma_u8_low_masks(self.object_settings);
        }
        let base = (self.object_settings & OBJ_BASE) as u32;
        ((base * 0x4000) % 0x10000) as u16
    }

    pub fn objn_pattern_addr(&self) -> (r: u16)
        ensures
            r == objn_addr_spec(self@),
    {
        let os = self.object_settings;
        proof {
            lemma_u8_low_masks(os);

        }
        let base = (os & OBJ_BASE) as u32;
        let table = (((os & OBJ_SELECT) >> 3) as u32) + 1;
        ((((base * 0x4000) % 0x10000) + table * 0x2000) % 0x10000) as u16
    }

    pub fn get_bg_settings(&self, bg: usize) -> (r: BGReg)
        requires
            bg < 4,
        ensures
            r.bits == bg_settings_spec(self@, bg as int),
    {
        if bg == 0 {
            BGReg { bits: self.bg1_settings }
        } else if bg == 1 {
            BGReg { bits: self.bg2_settings }
        } else if bg == 2 {
            BGReg { bits: self.bg3_settings }
        } else {
            BGReg { bits: self.bg4_settings }
        }
    }

    pub fn bg_pattern_addr(&self, bg: usize) -> (r: u16)
        requires
            bg < 4,
        ensures
            r == char_addr_spec(char_nybble_spec(self@, bg as int)),
    {
        proof {
            lemma_u8_low_masks(self.bg12_char_addr);
            lemma_u8_low_masks(self.bg34_char_addr);
        }
        let nybble = if bg == 0 {
            self.bg12_char_addr & 0xF
        } else if bg == 1 {
            self.bg12_char_addr >> 4
        } else if bg == 2 {
            self.bg34_char_addr & 0xF
        } else {
            self.bg34_char_addr >> 4
        };
        (((nybble as u32) * 0x2000) % 0x10000) as u16
    }

    pub fn bg_map_addr(&self, bg: usize) -> (r: u16)
        requires
            bg < 4,
        ensures
            r == map_addr_spec(bg_settings_spec(self@, bg as int)),
    {
        let s = self.get_bg_settings(bg).bits;
        let masked = s & BGREG_ADDR;
        proof {
            lemma_u8_low_masks(s);
        }
        (((masked as u32) * 0x200) % 0x10000) as u16
    }

    pub fn bg_large_tiles(&self, bg: usize) -> (r: bool)
        requires
            bg < 4,
        ensures
            r == (self@.bg_mode & (if bg == 0 {
                BG1_TILE_SIZE
            } else if bg == 1 {
                BG2_TILE_SIZE
            } else if bg == 2 {
                BG3_TILE_SIZE
            } else {
                BG4_TILE_SIZE
            }) != 0),
    {
        if bg == 0 {
            self.bg_mode & BG1_TILE_SIZE != 0
        } else if bg == 1 {
            self.bg_mode & BG2_TILE_SIZE != 0
        } else if bg == 2 {
            self.bg_mode & BG3_TILE_SIZE != 0
        } else {
            self.bg_mode & BG4_TILE_SIZE != 0
        }
    }

    pub fn get_bg_scroll_x(&self, bg: usize) -> (r: u16)
        requires
            bg < 4,
        ensures
            r == scroll_x_spec(self@, bg as int) % 0x400,
    {
        let s = if bg == 0 {
            self.bg1_scroll_x
        } else if bg == 1 {
            self.bg2_scroll_x
        } else if bg == 2 {
            self.bg3_scroll_x
        } else {
            self.bg4_scroll_x
        };
        proof {
            lemma_u16_low_masks(s);
        }
        s & BG_SCROLL_MASK
    }

    pub fn get_bg_scroll_y(&self, bg: usize) -> (r: u16)
        requires
            bg < 4,
        ensures
            r == scroll_y_spec(self@, bg as int) % 0x400,
    {
        let s = if bg == 0 {
            self.bg1_scroll_y
        } else if bg == 1 {
            self.bg2_scroll_y
        } else if bg == 2 {
            self.bg3_scroll_y
        } else {
            self.bg4_scroll_y
        };
        proof {
            lemma_u16_low_masks(s);
        }
        s & BG_SCROLL_MASK
    }

    /// Mosaic applies to a background when its enable bit (bit `bg`) is set
    /// and the pixel size is not zero.
    pub fn bg_mosaic_enabled(&self, bg: usize) -> (r: bool)
        requires
            bg < 4,
        ensures
            r == (self@.mosaic_settings & (if bg == 0 {
                1u8
            } else if bg == 1 {
                2u8
            } else if bg == 2 {
                4u8
            } else {
                8u8
            }) != 0 && self@.mosaic_settings >= 16),
    {
        let m = self.mosaic_settings;
        let empty_mask = (m & MOSAIC_PIXEL_SIZE) == 0;
        proof {
            lemma_u8_low_masks(m);
        }
        if bg == 0 {
            m & 1 != 0 && !empty_mask
        } else if bg == 1 {
            m & 2 != 0 && !empty_mask
        } else if bg == 2 {
            m & 4 != 0 && !empty_mask
        } else {
            m & 8 != 0 && !empty_mask
        }
    }

    /// Size of the mosaic blocks in pixels (1-16).
    pub fn bg_mosaic_mask(&self) -> (r: u8)
        ensures
            r == self@.mosaic_settings / 16 + 1,
    {
        proof {
            lemma_u8_low_masks(self.mosaic_settings);

        }
        ((self.mosaic_settings & MOSAIC_PIXEL_SIZE) >> 4) + 1
    }

    /// Forced blanking: bit 7 of the screen display register.
    pub fn in_fblank(&self) -> (r: bool)
        ensures
            r == (self@.screen_display >= 0x80),
    {
        proof {
            lemma_u8_low_masks(self.screen_display);
        }
        self.screen_display & 0x80 != 0
    }
}

// More complex methods called from renderer.
impl Registers {
    /// Height of the pattern table starting at `pattern_addr`, in tiles.
    pub fn get_pattern_table_height(&self, pattern_addr: u16, bits_per_pixel: u32) -> (r: u32)
        requires
            0 < bits_per_pixel,
            16 * 8 * bits_per_pixel <= u32::MAX,
        ensures
            r == pattern_height_spec(self@, pattern_addr, bits_per_pixel),
    {
        let borders = self.get_vram_borders();
        let end_addr = find_region_end(&borders, pattern_addr);
        let divisor = 16 * 8 * bits_per_pixel;
        assert(divisor > 0) by (nonlinear_arith)
            requires
                divisor == 16 * 8 * bits_per_pixel,
                bits_per_pixel > 0,
        ;
        let height = (end_addr - pattern_addr as u32) / divisor;
        if height < PATTERN_MAX_HEIGHT {
            height
        } else {
            PATTERN_MAX_HEIGHT
        }
    }

    /// Starting locations of each block of VRAM, in increasing order.
    pub fn get_vram_borders(&self) -> (r: Vec<u16>)
        ensures
            strictly_sorted(r@),
            r@.to_set() == borders_spec(self@),
    {
        let mode = self.get_mode();
        let mut borders: Vec<u16> = Vec::new();
        insert_sorted(&mut borders, self.obj0_pattern_addr());
        insert_sorted(&mut borders, self.objn_pattern_addr());
        let ghost s0 = borders@.to_set();
        self.set_bg_borders(&mut borders, self.bg_map_addr(0), self.get_bg_settings(0));
        insert_sorted(&mut borders, self.bg_pattern_addr(0));
        let ghost s1 = borders@.to_set();
        self.set_bg_borders(&mut borders, self.bg_map_addr(1), self.get_bg_settings(1));
        insert_sorted(&mut borders, self.bg_pattern_addr(1));
        let ghost s2 = borders@.to_set();
        if (mode == 0) || (mode == 1) {
            self.set_bg_borders(&mut borders, self.bg_map_addr(2), self.get_bg_settings(2));
            insert_sorted(&mut borders, self.bg_pattern_addr(2));
        }
        let ghost s3 = borders@.to_set();
        if mode == 0 {
            self.set_bg_borders(&mut borders, self.bg_map_addr(3), self.get_bg_settings(3));
            insert_sorted(&mut borders, self.bg_pattern_addr(3));
        }
        proof {
            reveal(borders_spec);
            assert(Seq::<u16>::empty().to_set() =~= Set::<u16>::empty());
            assert(s0 =~= set![obj0_addr_spec(self@), objn_addr_spec(self@)]);
            assert(borders@.to_set() =~= borders_spec(self@));
        }
        borders
    }

    /// Add the borders of one background's tile map.
    fn set_bg_borders(&self, borders: &mut Vec<u16>, start_addr: u16, settings: BGReg)
        requires
            strictly_sorted(old(borders)@),
        ensures
            strictly_sorted(final(borders)@),
            final(borders)@.to_set() == old(borders)@.to_set() + map_borders_spec(start_addr, settings.bits),
    {
        let bg_map_mirror = MapMirror::from_reg(settings);
        let ghost s = borders@.to_set();
        insert_sorted(borders, start_addr);
        let b = ((start_addr as u32 + SUB_MAP_SIZE as u32) % 0x10000) as u16;
        let c = ((start_addr as u32 + SUB_MAP_SIZE as u32 * 2) % 0x10000) as u16;
        let d = ((start_addr as u32 + SUB_MAP_SIZE as u32 * 3) % 0x10000) as u16;
        match bg_map_mirror {
            MapMirror::Neither => {},
            MapMirror::X | MapMirror::Y => {
                insert_sorted(borders, b);
            },
            MapMirror::Both => {
                insert_sorted(borders, b);
                insert_sorted(borders, c);
                insert_sorted(borders, d);
            },
        }
        proof {
            assert(borders@.to_set() =~= s + map_borders_spec(start_addr, settings.bits));
        }
    }
}

} // verus!
