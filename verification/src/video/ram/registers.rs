//! Video registers for background settings (first layout, used by `VideoMem`).
use vstd::prelude::*;
use crate::bits::{make16, hi16, lemma_u8_low_masks};
use super::borders::{strictly_sorted, insert_sorted, find_region_end, region_end};

verus! {

pub const PATTERN_MAX_HEIGHT: u32 = 64;

// Object settings bits.
pub const OBJ_SIZE: u8 = 0xE0;
pub const OBJ_SELECT: u8 = 0x18;
pub const OBJ_BASE: u8 = 0x07;

// BG mode bits.
pub const BG4_TILE_SIZE: u8 = 0x80;
pub const BG3_TILE_SIZE: u8 = 0x40;
pub const BG2_TILE_SIZE: u8 = 0x20;
pub const BG1_TILE_SIZE: u8 = 0x10;
pub const BG3_PRIORITY: u8 = 0x08;
pub const BG_MODE: u8 = 0x07;

/// The register values.
pub struct RegistersView {
    pub screen_display: u8,
    pub object_settings: u8,
    pub bg_mode: u8,
    pub mosaic_settings: u8,
    pub bg1_settings: u8,
    pub bg2_settings: u8,
    pub bg3_settings: u8,
    pub bg4_settings: u8,
    pub bg12_char_addr: u8,
    pub bg34_char_addr: u8,
    pub bg1_scroll_x: u16,
    pub bg1_scroll_y: u16,
    pub bg2_scroll_x: u16,
    pub bg2_scroll_y: u16,
    pub bg3_scroll_x: u16,
    pub bg3_scroll_y: u16,
    pub bg4_scroll_x: u16,
    pub bg4_scroll_y: u16,
}

pub struct Registers {
    screen_display: u8,
    object_settings: u8,
    bg_mode: u8,
    mosaic_settings: u8,
    pub bg1_settings: u8,
    pub bg2_settings: u8,
    pub bg3_settings: u8,
    pub bg4_settings: u8,
    pub bg12_char_addr: u8,
    pub bg34_char_addr: u8,
    pub bg1_scroll_x: u16,
    pub bg1_scroll_y: u16,
    pub bg2_scroll_x: u16,
    pub bg2_scroll_y: u16,
    pub bg3_scroll_x: u16,
    pub bg3_scroll_y: u16,
    pub bg4_scroll_x: u16,
    pub bg4_scroll_y: u16,
}

impl View for Registers {
    type V = RegistersView;

    closed spec fn view(&self) -> RegistersView {
        RegistersView {
            screen_display: self.screen_display,
            object_settings: self.object_settings,
            bg_mode: self.bg_mode,
            mosaic_settings: self.mosaic_settings,
            bg1_settings: self.bg1_settings,
            bg2_settings: self.bg2_settings,
            bg3_settings: self.bg3_settings,
            bg4_settings: self.bg4_settings,
            bg12_char_addr: self.bg12_char_addr,
            bg34_char_addr: self.bg34_char_addr,
            bg1_scroll_x: self.bg1_scroll_x,
            bg1_scroll_y: self.bg1_scroll_y,
            bg2_scroll_x: self.bg2_scroll_x,
            bg2_scroll_y: self.bg2_scroll_y,
            bg3_scroll_x: self.bg3_scroll_x,
            bg3_scroll_y: self.bg3_scroll_y,
            bg4_scroll_x: self.bg4_scroll_x,
            bg4_scroll_y: self.bg4_scroll_y,
        }
    }
}

/// A scroll register after a write: the written byte becomes the high byte,
/// the previous high byte moves down.
pub open spec fn scroll_write(old: u16, data: u8) -> u16 {
    (data * 256 + old / 256) as u16
}

/// Base address of the first sprite pattern table: 8kB steps.
pub open spec fn obj0_addr_spec(v: RegistersView) -> u16 {
    ((v.object_settings % 8) * 0x2000) as u16
}

/// Base address of the second sprite pattern table: the select field (taken
/// unshifted) plus one, in 4kB steps after the first, modulo 64kB.
pub open spec fn objn_addr_spec(v: RegistersView) -> u16 {
    ((obj0_addr_spec(v) + (((v.object_settings & OBJ_SELECT) + 1) * 0x1000) % 0x10000)
        % 0x10000) as u16
}

/// Character base of a background from its nybble, in 8kB steps, modulo
/// 64kB.
pub open spec fn char_addr_spec(nybble: u8) -> u16 {
    ((nybble * 0x2000) % 0x10000) as u16
}

/// Tile map base of a background from its settings register: bits 7-2 in
/// 2kB steps, modulo 64kB.
pub open spec fn map_addr_spec(settings: u8) -> u16 {
    (((settings / 4) * 0x800) % 0x10000) as u16
}

/// The VRAM borders: both sprite tables, the map and characters of BG1 and
/// BG2, of BG3 in modes 0 and 1, of BG4 in mode 0.
#[verifier::opaque]
pub open spec fn borders_spec(v: RegistersView) -> Set<u16> {
    let mode = v.bg_mode % 8;
    let base = set![
        obj0_addr_spec(v),
        objn_addr_spec(v),
        map_addr_spec(v.bg1_settings),
        char_addr_spec(v.bg12_char_addr % 16),
        map_addr_spec(v.bg2_settings),
        char_addr_spec(v.bg12_char_addr / 16),
    ];
    let with3 = if mode == 0 || mode == 1 {
        base.insert(map_addr_spec(v.bg3_settings)).insert(char_addr_spec(v.bg34_char_addr % 16))
    } else {
        base
    };
    if mode == 0 {
        with3.insert(map_addr_spec(v.bg4_settings)).insert(char_addr_spec(v.bg34_char_addr / 16))
    } else {
        with3
    }
}

/// Height in pixels of the pattern table at `addr`: the rows of 16 tiles
/// that fit before the next region, at most 64 rows.
pub open spec fn pattern_height_spec(v: RegistersView, addr: u16, bpp: u32) -> u32 {
    let rows = (region_end(borders_spec(v), addr) - addr) / (16 * 8 * bpp as int);
    if rows < PATTERN_MAX_HEIGHT { (rows * 8) as u32 } else { (PATTERN_MAX_HEIGHT * 8) as u32 }
}

fn char_addr(nybble: u8) -> (r: u16)
    requires
        nybble < 16,
    ensures
        r == char_addr_spec(nybble),
{
    (((nybble as u32) * 0x2000) % 0x10000) as u16
}

fn map_addr(settings: u8) -> (r: u16)
    ensures
        r == map_addr_spec(settings),
{
    proof {
        lemma_u8_low_masks(settings);
    }
    let masked = settings & 0xFC;

    (((masked as u32) * 0x200) % 0x10000) as u16
}

impl Registers {
    pub open spec fn new_spec() -> RegistersView {
        RegistersView {
            screen_display: 0,
            object_settings: 0,
            bg_mode: 0,
            mosaic_settings: 0,
            bg1_settings: 0,
            bg2_settings: 0,
            bg3_settings: 0,
            bg4_settings: 0,
            bg12_char_addr: 0,
            bg34_char_addr: 0,
            bg1_scroll_x: 0,
            bg1_scroll_y: 0,
            bg2_scroll_x: 0,
            bg2_scroll_y: 0,
            bg3_scroll_x: 0,
            bg3_scroll_y: 0,
            bg4_scroll_x: 0,
            bg4_scroll_y: 0,
        }
    }

    pub fn new() -> (r: Self)
        ensures
            r@ == Registers::new_spec(),
    {
        Registers {
            screen_display: 0,
            object_settings: 0,
            bg_mode: 0,
            mosaic_settings: 0,
            bg1_settings: 0,
            bg2_settings: 0,
            bg3_settings: 0,
            bg4_settings: 0,
            bg12_char_addr: 0,
            bg34_char_addr: 0,
            bg1_scroll_x: 0,
            bg1_scroll_y: 0,
            bg2_scroll_x: 0,
            bg2_scroll_y: 0,
            bg3_scroll_x: 0,
            bg3_scroll_y: 0,
            bg4_scroll_x: 0,
            bg4_scroll_y: 0,
        }
    }

    // Setters (CPU side)
    pub fn set_screen_display(&mut self, data: u8)
        ensures
            final(self)@ == (RegistersView { screen_display: data, ..old(self)@ }),
    {
        self.screen_display = data;
    }

    pub fn set_object_settings(&mut self, data: u8)
        ensures
            final(self)@ == (RegistersView { object_settings: data, ..old(self)@ }),
    {
        self.object_settings = data;
    }

    pub fn set_bg_mode(&mut self, data: u8)
        ensures
            final(self)@ == (RegistersView { bg_mode: data, ..old(self)@ }),
    {
        self.bg_mode = data;
    }

    pub fn set_mosaic(&mut self, data: u8)
        ensures
            final(self)@ == (RegistersView { mosaic_settings: data, ..old(self)@ }),
    {
        self.mosaic_settings = data;
    }

    pub fn set_bg1_scroll_x(&mut self, data: u8)
        ensures
            final(self)@ == (RegistersView {
                bg1_scroll_x: scroll_write(old(self)@.bg1_scroll_x, data),
                ..old(self)@
            }),
    {
        self.bg1_scroll_x = make16(data, hi16(self.bg1_scroll_x));
    }

    pub fn set_bg1_scroll_y(&mut self, data: u8)
        ensures
            final(self)@ == (RegistersView {
                bg1_scroll_y: scroll_write(old(self)@.bg1_scroll_y, data),
                ..old(self)@
            }),
    {
        self.bg1_scroll_y = make16(data, hi16(self.bg1_scroll_y));
    }

    pub fn set_bg2_scroll_x(&mut self, data: u8)
        ensures
            final(self)@ == (RegistersView {
                bg2_scroll_x: scroll_write(old(self)@.bg2_scroll_x, data),
                ..old(self)@
            }),
    {
        self.bg2_scroll_x = make16(data, hi16(self.bg2_scroll_x));
    }

    pub fn set_bg2_scroll_y(&mut self, data: u8)
        ensures
            final(self)@ == (RegistersView {
                bg2_scroll_y: scroll_write(old(self)@.bg2_scroll_y, data),
                ..old(self)@
            }),
    {
        self.bg2_scroll_y = make16(data, hi16(self.bg2_scroll_y));
    }

    pub fn set_bg3_scroll_x(&mut self, data: u8)
        ensures
            final(self)@ == (RegistersView {
                bg3_scroll_x: scroll_write(old(self)@.bg3_scroll_x, data),
                ..old(self)@
            }),
    {
        self.bg3_scroll_x = make16(data, hi16(self.bg3_scroll_x));
    }

    pub fn set_bg3_scroll_y(&mut self, data: u8)
        ensures
            final(self)@ == (RegistersView {
                bg3_scroll_y: scroll_write(old(self)@.bg3_scroll_y, data),
                ..old(self)@
            }),
    {
        self.bg3_scroll_y = make16(data, hi16(self.bg3_scroll_y));
    }

    pub fn set_bg4_scroll_x(&mut self, data: u8)
        ensures
            final(self)@ == (RegistersView {
                bg4_scroll_x: scroll_write(old(self)@.bg4_scroll_x, data),
                ..old(self)@
            }),
    {
        self.bg4_scroll_x = make16(data, hi16(self.bg4_scroll_x));
    }

    pub fn set_bg4_scroll_y(&mut self, data: u8)
        ensures
            final(self)@ == (RegistersView {
                bg4_scroll_y: scroll_write(old(self)@.bg4_scroll_y, data),
                ..old(self)@
            }),
    {
        self.bg4_scroll_y = make16(data, hi16(self.bg4_scroll_y));
    }

    pub fn set_bg1_settings(&mut self, data: u8)
        ensures
            final(self)@ == (RegistersView { bg1_settings: data, ..old(self)@ }),
    {
        self.bg1_settings = data;
    }

    pub fn set_bg2_settings(&mut self, data: u8)
        ensures
            final(self)@ == (RegistersView { bg2_settings: data, ..old(self)@ }),
    {
        self.bg2_settings = data;
    }

    pub fn set_bg3_settings(&mut self, data: u8)
        ensures
            final(self)@ == (RegistersView { bg3_settings: data, ..old(self)@ }),
    {
        self.bg3_settings = data;
    }

    pub fn set_bg4_settings(&mut self, data: u8)
        ensures
            final(self)@ == (RegistersView { bg4_settings: data, ..old(self)@ }),
    {
        self.bg4_settings = data;
    }

    pub fn set_bg12_char_addr(&mut self, data: u8)
        ensures
            final(self)@ == (RegistersView { bg12_char_addr: data, ..old(self)@ }),
    {
        self.bg12_char_addr = data;
    }

    pub fn set_bg34_char_addr(&mut self, data: u8)
        ensures
            final(self)@ == (RegistersView { bg34_char_addr: data, ..old(self)@ }),
    {
        self.bg34_char_addr = data;
    }

    // Getters for the renderer.
    pub fn get_screen_display(&self) -> (r: u8)
        ensures
            r == self@.screen_display,
    {
        self.screen_display
    }

    pub fn get_mode(&self) -> (r: u8)
        ensures
            r == self@.bg_mode % 8,
    {
        proof {
            lemma_u8_low_masks(self.bg_mode);
        }
        self.bg_mode & BG_MODE
    }

    pub fn get_bg3_priority(&self) -> (r: bool)
        ensures
            r == (self@.bg_mode & BG3_PRIORITY != 0),
    {
        self.bg_mode & BG3_PRIORITY != 0
    }

    pub fn get_object_settings(&self) -> (r: u8)
        ensures
            r == self@.object_settings,
    {
        self.object_settings
    }

    pub fn obj_0_pattern_addr(&self) -> (r: u16)
        ensures
            r == obj0_addr_spec(self@),
    {
        proof {
            lemma_u8_low_masks(self.object_settings);
        }
        let base = (self.object_settings & OBJ_BASE) as u16;
        base * 0x2000
    }

    pub fn obj_n_pattern_addr(&self) -> (r: u16)
        ensures
            r == objn_addr_spec(self@),
    {
        proof {
            lemma_u8_low_masks(self.object_settings);
        }
        let base = (self.object_settings & OBJ_BASE) as u32;
        let table = ((self.object_settings & OBJ_SELECT) as u32) + 1;
        ((base * 0x2000 + (table * 0x1000) % 0x10000) % 0x10000) as u16
    }

    pub fn bg_1_pattern_addr(&self) -> (r: u16)
        ensures
            r == char_addr_spec(self@.bg12_char_addr % 16),
    {
        proof {
            lemma_u8_low_masks(self.bg12_char_addr);
        }
        char_addr(self.bg12_char_addr & 0xF)
    }

    pub fn bg_2_pattern_addr(&self) -> (r: u16)
        ensures
            r == char_addr_spec(self@.bg12_char_addr / 16),
    {
        proof {
            lemma_u8_low_masks(self.bg12_char_addr);
        }
        char_addr(self.bg12_char_addr >> 4)
    }

    pub fn bg_3_pattern_addr(&self) -> (r: u16)
        ensures
            r == char_addr_spec(self@.bg34_char_addr % 16),
    {
        proof {
            lemma_u8_low_masks(self.bg34_char_addr);
        }
        char_addr(self.bg34_char_addr & 0xF)
    }

    pub fn bg_4_pattern_addr(&self) -> (r: u16)
        ensures
            r == char_addr_spec(self@.bg34_char_addr / 16),
    {
        proof {
            lemma_u8_low_masks(self.bg34_char_addr);
        }
        char_addr(self.bg34_char_addr >> 4)
    }

    /// The settings register of background `bg` (0-3).
    pub fn bg_settings(&self, bg: usize) -> (r: u8)
        requires
            bg < 4,
        ensures
            r == (if bg == 0 {
                self@.bg1_settings
            } else if bg == 1 {
                self@.bg2_settings
            } else if bg == 2 {
                self@.bg3_settings
            } else {
                self@.bg4_settings
            }),
    {
        if bg == 0 {
            self.bg1_settings
        } else if bg == 1 {
            self.bg2_settings
        } else if bg == 2 {
            self.bg3_settings
        } else {
            self.bg4_settings
        }
    }

    pub fn bg_1_map_addr(&self) -> (r: u16)
        ensures
            r == map_addr_spec(self@.bg1_settings),
    {
        map_addr(self.bg1_settings)
    }

    pub fn bg_2_map_addr(&self) -> (r: u16)
        ensures
            r == map_addr_spec(self@.bg2_settings),
    {
        map_addr(self.bg2_settings)
    }

    pub fn bg_3_map_addr(&self) -> (r: u16)
        ensures
            r == map_addr_spec(self@.bg3_settings),
    {
        map_addr(self.bg3_settings)
    }

    pub fn bg_4_map_addr(&self) -> (r: u16)
        ensures
            r == map_addr_spec(self@.bg4_settings),
    {
        map_addr(self.bg4_settings)
    }

    pub fn bg_1_large_tiles(&self) -> (r: bool)
        ensures
            r == (self@.bg_mode & BG1_TILE_SIZE != 0),
    {
        self.bg_mode & BG1_TILE_SIZE != 0
    }

    pub fn bg_2_large_tiles(&self) -> (r: bool)
        ensures
            r == (self@.bg_mode & BG2_TILE_SIZE != 0),
    {
        self.bg_mode & BG2_TILE_SIZE != 0
    }

    pub fn bg_3_large_tiles(&self) -> (r: bool)
        ensures
            r == (self@.bg_mode & BG3_TILE_SIZE != 0),
    {
        self.bg_mode & BG3_TILE_SIZE != 0
    }

    pub fn bg_4_large_tiles(&self) -> (r: bool)
        ensures
            r == (self@.bg_mode & BG4_TILE_SIZE != 0),
    {
        self.bg_mode & BG4_TILE_SIZE != 0
    }
}

// More complex methods called from renderer.
impl Registers {
    /// Starting locations of each block of VRAM, in increasing order.
    fn get_vram_borders(&self) -> (r: Vec<u16>)
        ensures
            strictly_sorted(r@),
            r@.to_set() == borders_spec(self@),
    {
        let mode = self.get_mode();
        let mut borders: Vec<u16> = Vec::new();
        insert_sorted(&mut borders, self.obj_0_pattern_addr());
        insert_sorted(&mut borders, self.obj_n_pattern_addr());
        insert_sorted(&mut borders, self.bg_1_map_addr());
        insert_sorted(&mut borders, self.bg_1_pattern_addr());
        insert_sorted(&mut borders, self.bg_2_map_addr());
        insert_sorted(&mut borders, self.bg_2_pattern_addr());
        if (mode == 0) || (mode == 1) {
            insert_sorted(&mut borders, self.bg_3_map_addr());
            insert_sorted(&mut borders, self.bg_3_pattern_addr());
        }
        if mode == 0 {
            insert_sorted(&mut borders, self.bg_4_map_addr());
            insert_sorted(&mut borders, self.bg_4_pattern_addr());
        }
        proof {
            reveal(borders_spec);
            assert(Seq::<u16>::empty().to_set() =~= Set::<u16>::empty());
            assert(borders@.to_set() =~= borders_spec(self@));
        }
        borders
    }

    /// Height of the pattern table starting at `pattern_addr`, in pixels.
    pub fn get_pattern_table_height(&self, pattern_addr: u16, bits_per_pixel: u32) -> (r: u32)
        requires
            0 < bits_per_pixel,
            16 * 8 * bits_per_pixel <= u32::MAX,
        ensures
            r == pattern_height_spec(self@, pattern_addr, bits_per_pixel),
    {
        let borders = self.get_vram_borders();
        let end_addr = find_region_end(&borders, pattern_addr);
        let divisor = 16 * 8 * bits_per_pixel;
        assert(divisor > 0) by (nonlinear_arith)
            requires
                divisor == 16 * 8 * bits_per_pixel,
                bits_per_pixel > 0,
        ;
        let height = (end_addr - pattern_addr as u32) / divisor;
        if height < PATTERN_MAX_HEIGHT {
            height * 8
        } else {
            PATTERN_MAX_HEIGHT * 8
        }
    }
}

} // verus!
