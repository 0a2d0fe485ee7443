//! Video registers for colour math and window settings.
use vstd::prelude::*;
use crate::bits::{bit8, lemma_u8_bits, lemma_u8_low_masks};
use crate::video::render::Colour;

verus! {

pub const MASK_LOGIC_OR: u8 = 0;
pub const MASK_LOGIC_AND: u8 = 1;
pub const MASK_LOGIC_XOR: u8 = 2;
pub const MASK_LOGIC_XNOR: u8 = 3;

const FIXED_COLOUR_B_BIT: u8 = 0x80;
const FIXED_COLOUR_G_BIT: u8 = 0x40;
const FIXED_COLOUR_R_BIT: u8 = 0x20;
const MAX_COLOUR: u8 = 0x1F;

pub struct WindowRegistersView {
    pub mask_bg1_2: u8,
    pub mask_bg3_4: u8,
    pub mask_obj_col: u8,
    pub window_1_left: u8,
    pub window_1_right: u8,
    pub window_2_left: u8,
    pub window_2_right: u8,
    pub mask_logic_bg: u8,
    pub mask_logic_obj_col: u8,
    pub main_screen_desg: u8,
    pub sub_screen_desg: u8,
    pub main_mask_desg: u8,
    pub sub_mask_desg: u8,
    pub colour_add_select: u8,
    pub colour_math_desg: u8,
    pub fixed_colour: Colour,
}

pub struct WindowRegisters {
    mask_bg1_2: u8,
    mask_bg3_4: u8,
    mask_obj_col: u8,
    window_1_left: u8,
    window_1_right: u8,
    window_2_left: u8,
    window_2_right: u8,
    mask_logic_bg: u8,
    mask_logic_obj_col: u8,
    main_screen_desg: u8,
    sub_screen_desg: u8,
    main_mask_desg: u8,
    sub_mask_desg: u8,
    colour_add_select: u8,
    colour_math_desg: u8,
    fixed_colour: Colour,
}

impl View for WindowRegisters {
    type V = WindowRegistersView;

    closed spec fn view(&self) -> WindowRegistersView {
        WindowRegistersView {
            mask_bg1_2: self.mask_bg1_2,
            mask_bg3_4: self.mask_bg3_4,
            mask_obj_col: self.mask_obj_col,
            window_1_left: self.window_1_left,
            window_1_right: self.window_1_right,
            window_2_left: self.window_2_left,
            window_2_right: self.window_2_right,
            mask_logic_bg: self.mask_logic_bg,
            mask_logic_obj_col: self.mask_logic_obj_col,
            main_screen_desg: self.main_screen_desg,
            sub_screen_desg: self.sub_screen_desg,
            main_mask_desg: self.main_mask_desg,
            sub_mask_desg: self.sub_mask_desg,
            colour_add_select: self.colour_add_select,
            colour_math_desg: self.colour_math_desg,
            fixed_colour: self.fixed_colour,
        }
    }
}

/// Combine the two window results with the mask logic operation.
pub open spec fn window_op_spec(op: int, win_1: bool, win_2: bool) -> bool {
    if op == 0 {
        win_1 || win_2
    } else if op == 1 {
        win_1 && win_2
    } else if op == 2 {
        win_1 != win_2
    } else {
        win_1 == win_2
    }
}

/// Whether a layer's pixel at `x` shows through its window mask, given
/// the layer's four mask settings bits (invert 1, enable 1, invert 2,
/// enable 2, starting at bit `base` of `mask`) and logic operation `op`.
pub open spec fn masked_spec(v: WindowRegistersView, mask: u8, base: int, op: int, x: u8) -> bool {
    let inv_1 = bit8(mask, base);
    let en_1 = bit8(mask, base + 1);
    let inv_2 = bit8(mask, base + 2);
    let en_2 = bit8(mask, base + 3);
    let win_1 = (v.window_1_left <= x && x <= v.window_1_right) != inv_1;
    let win_2 = (v.window_2_left <= x && x <= v.window_2_right) != inv_2;
    if en_1 && en_2 {
        window_op_spec(op, win_1, win_2)
    } else if en_1 {
        win_1
    } else if en_2 {
        win_2
    } else {
        true
    }
}

/// The window mask result for background `bg` (0-3).
pub open spec fn bg_window_spec(v: WindowRegistersView, bg: int, x: u8) -> bool {
    let mask = if bg < 2 { v.mask_bg1_2 } else { v.mask_bg3_4 };
    let base = if bg % 2 == 0 { 0 } else { 4 };
    masked_spec(v, mask, base, (v.mask_logic_bg as int / crate::bits::p2(2 * bg)) % 4, x)
}

/// The window mask result for sprites.
pub open spec fn obj_window_spec(v: WindowRegistersView, x: u8) -> bool {
    masked_spec(v, v.mask_obj_col, 0, v.mask_logic_obj_col as int % 4, x)
}

/// A layer shows on a screen when it is designated for it, and, if masking
/// is enabled for it there, when the window lets it through.
pub open spec fn show_spec(desg: u8, mask_desg: u8, layer: int, window: bool) -> bool {
    bit8(desg, layer) && (bit8(mask_desg, layer) ==> window)
}

/// A 5-bit colour component expanded to 8 bits.
pub open spec fn expand5(c: u8) -> u8 {
    (((c % 32) * 8) + (c % 32) / 4) as u8
}

fn do_window_op(op: u8, win_1: bool, win_2: bool) -> (r: bool)
    requires
        op < 4,
    ensures
        r == window_op_spec(op as int, win_1, win_2),
{
    if op == MASK_LOGIC_OR {
        win_1 || win_2
    } else if op == MASK_LOGIC_AND {
        win_1 && win_2
    } else if op == MASK_LOGIC_XOR {
        win_1 != win_2
    } else {
        win_1 == win_2
    }
}

impl WindowRegisters {
    pub fn new() -> (r: Self)
        ensures
            r@ == (WindowRegistersView {
                mask_bg1_2: 0,
                mask_bg3_4: 0,
                mask_obj_col: 0,
                window_1_left: 0,
                window_1_right: 0,
                window_2_left: 0,
                window_2_right: 0,
                mask_logic_bg: 0,
                mask_logic_obj_col: 0,
                main_screen_desg: 0,
                sub_screen_desg: 0,
                main_mask_desg: 0,
                sub_mask_desg: 0,
                colour_add_select: 0,
                colour_math_desg: 0,
                fixed_colour: Colour { r: 0, g: 0, b: 0 },
            }),
    {
        WindowRegisters {
            mask_bg1_2: 0,
            mask_bg3_4: 0,
            mask_obj_col: 0,
            window_1_left: 0,
            window_1_right: 0,
            window_2_left: 0,
            window_2_right: 0,
            mask_logic_bg: 0,
            mask_logic_obj_col: 0,
            main_screen_desg: 0,
            sub_screen_desg: 0,
            main_mask_desg: 0,
            sub_mask_desg: 0,
            colour_add_select: 0,
            colour_math_desg: 0,
            fixed_colour: Colour::zero(),
        }
    }

    pub fn set_mask_bg1_2(&mut self, data: u8)
        ensures
            final(self)@ == (WindowRegistersView { mask_bg1_2: data, ..old(self)@ }),
    {
        self.mask_bg1_2 = data;
    }

    pub fn set_mask_bg3_4(&mut self, data: u8)
        ensures
            final(self)@ == (WindowRegistersView { mask_bg3_4: data, ..old(self)@ }),
    {
        self.mask_bg3_4 = data;
    }

    pub fn set_mask_obj_col(&mut self, data: u8)
        ensures
            final(self)@ == (WindowRegistersView { mask_obj_col: data, ..old(self)@ }),
    {
        self.mask_obj_col = data;
    }

    pub fn set_mask_logic_bg(&mut self, data: u8)
        ensures
            final(self)@ == (WindowRegistersView { mask_logic_bg: data, ..old(self)@ }),
    {
        self.mask_logic_bg = data;
    }

    pub fn set_mask_logic_obj_col(&mut self, data: u8)
        ensures
            final(self)@ == (WindowRegistersView { mask_logic_obj_col: data & 0x0F, ..old(self)@ }),
    {
        self.mask_logic_obj_col = data & 0x0F;
    }

    pub fn set_main_screen_desg(&mut self, data: u8)
        ensures
            final(self)@ == (WindowRegistersView { main_screen_desg: data & 0x1F, ..old(self)@ }),
    {
        self.main_screen_desg = data & 0x1F;
    }

    pub fn set_sub_screen_desg(&mut self, data: u8)
        ensures
            final(self)@ == (WindowRegistersView { sub_screen_desg: data & 0x1F, ..old(self)@ }),
    {
        self.sub_screen_desg = data & 0x1F;
    }

    pub fn set_main_mask_desg(&mut self, data: u8)
        ensures
            final(self)@ == (WindowRegistersView { main_mask_desg: data & 0x1F, ..old(self)@ }),
    {
        self.main_mask_desg = data & 0x1F;
    }

    pub fn set_sub_mask_desg(&mut self, data: u8)
        ensures
            final(self)@ == (WindowRegistersView { sub_mask_desg: data & 0x1F, ..old(self)@ }),
    {
        self.sub_mask_desg = data & 0x1F;
    }

    pub fn set_colour_add_select(&mut self, data: u8)
        ensures
            final(self)@ == (WindowRegistersView { colour_add_select: data, ..old(self)@ }),
    {
        self.colour_add_select = data;
    }

    pub fn set_colour_math_desg(&mut self, data: u8)
        ensures
            final(self)@ == (WindowRegistersView { colour_math_desg: data, ..old(self)@ }),
    {
        self.colour_math_desg = data;
    }

    pub fn set_window_1_left(&mut self, data: u8)
        ensures
            final(self)@ == (WindowRegistersView { window_1_left: data, ..old(self)@ }),
    {
        self.window_1_left = data;
    }

    pub fn set_window_1_right(&mut self, data: u8)
        ensures
            final(self)@ == (WindowRegistersView { window_1_right: data, ..old(self)@ }),
    {
        self.window_1_right = data;
    }

    pub fn set_window_2_left(&mut self, data: u8)
        ensures
            final(self)@ == (WindowRegistersView { window_2_left: data, ..old(self)@ }),
    {
        self.window_2_left = data;
    }

    pub fn set_window_2_right(&mut self, data: u8)
        ensures
            final(self)@ == (WindowRegistersView { window_2_right: data, ..old(self)@ }),
    {
        self.window_2_right = data;
    }

    /// Set the components of the fixed colour selected by bits 7-5 to the
    /// 5-bit intensity in bits 4-0.
    pub fn set_fixed_colour(&mut self, data: u8)
        ensures
            final(self)@ == (WindowRegistersView {
                fixed_colour: Colour {
                    r: if bit8(data, 5) { expand5(data) } else { old(self)@.fixed_colour.r },
                    g: if bit8(data, 6) { expand5(data) } else { old(self)@.fixed_colour.g },
                    b: if bit8(data, 7) { expand5(data) } else { old(self)@.fixed_colour.b },
                },
                ..old(self)@
            }),
    {
        proof {
            lemma_u8_bits(data);
            lemma_u8_low_masks(data);
        }
        if data & FIXED_COLOUR_B_BIT != 0 {
            let b = data & MAX_COLOUR;
            self.fixed_colour.b = (b * 8) + (b / 4);
        }
        if data & FIXED_COLOUR_G_BIT != 0 {
            let g = data & MAX_COLOUR;
            self.fixed_colour.g = (g * 8) + (g / 4);
        }
        if data & FIXED_COLOUR_R_BIT != 0 {
            let r = data & MAX_COLOUR;
            self.fixed_colour.r = (r * 8) + (r / 4);
        }
    }

    pub fn get_fixed_colour(&self) -> (r: Colour)
        ensures
            r == self@.fixed_colour,
    {
        self.fixed_colour
    }

    /// Whether background `bg`'s pixel at `x` shows on the main screen.
    pub fn show_bg_pixel_main(&self, bg: usize, x: u8) -> (r: bool)
        requires
            bg < 4,
        ensures
            r == show_spec(self@.main_screen_desg, self@.main_mask_desg, bg as int, bg_window_spec(self@, bg as int, x)),
    {
        if self.enable_bg_main(bg) {
            if self.enable_masking_bg_main(bg) {
                self.show_bg_pixel(bg, x)
            } else {
                true
            }
        } else {
            false
        }
    }

    /// Whether a sprite pixel at `x` shows on the main screen.
    pub fn show_obj_pixel_main(&self, x: u8) -> (r: bool)
        ensures
            r == show_spec(self@.main_screen_desg, self@.main_mask_desg, 4, obj_window_spec(self@, x)),
    {
        proof {
            lemma_u8_bits(self.main_screen_desg);
            lemma_u8_bits(self.main_mask_desg);
        }
        if self.main_screen_desg & 0x10 != 0 {
            if self.main_mask_desg & 0x10 != 0 {
                self.show_obj_pixel(x)
            } else {
                true
            }
        } else {
            false
        }
    }

    /// Whether background `bg`'s pixel at `x` shows on the sub screen.
    pub fn show_bg_pixel_sub(&self, bg: usize, x: u8) -> (r: bool)
        requires
            bg < 4,
        ensures
            r == show_spec(self@.sub_screen_desg, self@.sub_mask_desg, bg as int, bg_window_spec(self@, bg as int, x)),
    {
        if self.enable_bg_sub(bg) {
            if self.enable_masking_bg_sub(bg) {
                self.show_bg_pixel(bg, x)
            } else {
                true
            }
        } else {
            false
        }
    }

    /// Whether a sprite pixel at `x` shows on the sub screen.
    pub fn show_obj_pixel_sub(&self, x: u8) -> (r: bool)
        ensures
            r == show_spec(self@.sub_screen_desg, self@.sub_mask_desg, 4, obj_window_spec(self@, x)),
    {
        proof {
            lemma_u8_bits(self.sub_screen_desg);
            lemma_u8_bits(self.sub_mask_desg);
        }
        if self.sub_screen_desg & 0x10 != 0 {
            if self.sub_mask_desg & 0x10 != 0 {
                self.show_obj_pixel(x)
            } else {
                true
            }
        } else {
            false
        }
    }
}

// internal helpers
impl WindowRegisters {
    /// Apply the window mask to a layer whose settings start at bit `base`.
    fn masked(&self, mask: u8, base: u8, op: u8, x: u8) -> (r: bool)
        requires
            base == 0 || base == 4,
            op < 4,
        ensures
            r == masked_spec(self@, mask, base as int, op as int, x),
    {
        proof {
            lemma_u8_bits(mask);
        }
        let (inv_1, en_1, inv_2, en_2) = if base == 0 {
            (mask & 0x01 != 0, mask & 0x02 != 0, mask & 0x04 != 0, mask & 0x08 != 0)
        } else {
            (mask & 0x10 != 0, mask & 0x20 != 0, mask & 0x40 != 0, mask & 0x80 != 0)
        };
        let win_1 = self.test_inside_window_1(x) != inv_1;
        let win_2 = self.test_inside_window_2(x) != inv_2;
        if en_1 && en_2 {
            do_window_op(op, win_1, win_2)
        } else if en_1 {
            win_1
        } else if en_2 {
            win_2
        } else {
            true
        }
    }

    /// Whether the bg pixel shows through the window mask.
    fn show_bg_pixel(&self, bg: usize, x: u8) -> (r: bool)
        requires
            bg < 4,
        ensures
            r == bg_window_spec(self@, bg as int, x),
    {
        let mask = if bg < 2 {
            self.mask_bg1_2
        } else {
            self.mask_bg3_4
        };
        let base: u8 = if bg % 2 == 0 {
            0
        } else {
            4
        };
        self.masked(mask, base, self.window_op_bg(bg), x)
    }

    /// Whether the obj pixel shows through the window mask.
    fn show_obj_pixel(&self, x: u8) -> (r: bool)
        ensures
            r == obj_window_spec(self@, x),
    {
        self.masked(self.mask_obj_col, 0, self.window_op_obj(), x)
    }

    fn enable_bg_main(&self, bg: usize) -> (r: bool)
        requires
            bg < 4,
        ensures
            r == bit8(self@.main_screen_desg, bg as int),
    {
        layer_bit(self.main_screen_desg, bg)
    }

    fn enable_bg_sub(&self, bg: usize) -> (r: bool)
        requires
            bg < 4,
        ensures
            r == bit8(self@.sub_screen_desg, bg as int),
    {
        layer_bit(self.sub_screen_desg, bg)
    }

    fn enable_masking_bg_main(&self, bg: usize) -> (r: bool)
        requires
            bg < 4,
        ensures
            r == bit8(self@.main_mask_desg, bg as int),
    {
        layer_bit(self.main_mask_desg, bg)
    }

    fn enable_masking_bg_sub(&self, bg: usize) -> (r: bool)
        requires
            bg < 4,
        ensures
            r == bit8(self@.sub_mask_desg, bg as int),
    {
        layer_bit(self.sub_mask_desg, bg)
    }

    fn test_inside_window_1(&self, x: u8) -> (r: bool)
        ensures
            r == (self@.window_1_left <= x && x <= self@.window_1_right),
    {
        (x <= self.window_1_right) && (x >= self.window_1_left)
    }

    fn test_inside_window_2(&self, x: u8) -> (r: bool)
        ensures
            r == (self@.window_2_left <= x && x <= self@.window_2_right),
    {
        (x <= self.window_2_right) && (x >= self.window_2_left)
    }

    /// The mask logic operation of background `bg`.
    fn window_op_bg(&self, bg: usize) -> (r: u8)
        requires
            bg < 4,
        ensures
            r == (self@.mask_logic_bg as int / crate::bits::p2(2 * bg as int)) % 4,
            r < 4,
    {
        let m = self.mask_logic_bg;
        proof {
            lemma_u8_bits(m);
        }
        if bg == 0 {
            m & 0x03
        } else if bg == 1 {
            (m & 0x0C) >> 2
        } else if bg == 2 {
            (m & 0x30) >> 4
        } else {
            (m & 0xC0) >> 6
        }
    }

    fn window_op_obj(&self) -> (r: u8)
        ensures
            r == self@.mask_logic_obj_col % 4,
            r < 4,
    {
        proof {
            lemma_u8_bits(self.mask_logic_obj_col);
        }
        self.mask_logic_obj_col & 0x03
    }
}

/// Bit `layer` (0-3) of a layer designation register.
fn layer_bit(desg: u8, layer: usize) -> (r: bool)
    requires
        layer < 4,
    ensures
        r == bit8(desg, layer as int),
{
    proof {
        lemma_u8_bits(desg);
    }
    if layer == 0 {
        desg & 0x01 != 0
    } else if layer == 1 {
        desg & 0x02 != 0
    } else if layer == 2 {
        desg & 0x04 != 0
    } else {
        desg & 0x08 != 0
    }
}

} // verus!
