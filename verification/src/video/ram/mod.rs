//! Video memory, connected to the B bus: registers, OAM, CGRAM and VRAM.
pub mod bgregs;
pub mod borders;
pub mod cgram;
pub mod oam;
pub mod registers;
pub mod vram;
pub mod windowregs;

use vstd::prelude::*;
use crate::bits::{lo16, hi16};
use registers::{Registers, RegistersView, scroll_write};
use oam::{OAM, OAMView, Object, initial_oam};
use cgram::{CGRAM, CGRAMView, initial_cgram};
use vram::{VRAM, VRAMView, initial_vram};

verus! {

pub struct VideoMemView {
    pub registers: RegistersView,
    pub h_pos: u16,
    pub v_pos: u16,
    pub h_hi_byte: bool,
    pub v_hi_byte: bool,
    pub oam: OAMView,
    pub cgram: CGRAMView,
    pub vram: VRAMView,
}

/// Video memory at power-on: registers reset, scroll latches clear, OAM,
/// CGRAM and VRAM zeroed.
pub open spec fn initial_video_mem() -> VideoMemView {
    VideoMemView {
        registers: Registers::new_spec(),
        h_pos: 0,
        v_pos: 0,
        h_hi_byte: false,
        v_hi_byte: false,
        oam: initial_oam(),
        cgram: initial_cgram(),
        vram: initial_vram(),
    }
}

/// OAM, CGRAM, VRAM and the registers that go with them.
pub struct VideoMem {
    registers: Registers,
    h_pos: u16,
    v_pos: u16,
    h_hi_byte: bool,
    v_hi_byte: bool,
    oam: OAM,
    cgram: CGRAM,
    vram: VRAM,
}

impl View for VideoMem {
    type V = VideoMemView;

    closed spec fn view(&self) -> VideoMemView {
        VideoMemView {
            registers: self.registers@,
            h_pos: self.h_pos,
            v_pos: self.v_pos,
            h_hi_byte: self.h_hi_byte,
            v_hi_byte: self.v_hi_byte,
            oam: self.oam@,
            cgram: self.cgram@,
            vram: self.vram@,
        }
    }
}

impl VideoMemView {
    pub open spec fn wf(self) -> bool {
        self.oam.wf() && self.cgram.wf() && self.vram.wf()
    }

    /// A read of B-bus register `addr` does not fault.
    pub open spec fn read_ok(self, addr: u8) -> bool {
        0x34 <= addr <= 0x3F && (addr == 0x38 ==> self.oam.access_ok())
    }

    /// A write of B-bus register `addr` does not fault.
    pub open spec fn write_ok(self, addr: u8) -> bool {
        addr <= 0x33 && (addr == 0x04 ==> self.oam.access_ok())
    }
}

/// A latched counter is read low byte first, then high byte.
pub open spec fn latch_read(pos: u16, hi_byte: bool) -> u8 {
    if !hi_byte { (pos % 256) as u8 } else { (pos / 256) as u8 }
}

/// The value a read of B-bus register `addr` returns.
pub open spec fn read_spec(v: VideoMemView, addr: u8) -> u8 {
    if addr == 0x38 {
        v.oam.read_result()
    } else if addr == 0x39 {
        v.vram.data[v.vram.addr() as int]
    } else if addr == 0x3A {
        v.vram.data[((v.vram.addr() + 1) % 0x10000) as int]
    } else if addr == 0x3B {
        v.cgram.read_result()
    } else if addr == 0x3C {
        latch_read(v.h_pos, v.h_hi_byte)
    } else if addr == 0x3D {
        latch_read(v.v_pos, v.v_hi_byte)
    } else if addr == 0x3E {
        1
    } else if addr == 0x3F {
        2
    } else {
        0
    }
}

/// The state after a read of B-bus register `addr`.
pub open spec fn after_read_spec(v: VideoMemView, addr: u8) -> VideoMemView {
    if addr == 0x38 {
        VideoMemView { oam: v.oam.advanced(), ..v }
    } else if addr == 0x39 {
        VideoMemView { vram: if v.vram.inc_on_hi() { v.vram } else { v.vram.incremented() }, ..v }
    } else if addr == 0x3A {
        VideoMemView { vram: if v.vram.inc_on_hi() { v.vram.incremented() } else { v.vram }, ..v }
    } else if addr == 0x3B {
        VideoMemView { cgram: v.cgram.after_read(), ..v }
    } else if addr == 0x3C {
        VideoMemView { h_hi_byte: true, ..v }
    } else if addr == 0x3D {
        VideoMemView { v_hi_byte: true, ..v }
    } else if addr == 0x3F {
        VideoMemView { h_hi_byte: false, v_hi_byte: false, ..v }
    } else {
        v
    }
}

/// The state after a write of `data` to B-bus register `addr`.
pub open spec fn write_spec(v: VideoMemView, addr: u8, data: u8) -> VideoMemView {
    let r = v.registers;
    let regs = |n: RegistersView| VideoMemView { registers: n, ..v };
    if addr == 0x00 {
        regs(RegistersView { screen_display: data, ..r })
    } else if addr == 0x01 {
        regs(RegistersView { object_settings: data, ..r })
    } else if addr == 0x02 {
        VideoMemView {
            oam: OAMView { addr_lo: data, addr: (v.oam.addr_hi * 256 + data) as usize, hi_byte: false, ..v.oam },
            ..v
        }
    } else if addr == 0x03 {
        VideoMemView {
            oam: OAMView { addr_hi: data, addr: (data * 256 + v.oam.addr_lo) as usize, hi_byte: false, ..v.oam },
            ..v
        }
    } else if addr == 0x04 {
        VideoMemView { oam: v.oam.after_write(data), ..v }
    } else if addr == 0x05 {
        regs(RegistersView { bg_mode: data, ..r })
    } else if addr == 0x06 {
        regs(RegistersView { mosaic_settings: data, ..r })
    } else if addr == 0x07 {
        regs(RegistersView { bg1_settings: data, ..r })
    } else if addr == 0x08 {
        regs(RegistersView { bg2_settings: data, ..r })
    } else if addr == 0x09 {
        regs(RegistersView { bg3_settings: data, ..r })
    } else if addr == 0x0A {
        regs(RegistersView { bg4_settings: data, ..r })
    } else if addr == 0x0B {
        regs(RegistersView { bg12_char_addr: data, ..r })
    } else if addr == 0x0C {
        regs(RegistersView { bg34_char_addr: data, ..r })
    } else if addr == 0x0D {
        regs(RegistersView { bg1_scroll_x: scroll_write(r.bg1_scroll_x, data), ..r })
    } else if addr == 0x0E {
        regs(RegistersView { bg1_scroll_y: scroll_write(r.bg1_scroll_y, data), ..r })
    } else if addr == 0x0F {
        regs(RegistersView { bg2_scroll_x: scroll_write(r.bg2_scroll_x, data), ..r })
    } else if addr == 0x10 {
        regs(RegistersView { bg2_scroll_y: scroll_write(r.bg2_scroll_y, data), ..r })
    } else if addr == 0x11 {
        regs(RegistersView { bg3_scroll_x: scroll_write(r.bg3_scroll_x, data), ..r })
    } else if addr == 0x12 {
        regs(RegistersView { bg3_scroll_y: scroll_write(r.bg3_scroll_y, data), ..r })
    } else if addr == 0x13 {
        regs(RegistersView { bg4_scroll_x: scroll_write(r.bg4_scroll_x, data), ..r })
    } else if addr == 0x14 {
        regs(RegistersView { bg4_scroll_y: scroll_write(r.bg4_scroll_y, data), ..r })
    } else if addr == 0x15 {
        VideoMemView { vram: VRAMView { port_control: data & 0x8F, ..v.vram }, ..v }
    } else if addr == 0x16 {
        VideoMemView { vram: v.vram.with_addr_lo(data), ..v }
    } else if addr == 0x17 {
        VideoMemView { vram: v.vram.with_addr_hi(data), ..v }
    } else if addr == 0x18 {
        VideoMemView { vram: v.vram.after_write_lo(data), ..v }
    } else if addr == 0x19 {
        VideoMemView { vram: v.vram.after_write_hi(data), ..v }
    } else if addr == 0x21 {
        VideoMemView { cgram: CGRAMView { addr: data, hi_byte: false, ..v.cgram }, ..v }
    } else if addr == 0x22 {
        VideoMemView { cgram: v.cgram.after_write(data), ..v }
    } else {
        v
    }
}

impl VideoMem {
    pub fn new() -> (r: Self)
        ensures
            r@.wf(),
            r@.registers == Registers::new_spec(),
            r@.h_pos == 0,
            r@.v_pos == 0,
            !r@.h_hi_byte,
            !r@.v_hi_byte,
            r@.oam.addr == 0,
            !r@.oam.hi_byte,
            r@ == initial_video_mem(),
    {
        VideoMem {
            registers: Registers::new(),
            h_pos: 0,
            v_pos: 0,
            h_hi_byte: false,
            v_hi_byte: false,
            oam: OAM::new(),
            cgram: CGRAM::new(),
            vram: VRAM::new(),
        }
    }

    /// Read a B-bus register ($2134-$213F).
    pub fn read(&mut self, addr: u8) -> (r: u8)
        requires
            old(self)@.wf(),
            old(self)@.read_ok(addr),
        ensures
            final(self)@.wf(),
            r == read_spec(old(self)@, addr),
            final(self)@ == after_read_spec(old(self)@, addr),
    {
        if addr <= 0x37 {
            0  // Mult result
        } else if addr == 0x38 {
            self.oam.read()
        } else if addr == 0x39 {
            self.vram.read_lo()
        } else if addr == 0x3A {
            self.vram.read_hi()
        } else if addr == 0x3B {
            self.cgram.read()
        } else if addr == 0x3C {
            if !self.h_hi_byte {
                self.h_hi_byte = true;
                lo16(self.h_pos)
            } else {
                hi16(self.h_pos)
            }
        } else if addr == 0x3D {
            if !self.v_hi_byte {
                self.v_hi_byte = true;
                lo16(self.v_pos)
            } else {
                hi16(self.v_pos)
            }
        } else if addr == 0x3E {
            1  // PPU Status
        } else {
            // PPU Status
            self.h_hi_byte = false;
            self.v_hi_byte = false;
            2
        }
    }

    /// Write a B-bus register ($2100-$2133).
    pub fn write(&mut self, addr: u8, data: u8)
        requires
            old(self)@.wf(),
            old(self)@.write_ok(addr),
        ensures
            final(self)@.wf(),
            final(self)@ == write_spec(old(self)@, addr, data),
    {
        if addr == 0x00 {
            self.registers.set_screen_display(data);
        } else if addr == 0x01 {
            self.registers.set_object_settings(data);
        } else if addr == 0x02 {
            self.oam.set_addr_lo(data);
        } else if addr == 0x03 {
            self.oam.set_addr_hi(data);
        } else if addr == 0x04 {
            self.oam.write(data);
        } else if addr == 0x05 {
            self.registers.set_bg_mode(data);
        } else if addr == 0x06 {
            self.registers.set_mosaic(data);
        } else if addr == 0x07 {
            self.registers.set_bg1_settings(data);
        } else if addr == 0x08 {
            self.registers.set_bg2_settings(data);
        } else if addr == 0x09 {
            self.registers.set_bg3_settings(data);
        } else if addr == 0x0A {
            self.registers.set_bg4_settings(data);
        } else if addr == 0x0B {
            self.registers.set_bg12_char_addr(data);
        } else if addr == 0x0C {
            self.registers.set_bg34_char_addr(data);
        } else if addr == 0x0D {
            self.registers.set_bg1_scroll_x(data);
        } else if addr == 0x0E {
            self.registers.set_bg1_scroll_y(data);
        } else if addr == 0x0F {
            self.registers.set_bg2_scroll_x(data);
        } else if addr == 0x10 {
            self.registers.set_bg2_scroll_y(data);
        } else if addr == 0x11 {
            self.registers.set_bg3_scroll_x(data);
        } else if addr == 0x12 {
            self.registers.set_bg3_scroll_y(data);
        } else if addr == 0x13 {
            self.registers.set_bg4_scroll_x(data);
        } else if addr == 0x14 {
            self.registers.set_bg4_scroll_y(data);
        } else if addr == 0x15 {
            self.vram.set_port_control(data);
        } else if addr == 0x16 {
            self.vram.set_addr_lo(data);
        } else if addr == 0x17 {
            self.vram.set_addr_hi(data);
        } else if addr == 0x18 {
            self.vram.write_lo(data);
        } else if addr == 0x19 {
            self.vram.write_hi(data);
        } else if addr == 0x21 {
            self.cgram.set_addr(data);
        } else if addr == 0x22 {
            self.cgram.write(data);
        }
        // $211A-$2120: mode 7; $2123-$2133: windows, colour math and
        // screen mode select are not held here.
    }

    /// Set the latched H and V counters.
    pub fn set_latched_hv(&mut self, h: u16, v: u16)
        ensures
            final(self)@ == (VideoMemView { h_pos: h, v_pos: v, ..old(self)@ }),
    {
        self.h_pos = h;
        self.v_pos = v;
    }

    /// The sprite attributes, for the renderer.
    pub fn get_oam(&self) -> (r: &[Object])
        ensures
            r@ == self@.oam.objects,
    {
        self.oam.ref_data()
    }

    /// The palette bytes, for the renderer.
    pub fn get_cgram(&self) -> (r: &[u8])
        ensures
            r@ == self@.cgram.data,
    {
        self.cgram.ref_data()
    }

    /// The VRAM bytes, for the renderer.
    pub fn get_vram(&self) -> (r: &[u8])
        ensures
            r@ == self@.vram.data,
    {
        self.vram.ref_data()
    }

    pub fn get_registers(&self) -> (r: &Registers)
        ensures
            r@ == self@.registers,
    {
        &self.registers
    }

    /// Whether any palette byte changed since the dirty flags were reset.
    /// Whether a sprite palette byte changed since the dirty flags were
    /// reset.
    pub fn is_cgram_obj_dirty(&self) -> (r: bool)
        ensures
            r == self@.cgram.obj_dirty,
    {
        self.cgram.is_obj_dirty()
    }

    pub fn is_cgram_dirty(&self) -> (r: bool)
        ensures
            r == self@.cgram.bg_dirty,
    {
        self.cgram.is_bg_dirty()
    }

    /// Whether the VRAM pattern region starting at `start` was written
    /// since it was last read.
    pub fn vram_dirty_range(&self, start: u16) -> (r: bool)
        ensures
            r == self@.vram.region_dirty(start),
    {
        self.vram.dirty_range(start)
    }

    /// Mark the regions starting at the addresses in `read` as clean.
    pub fn vram_reset_dirty_range(&mut self, read: &[u16])
        ensures
            final(self)@ == (VideoMemView {
                vram: VRAMView {
                    pattern_regions: Seq::new(
                        old(self)@.vram.pattern_regions.len(),
                        |i: int|
                            {
                                let (r, d) = old(self)@.vram.pattern_regions[i];
                                (r, d && !read@.contains(r.0))
                            },
                    ),
                    ..old(self)@.vram
                },
                ..old(self)@
            }),
    {
        self.vram.reset_dirty_range(read);
    }

    /// Reload the OAM address from its address registers (done at V-blank
    /// during forced blanking).
    pub fn oam_reset(&mut self)
        ensures
            final(self)@ == (VideoMemView {
                oam: OAMView {
                    addr: (old(self)@.oam.addr_hi * 256 + old(self)@.oam.addr_lo) as usize,
                    hi_byte: false,
                    ..old(self)@.oam
                },
                ..old(self)@
            }),
    {
        self.oam.reset();
    }
}

} // verus!
