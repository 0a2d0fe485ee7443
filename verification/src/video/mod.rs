//! The PPU: owns the video memory, tracks the position of the beam, and
//! raises NMI, IRQ and blanking signals.
//!
//! Drawing is done elsewhere: when a line is ready to be drawn the PPU
//! records a draw request, which the owner takes with `take_draw_request`.
pub mod ram;
pub mod render;

use vstd::prelude::*;
use crate::bits::{set_lo16, set_hi16, lemma_u8_low_masks};
use crate::common::Interrupt;
use crate::constants::{DOT_TIME, SCANLINE, SCANLINE_OFFSET, PAUSE_START, H_BLANK_TIME, V_RES, NUM_SCANLINES};
use ram::{VideoMem, VideoMemView};

verus! {

// Interrupt enable bits ($4200).
pub const ENABLE_NMI: u8 = 0x80;
pub const ENABLE_IRQ_Y: u8 = 0x20;
pub const ENABLE_IRQ_X: u8 = 0x10;
pub const AUTO_JOYPAD: u8 = 0x01;
pub const INT_ENABLE_VALID: u8 = 0xB1;

// Status bits.
pub const STATUS_V_BLANK: u8 = 0x80;
pub const STATUS_H_BLANK: u8 = 0x40;

/// Signal from the PPU.
#[derive(Clone, Copy, PartialEq, Eq, Structural, Debug)]
pub enum PPUSignal {
    NoSignal,  // No signal.
    Int(Interrupt),  // NMI on entering V-blank, IRQ from the timers, or V-blank without NMI.
    HBlank,  // H-Blank period entered.
    Delay,  // Delay CPU by 40 cycles in middle of scanline.
    FrameStart,  // Frame begin. Reset HDMA.
}

/// PPU internal state.
#[derive(Clone, Copy, PartialEq, Eq, Structural, Debug)]
pub enum PPUState {
    HBlankLeft,  // The left side of the screen, before drawing begins.
    DrawingBeforePause,  // Drawing the line.
    DrawingAfterPause,  // Drawing the line, after the CPU delay.
    HBlankRight,  // The right side of the screen, after drawing ends.
    VBlank,  // Vertical blanking period.
}

/// Background (for use by child modules).
#[derive(Clone, Copy, PartialEq, Eq, Structural)]
pub enum BG {
    _1,
    _2,
    _3,
    _4,
}

impl BG {
    /// The backgrounds in order.
    pub fn all() -> (r: [BG; 4])
        ensures
            r@ == seq![BG::_1, BG::_2, BG::_3, BG::_4],
    {
        [BG::_1, BG::_2, BG::_3, BG::_4]
    }
}

/// A transition between states.
pub enum PPUTransition {
    ExitVBlank,
    CPUPause,
    EnterHBlank,
    NextLine,
    ExitHBlank,
    EnterVBlank,
}

pub struct PPUView {
    pub state: PPUState,
    pub mem: VideoMemView,
    pub cycle_count: usize,
    pub scanline: usize,
    pub int_enable: u8,
    pub status: u8,
    pub nmi_flag: u8,
    pub irq_flag: u8,
    pub h_timer: u16,
    pub h_cycle: usize,
    pub v_timer: u16,
    pub h_irq_latch: bool,
    pub enable_render: bool,
    pub draw_request: Option<usize>,
}

pub struct PPU {
    state: PPUState,
    mem: VideoMem,
    cycle_count: usize,  // Current cycle count, into the scanline (0-1364)
    scanline: usize,  // Current scanline
    int_enable: u8,
    status: u8,
    nmi_flag: u8,  // Top bit set if NMI occurs.
    irq_flag: u8,  // Top bit set if IRQ occurs.
    h_timer: u16,  // $4207-8, for triggering IRQ.
    h_cycle: usize,  // Cycle into line to fire IRQ on.
    v_timer: u16,  // $4209-a, for triggering IRQ.
    h_irq_latch: bool,  // Latched if the horizontal IRQ is triggered.
    enable_render: bool,
    draw_request: Option<usize>,  // Line that is ready to be drawn.
}

impl View for PPU {
    type V = PPUView;

    closed spec fn view(&self) -> PPUView {
        PPUView {
            state: self.state,
            mem: self.mem@,
            cycle_count: self.cycle_count,
            scanline: self.scanline,
            int_enable: self.int_enable,
            status: self.status,
            nmi_flag: self.nmi_flag,
            irq_flag: self.irq_flag,
            h_timer: self.h_timer,
            h_cycle: self.h_cycle,
            v_timer: self.v_timer,
            h_irq_latch: self.h_irq_latch,
            enable_render: self.enable_render,
            draw_request: self.draw_request,
        }
    }
}

impl PPUView {
    /// The scanline stays in range; a line is being drawn only while it is
    /// visible; left of the screen the line above has been drawn.
    pub open spec fn wf(self) -> bool {
        &&& self.mem.wf()
        &&& self.scanline < NUM_SCANLINES
        &&& (self.state == PPUState::HBlankLeft ==> self.scanline >= 1)
        &&& (self.state == PPUState::DrawingBeforePause || self.state == PPUState::DrawingAfterPause
            || self.state == PPUState::HBlankRight) ==> self.scanline <= V_RES
    }

    /// The vertical IRQ is enabled alone and this is the selected line.
    pub open spec fn y_irq(self) -> bool {
        (self.int_enable & (ENABLE_IRQ_X | ENABLE_IRQ_Y)) == ENABLE_IRQ_Y && self.scanline == self.v_timer
    }

    /// The horizontal IRQ fires once per line (or once on the selected line
    /// when both timers are enabled) when the selected dot is reached.
    pub open spec fn x_irq(self) -> bool {
        let irq = self.int_enable & (ENABLE_IRQ_X | ENABLE_IRQ_Y);
        !self.h_irq_latch && if irq == (ENABLE_IRQ_X | ENABLE_IRQ_Y) {
            self.scanline == self.v_timer && self.cycle_count >= self.h_cycle
        } else if irq == ENABLE_IRQ_X {
            self.cycle_count >= self.h_cycle
        } else {
            false
        }
    }

    pub open spec fn with_irq(self) -> (PPUView, PPUSignal) {
        (PPUView { irq_flag: self.irq_flag | 0x80, ..self }, PPUSignal::Int(Interrupt::IRQ))
    }

    /// The transition due in the current state, if any.
    pub open spec fn due(self) -> Option<PPUTransition> {
        if self.state == PPUState::VBlank && self.scanline == 0 {
            Some(PPUTransition::ExitVBlank)
        } else if self.state == PPUState::DrawingBeforePause && self.cycle_count >= PAUSE_START {
            Some(PPUTransition::CPUPause)
        } else if self.state == PPUState::DrawingAfterPause && self.cycle_count >= H_BLANK_TIME {
            Some(PPUTransition::EnterHBlank)
        } else if self.state == PPUState::HBlankRight && self.cycle_count >= SCANLINE {
            Some(PPUTransition::NextLine)
        } else if self.state == PPUState::HBlankLeft && self.scanline > V_RES {
            Some(PPUTransition::EnterVBlank)
        } else if self.state == PPUState::HBlankLeft && self.cycle_count >= SCANLINE_OFFSET
            && self.scanline <= V_RES {
            Some(PPUTransition::ExitHBlank)
        } else if self.state == PPUState::VBlank && self.cycle_count >= SCANLINE {
            Some(PPUTransition::NextLine)
        } else {
            None
        }
    }

    /// The state after a transition, and the signal it emits.
    pub open spec fn transition(self, t: PPUTransition) -> (PPUView, PPUSignal) {
        match t {
            PPUTransition::ExitVBlank => (
                PPUView {
                    nmi_flag: 0,
                    irq_flag: 0,
                    status: self.status & !STATUS_V_BLANK & !STATUS_H_BLANK,
                    state: PPUState::DrawingBeforePause,
                    ..self
                },
                PPUSignal::FrameStart,
            ),
            PPUTransition::CPUPause => (
                PPUView { state: PPUState::DrawingAfterPause, ..self },
                PPUSignal::Delay,
            ),
            PPUTransition::EnterHBlank => (
                PPUView { status: self.status | STATUS_H_BLANK, state: PPUState::HBlankRight, ..self },
                PPUSignal::HBlank,
            ),
            PPUTransition::NextLine => {
                let next = PPUView {
                    cycle_count: (self.cycle_count - SCANLINE) as usize,
                    h_irq_latch: false,
                    scanline: ((self.scanline + 1) % NUM_SCANLINES as int) as usize,
                    state: if self.state == PPUState::HBlankRight {
                        PPUState::HBlankLeft
                    } else {
                        self.state
                    },
                    ..self
                };
                if next.y_irq() {
                    next.with_irq()
                } else {
                    (next, PPUSignal::NoSignal)
                }
            },
            PPUTransition::ExitHBlank => (
                PPUView {
                    draw_request: Some((self.scanline - 1) as usize),
                    state: PPUState::DrawingBeforePause,
                    ..self
                },
                PPUSignal::NoSignal,
            ),
            PPUTransition::EnterVBlank => {
                let mem = if self.mem.registers.screen_display >= 0x80 {
                    VideoMemView {
                        oam: crate::video::ram::oam::OAMView {
                            addr: (self.mem.oam.addr_hi * 256 + self.mem.oam.addr_lo) as usize,
                            hi_byte: false,
                            ..self.mem.oam
                        },
                        ..self.mem
                    }
                } else {
                    self.mem
                };
                (
                    PPUView {
                        status: (self.status | STATUS_V_BLANK) & !STATUS_H_BLANK,
                        mem: mem,
                        state: PPUState::VBlank,
                        nmi_flag: self.nmi_flag | 0x80,
                        ..self
                    },
                    PPUSignal::Int(
                        if self.int_enable & ENABLE_NMI != 0 {
                            Interrupt::NMI
                        } else {
                            Interrupt::VBLANK
                        },
                    ),
                )
            },
        }
    }

    /// Advancing the clock by `cycles`: at most one transition is taken;
    /// if it emits no signal, the horizontal IRQ is checked.
    pub open spec fn clock(self, cycles: usize) -> (PPUView, PPUSignal) {
        let v1 = PPUView { cycle_count: (self.cycle_count + cycles) as usize, ..self };
        let (v2, sig) = match v1.due() {
            Some(t) => v1.transition(t),
            None => (v1, PPUSignal::NoSignal),
        };
        if sig == PPUSignal::NoSignal && v2.x_irq() {
            PPUView { h_irq_latch: true, ..v2 }.with_irq()
        } else {
            (v2, sig)
        }
    }
}

impl PPU {
    pub fn new() -> (r: Self)
        ensures
            r@.wf(),
            r@.state == PPUState::VBlank,
            r@.cycle_count == 0,
            r@.scanline == 0,
            r@.int_enable == 0,
            r@.status == 0,
            r@.nmi_flag == 0,
            r@.irq_flag == 0,
            r@.h_timer == 0,
            r@.h_cycle == 0,
            r@.v_timer == 0,
            !r@.h_irq_latch,
            r@.enable_render,
            r@.draw_request is None,
            r@.mem == crate::video::ram::initial_video_mem(),
    {
        PPU {
            state: PPUState::VBlank,
            mem: VideoMem::new(),
            cycle_count: 0,
            scanline: 0,
            int_enable: 0,
            status: 0,
            nmi_flag: 0,
            irq_flag: 0,
            h_timer: 0,
            h_cycle: 0,
            v_timer: 0,
            h_irq_latch: false,
            enable_render: true,
            draw_request: None,
        }
    }

    /// Enable or disable rendering (from outside).
    pub fn enable_rendering(&mut self, enable: bool)
        ensures
            final(self)@ == (PPUView { enable_render: enable, ..old(self)@ }),
    {
        self.enable_render = enable;
    }

    /// The line that is ready to be drawn, if any; the request is cleared.
    pub fn take_draw_request(&mut self) -> (r: Option<usize>)
        ensures
            r == old(self)@.draw_request,
            final(self)@ == (PPUView { draw_request: None, ..old(self)@ }),
    {
        let r = self.draw_request;
        self.draw_request = None;
        r
    }

    /// Read video memory from the B bus.
    pub fn read_mem(&mut self, addr: u8) -> (r: u8)
        requires
            old(self)@.wf(),
            old(self)@.mem.read_ok(addr),
        ensures
            final(self)@.wf(),
            r == ram::read_spec(old(self)@.mem, addr),
            final(self)@ == (PPUView { mem: ram::after_read_spec(old(self)@.mem, addr), ..old(self)@ }),
    {
        self.mem.read(addr)
    }

    /// Write video memory from the B bus.
    pub fn write_mem(&mut self, addr: u8, data: u8)
        requires
            old(self)@.wf(),
            old(self)@.mem.write_ok(addr),
        ensures
            final(self)@.wf(),
            final(self)@ == (PPUView { mem: ram::write_spec(old(self)@.mem, addr, data), ..old(self)@ }),
    {
        self.mem.write(addr, data);
    }

    /// The video memory, for the renderer.
    pub fn get_mem(&self) -> (r: &VideoMem)
        ensures
            r@ == self@.mem,
    {
        &self.mem
    }

    /// PPU status: V-blank (bit 7) and H-blank (bit 6).
    pub fn get_status(&mut self) -> (r: u8)
        ensures
            r == old(self)@.status,
            final(self)@ == old(self)@,
    {
        self.status
    }

    /// Latch the current dot and line into the H and V counters.
    pub fn latch_hv(&mut self) -> (r: u8)
        requires
            old(self)@.wf(),
        ensures
            final(self)@.wf(),
            r == 0,
            final(self)@ == (PPUView {
                mem: VideoMemView {
                    h_pos: ((old(self)@.cycle_count / DOT_TIME) % 0x10000) as u16,
                    v_pos: old(self)@.scanline as u16,
                    ..old(self)@.mem
                },
                ..old(self)@
            }),
    {
        self.mem.set_latched_hv(
            ((self.cycle_count / DOT_TIME) % 0x10000) as u16,  // H
            self.scanline as u16,  // V
        );
        0
    }

    /// Advance by `cycles` master cycles.
    pub fn clock(&mut self, cycles: usize) -> (r: PPUSignal)
        requires
            old(self)@.wf(),
            old(self)@.cycle_count + cycles <= usize::MAX,
        ensures
            final(self)@.wf(),
            (final(self)@, r) == old(self)@.clock(cycles),
    {
        self.cycle_count = self.cycle_count + cycles;
        let transition = if self.state == PPUState::VBlank && self.scanline == 0 {
            Some(PPUTransition::ExitVBlank)
        } else if self.state == PPUState::DrawingBeforePause && self.cycle_count >= PAUSE_START {
            Some(PPUTransition::CPUPause)
        } else if self.state == PPUState::DrawingAfterPause && self.cycle_count >= H_BLANK_TIME {
            Some(PPUTransition::EnterHBlank)
        } else if self.state == PPUState::HBlankRight && self.cycle_count >= SCANLINE {
            Some(PPUTransition::NextLine)
        } else if self.state == PPUState::HBlankLeft && self.scanline > V_RES {
            Some(PPUTransition::EnterVBlank)
        } else if self.state == PPUState::HBlankLeft && (self.cycle_count >= SCANLINE_OFFSET)
            && (self.scanline <= V_RES) {
            Some(PPUTransition::ExitHBlank)
        } else if self.state == PPUState::VBlank && self.cycle_count >= SCANLINE {
            Some(PPUTransition::NextLine)
        } else {
            None
        };
        let signal = match transition {
            Some(t) => self.transition_state(t),
            None => PPUSignal::NoSignal,
        };
        if signal == PPUSignal::NoSignal {
            if self.check_x_irq() {
                self.h_irq_latch = true;
                self.trigger_irq()
            } else {
                PPUSignal::NoSignal
            }
        } else {
            signal
        }
    }

    // Interrupts
    pub fn set_int_enable(&mut self, data: u8)
        ensures
            final(self)@ == (PPUView { int_enable: data & INT_ENABLE_VALID, ..old(self)@ }),
    {
        self.int_enable = data & INT_ENABLE_VALID;
    }

    pub fn set_h_timer_lo(&mut self, data: u8)
        ensures
            ({
                let h = ((old(self)@.h_timer / 256) * 256 + data) as u16;
                final(self)@ == (PPUView {
                    h_timer: h,
                    h_cycle: (h * DOT_TIME) as usize,
                    h_irq_latch: false,
                    ..old(self)@
                })
            }),
    {
        self.h_timer = set_lo16(self.h_timer, data);
        self.h_cycle = (self.h_timer as usize) * DOT_TIME;
        self.h_irq_latch = false;
    }

    pub fn set_h_timer_hi(&mut self, data: u8)
        ensures
            ({
                let h = (data * 256 + old(self)@.h_timer % 256) as u16;
                final(self)@ == (PPUView {
                    h_timer: h,
                    h_cycle: (h * DOT_TIME) as usize,
                    h_irq_latch: false,
                    ..old(self)@
                })
            }),
    {
        self.h_timer = set_hi16(self.h_timer, data);
        self.h_cycle = (self.h_timer as usize) * DOT_TIME;
        self.h_irq_latch = false;
    }

    pub fn set_v_timer_lo(&mut self, data: u8)
        ensures
            final(self)@ == (PPUView {
                v_timer: ((old(self)@.v_timer / 256) * 256 + data) as u16,
                ..old(self)@
            }),
    {
        self.v_timer = set_lo16(self.v_timer, data);
    }

    pub fn set_v_timer_hi(&mut self, data: u8)
        ensures
            final(self)@ == (PPUView {
                v_timer: (data * 256 + old(self)@.v_timer % 256) as u16,
                ..old(self)@
            }),
    {
        self.v_timer = set_hi16(self.v_timer, data);
    }

    /// Read and clear the NMI flag.
    pub fn get_nmi_flag(&mut self) -> (r: u8)
        ensures
            r == old(self)@.nmi_flag,
            final(self)@ == (PPUView { nmi_flag: 0, ..old(self)@ }),
    {
        let r = self.nmi_flag;
        self.nmi_flag = 0;
        r
    }

    /// Read and clear the IRQ flag.
    pub fn get_irq_flag(&mut self) -> (r: u8)
        ensures
            r == old(self)@.irq_flag,
            final(self)@ == (PPUView { irq_flag: 0, ..old(self)@ }),
    {
        let r = self.irq_flag;
        self.irq_flag = 0;
        r
    }
}

// Internal
impl PPU {
    /// Transition to the next state and emit the relevant signal. A new
    /// line needs a whole line of cycles counted, and leaving H-blank needs
    /// a line above to draw.
    fn transition_state(&mut self, transition: PPUTransition) -> (r: PPUSignal)
        requires
            old(self)@.wf(),
            transition == PPUTransition::NextLine ==> old(self)@.cycle_count >= SCANLINE,
            transition == PPUTransition::ExitHBlank ==> old(self)@.scanline >= 1,
        ensures
            final(self)@.mem.wf(),
            old(self)@.due() == Some(transition) ==> final(self)@.wf(),
            (final(self)@, r) == old(self)@.transition(transition),
    {
        match transition {
            PPUTransition::ExitVBlank => {
                self.nmi_flag = 0;
                self.irq_flag = 0;
                self.toggle_vblank(false);
                self.toggle_hblank(false);
                self.state = PPUState::DrawingBeforePause;
                PPUSignal::FrameStart
            },
            PPUTransition::CPUPause => {
                self.state = PPUState::DrawingAfterPause;
                PPUSignal::Delay
            },
            PPUTransition::EnterHBlank => {
                self.toggle_hblank(true);
                self.state = PPUState::HBlankRight;
                PPUSignal::HBlank
            },
            PPUTransition::NextLine => {
                self.cycle_count = self.cycle_count - SCANLINE;
                self.h_irq_latch = false;
                self.scanline = self.scanline + 1;
                if self.scanline >= NUM_SCANLINES {
                    self.scanline = self.scanline - NUM_SCANLINES;
                }
                if self.state == PPUState::HBlankRight {
                    self.state = PPUState::HBlankLeft;
                }
                if self.check_y_irq() {
                    self.trigger_irq()
                } else {
                    PPUSignal::NoSignal
                }
            },
            PPUTransition::ExitHBlank => {
                self.draw_request = Some(self.scanline - 1);
                self.state = PPUState::DrawingBeforePause;
                PPUSignal::NoSignal
            },
            PPUTransition::EnterVBlank => {
                self.toggle_vblank(true);
                self.toggle_hblank(false);
                if self.mem.get_registers().get_screen_display() >= 0x80 {
                    self.mem.oam_reset();
                }
                self.state = PPUState::VBlank;
                self.trigger_nmi()
            },
        }
    }

    /// The Y IRQ check happens at the start of each line.
    fn check_y_irq(&self) -> (r: bool)
        ensures
            r == self@.y_irq(),
    {
        let enabled = (self.int_enable & (ENABLE_IRQ_X | ENABLE_IRQ_Y)) == ENABLE_IRQ_Y;
        enabled && (self.scanline == (self.v_timer as usize))
    }

    /// The X IRQ check happens whenever the current X increases.
    fn check_x_irq(&self) -> (r: bool)
        ensures
            r == self@.x_irq(),
    {
        let irq = self.int_enable & (ENABLE_IRQ_X | ENABLE_IRQ_Y);
        if !self.h_irq_latch {
            if irq == (ENABLE_IRQ_X | ENABLE_IRQ_Y) {
                (self.scanline == (self.v_timer as usize)) && (self.cycle_count >= self.h_cycle)
            } else if irq == ENABLE_IRQ_X {
                self.cycle_count >= self.h_cycle
            } else {
                false
            }
        } else {
            false
        }
    }

    fn trigger_nmi(&mut self) -> (r: PPUSignal)
        ensures
            final(self)@ == (PPUView { nmi_flag: old(self)@.nmi_flag | 0x80, ..old(self)@ }),
            r == PPUSignal::Int(
                if old(self)@.int_enable & ENABLE_NMI != 0 {
                    Interrupt::NMI
                } else {
                    Interrupt::VBLANK
                },
            ),
    {
        self.nmi_flag = self.nmi_flag | 0x80;
        if self.int_enable & ENABLE_NMI != 0 {
            PPUSignal::Int(Interrupt::NMI)
        } else {
            PPUSignal::Int(Interrupt::VBLANK)
        }
    }

    fn trigger_irq(&mut self) -> (r: PPUSignal)
        ensures
            (final(self)@, r) == old(self)@.with_irq(),
    {
        self.irq_flag = self.irq_flag | 0x80;
        PPUSignal::Int(Interrupt::IRQ)
    }

    fn toggle_vblank(&mut self, vblank: bool)
        ensures
            final(self)@ == (PPUView {
                status: if vblank { old(self)@.status | STATUS_V_BLANK } else { old(self)@.status & !STATUS_V_BLANK },
                ..old(self)@
            }),
    {
        self.status = if vblank {
            self.status | STATUS_V_BLANK
        } else {
            self.status & !STATUS_V_BLANK
        };
    }

    fn toggle_hblank(&mut self, hblank: bool)
        ensures
            final(self)@ == (PPUView {
                status: if hblank { old(self)@.status | STATUS_H_BLANK } else { old(self)@.status & !STATUS_H_BLANK },
                ..old(self)@
            }),
    {
        self.status = if hblank {
            self.status | STATUS_H_BLANK
        } else {
            self.status & !STATUS_H_BLANK
        };
    }
}

proof fn lemma_flag_bits(x: u8)
    by (bit_vector)
    ensures
        (x | 0x80u8) & 0x80u8 != 0,
        ((x | 0x80u8) & !0x40u8) & 0x80u8 != 0,
        ((x | 0x80u8) & !0x40u8) & 0x40u8 == 0,
        (x & !0x80u8 & !0x40u8) & 0x80u8 == 0,
        (x & !0x80u8 & !0x40u8) & 0x40u8 == 0,
        (x | 0x40u8) & 0x40u8 != 0,
{
}

/// What the PPU signals after a clock matches its flags: an NMI comes
/// only on entering V-blank, with the NMI flag and the V-blank status
/// bit set; an IRQ always sets the IRQ flag; the start of a frame clears
/// both flags and the blanking bits; H-blank sets the H-blank status bit.
pub proof fn lemma_clock_signals(v: PPUView, cycles: usize)
    ensures
        ({
            let (w, sig) = v.clock(cycles);
            &&& sig == PPUSignal::Int(Interrupt::NMI) ==> w.state == PPUState::VBlank
                && w.nmi_flag & 0x80 != 0 && w.status & STATUS_V_BLANK != 0 && w.status & STATUS_H_BLANK == 0
            &&& sig == PPUSignal::Int(Interrupt::VBLANK) ==> w.state == PPUState::VBlank
                && w.nmi_flag & 0x80 != 0 && w.int_enable & ENABLE_NMI == 0
            &&& sig == PPUSignal::Int(Interrupt::IRQ) ==> w.irq_flag & 0x80 != 0
            &&& sig == PPUSignal::FrameStart ==> w.state == PPUState::DrawingBeforePause && w.nmi_flag == 0
                && w.irq_flag == 0 && w.status & STATUS_V_BLANK == 0 && w.status & STATUS_H_BLANK == 0
            &&& sig == PPUSignal::HBlank ==> w.state == PPUState::HBlankRight && w.status & STATUS_H_BLANK != 0
        }),
{
    let v1 = PPUView { cycle_count: (v.cycle_count + cycles) as usize, ..v };
    lemma_flag_bits(v1.status);
    lemma_flag_bits(v1.nmi_flag);
    lemma_flag_bits(v1.irq_flag);
}

} // verus!
