//! SA-1 timer: an H/V counter, either following the PPU's 341x262 raster or
//! running as a linear 512x512 counter.
use vstd::prelude::*;
use crate::bits::{set_lo16, set_hi16, lo16, hi16, lemma_u8_low_masks};

verus! {

// Timer control bits.
pub const TIMER_MODE: u8 = 0x80;  // 1 = linear timer
pub const VEN: u8 = 0x02;  // V-Enable
pub const HEN: u8 = 0x01;  // H-Enable
pub const CONTROL_VALID: u8 = 0x83;

pub struct TimerView {
    pub timer_control: u8,
    pub h_count: u16,
    pub v_count: u16,
    pub latched_h: u16,
    pub latched_v: u16,
    pub cycle_count: usize,
}

pub struct Timer {
    timer_control: u8,
    h_count: u16,  // Dot count
    v_count: u16,  // Line count
    latched_h: u16,  // Latched dot count
    latched_v: u16,  // Latched line count
    cycle_count: usize,
}

impl View for Timer {
    type V = TimerView;

    closed spec fn view(&self) -> TimerView {
        TimerView {
            timer_control: self.timer_control,
            h_count: self.h_count,
            v_count: self.v_count,
            latched_h: self.latched_h,
            latched_v: self.latched_v,
            cycle_count: self.cycle_count,
        }
    }
}

impl TimerView {
    /// Advancing by `cycles` keeps the counters within 16 bits.
    pub open spec fn clock_ok(self, cycles: usize) -> bool {
        let total = self.cycle_count + cycles;
        &&& total <= usize::MAX
        &&& self.h_count + total / 4 <= u16::MAX
        &&& self.h_count + total / 4 >= self.h_max() ==> self.v_count < u16::MAX
    }

    pub open spec fn linear(self) -> bool {
        self.timer_control >= 0x80
    }

    /// Dots per line and lines per frame.
    pub open spec fn h_max(self) -> int {
        if self.linear() { 512 } else { 341 }
    }

    pub open spec fn v_max(self) -> int {
        if self.linear() { 512 } else { 262 }
    }

    /// The counter after `cycles` master cycles (four per dot): H wraps at
    /// most once per call, then V steps.
    pub open spec fn clock(self, cycles: usize) -> (TimerView, bool) {
        let total = self.cycle_count + cycles;
        let h = self.h_count + total / 4;
        let h_tick = h >= self.h_max();
        let v = if h_tick { self.v_count + 1 } else { self.v_count as int };
        let v_tick = h_tick && v >= self.v_max();
        let next = TimerView {
            cycle_count: (total % 4) as usize,
            h_count: (if h_tick { h - self.h_max() } else { h }) as u16,
            v_count: (if v_tick { v - self.v_max() } else { v }) as u16,
            ..self
        };
        let hen = self.timer_control % 2 == 1;
        let ven = (self.timer_control / 2) % 2 == 1;
        (next, if hen && !ven { h_tick } else if !hen && ven { v_tick } else if hen && ven { h_tick && v_tick } else { false })
    }
}

/// The counters latched by reading the low H byte stay as they were while
/// the timer runs: what the other counter reads give until the next latch.
pub proof fn lemma_clock_keeps_latch(t: TimerView, cycles: usize)
    ensures
        t.clock(cycles).0.latched_h == t.latched_h,
        t.clock(cycles).0.latched_v == t.latched_v,
        t.clock(cycles).0.timer_control == t.timer_control,
{
}

impl Timer {
    pub fn new() -> (r: Self)
        ensures
            r@ == (TimerView { timer_control: 0, h_count: 0, v_count: 0, latched_h: 0, latched_v: 0, cycle_count: 0 }),
    {
        Self { timer_control: 0, h_count: 0, v_count: 0, latched_h: 0, latched_v: 0, cycle_count: 0 }
    }

    /// Advance the timer. Returns true if the interrupt was triggered: on
    /// H wrap, V wrap, or both, as enabled.
    pub fn clock(&mut self, cycles: usize) -> (r: bool)
        requires
            old(self)@.clock_ok(cycles),
        ensures
            (final(self)@, r) == old(self)@.clock(cycles),
    {
        self.cycle_count = self.cycle_count + cycles;
        let to_inc = (self.cycle_count / 4) as u16;
        self.cycle_count = self.cycle_count % 4;
        let mut h_tick = false;
        let mut v_tick = false;
        self.h_count = self.h_count + to_inc;
        proof {
            lemma_u8_low_masks(self.timer_control);
        }
        if self.timer_control & TIMER_MODE != 0 {
            if self.h_count >= 512 {
                h_tick = true;
                self.h_count = self.h_count - 512;
                self.v_count = self.v_count + 1;
                if self.v_count >= 512 {
                    v_tick = true;
                    self.v_count = self.v_count - 512;
                }
            }
        } else {
            if self.h_count >= 341 {
                h_tick = true;
                self.h_count = self.h_count - 341;
                self.v_count = self.v_count + 1;
                if self.v_count >= 262 {
                    v_tick = true;
                    self.v_count = self.v_count - 262;
                }
            }
        }
        proof {
            lemma_u8_low_masks(self.timer_control);
        }
        let hen = self.timer_control & HEN != 0;
        let ven = self.timer_control & VEN != 0;
        if hen && !ven {
            h_tick
        } else if !hen && ven {
            v_tick
        } else if hen && ven {
            h_tick && v_tick
        } else {
            false
        }
    }
}

// Memory interface
impl Timer {
    pub fn write_control(&mut self, data: u8)
        ensures
            final(self)@ == (TimerView { timer_control: data & CONTROL_VALID, ..old(self)@ }),
    {
        self.timer_control = data & CONTROL_VALID;
    }

    pub fn restart(&mut self)
        ensures
            final(self)@ == (TimerView { h_count: 0, v_count: 0, ..old(self)@ }),
    {
        self.h_count = 0;
        self.v_count = 0;
    }

    pub fn write_h_lo(&mut self, data: u8)
        ensures
            final(self)@ == (TimerView { h_count: ((old(self)@.h_count / 256) * 256 + data) as u16, ..old(self)@ }),
    {
        self.h_count = set_lo16(self.h_count, data);
    }

    /// Only bit 0 of the high byte exists.
    pub fn write_h_hi(&mut self, data: u8)
        ensures
            final(self)@ == (TimerView { h_count: ((data % 2) * 256 + old(self)@.h_count % 256) as u16, ..old(self)@ }),
    {
        proof {
            lemma_u8_low_masks(data);
        }
        self.h_count = set_hi16(self.h_count, data & 1);
    }

    pub fn write_v_lo(&mut self, data: u8)
        ensures
            final(self)@ == (TimerView { v_count: ((old(self)@.v_count / 256) * 256 + data) as u16, ..old(self)@ }),
    {
        self.v_count = set_lo16(self.v_count, data);
    }

    /// Only bit 0 of the high byte exists.
    pub fn write_v_hi(&mut self, data: u8)
        ensures
            final(self)@ == (TimerView { v_count: ((data % 2) * 256 + old(self)@.v_count % 256) as u16, ..old(self)@ }),
    {
        proof {
            lemma_u8_low_masks(data);
        }
        self.v_count = set_hi16(self.v_count, data & 1);
    }

    /// Reading the low H byte latches both counters.
    pub fn read_h_lo(&mut self) -> (r: u8)
        ensures
            r == old(self)@.h_count % 256,
            final(self)@ == (TimerView { latched_h: old(self)@.h_count, latched_v: old(self)@.v_count, ..old(self)@ }),
    {
        self.latched_h = self.h_count;
        self.latched_v = self.v_count;
        lo16(self.latched_h)
    }

    pub fn read_h_hi(&self) -> (r: u8)
        ensures
            r == self@.latched_h / 256,
    {
        hi16(self.latched_h)
    }

    pub fn read_v_lo(&self) -> (r: u8)
        ensures
            r == self@.latched_v % 256,
    {
        lo16(self.latched_v)
    }

    pub fn read_v_hi(&self) -> (r: u8)
        ensures
            r == self@.latched_v / 256,
    {
        hi16(self.latched_v)
    }
}

} // verus!
