//! Timing and screen constants of the SNES, in master clock cycles.
use vstd::prelude::*;

verus! {

/// Master clock frequency (NTSC), in Hz.
pub const MASTER_HZ: u64 = 21_477_272;

/// Master cycles for one dot (pixel).
pub const DOT_TIME: usize = 4;
/// Master cycles in one scanline.
pub const SCANLINE: usize = 1364;
/// Cycle into the scanline where drawing starts (dot 22).
pub const SCANLINE_OFFSET: usize = 88;
/// Cycle into the scanline where the CPU is paused for DRAM refresh.
pub const PAUSE_START: usize = 536;
/// Length of the CPU pause, in master cycles.
pub const PAUSE_LEN: usize = 40;
/// Cycle into the scanline where drawing ends (dot 274).
pub const H_BLANK_TIME: usize = 1096;

/// Memory access times.
pub const FAST_MEM_ACCESS: usize = 6;
pub const SLOW_MEM_ACCESS: usize = 8;
pub const XSLOW_MEM_ACCESS: usize = 12;

/// Visible lines.
pub const V_RES: usize = 224;
/// Visible pixels per line.
pub const H_RES: usize = 256;
/// Lines per frame (NTSC).
pub const NUM_SCANLINES: usize = 262;

} // verus!
