//! The Super FX (GSU): its instruction cache, ROM buffer, pixel cache,
//! memory map, and the processor's registers and instructions.
pub mod cache;
pub mod gsu;
pub mod mem;
pub mod pixelcache;
pub mod romcache;

use vstd::prelude::*;

verus! {

/// Cycles the GSU waits for a ROM byte.
pub const ROM_WAIT_CYCLES: usize = 3;
/// Cycles the GSU waits for RAM.
pub const RAM_WAIT_CYCLES: usize = 4;

} // verus!
