//! Co-processors found on cartridges.
pub mod dsp;
