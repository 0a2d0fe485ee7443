//! Types shared between devices.
use vstd::prelude::*;

verus! {

/// Interrupts signalled to the CPU.
#[derive(Clone, Copy, PartialEq, Eq, Structural, Debug)]
pub enum Interrupt {
    NMI,
    IRQ,
    /// V-blank entered without NMI enabled.
    VBLANK,
}

} // verus!
