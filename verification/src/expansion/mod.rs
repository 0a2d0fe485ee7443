//! Enhancement chips found in certain cartridges.
pub mod sa1;
pub mod superfx;

use vstd::prelude::*;
use crate::common::Interrupt;
use crate::ext::dsp::{DSP, DSPView, dsp_wf, read_dr_spec, write_dr_spec, store_sr_spec, steps_fault,
    clock_steps, clock_spec};

verus! {

/// A chip on the cartridge that the CPU reads and writes through registers
/// and that runs alongside it.
pub trait Expansion {
    /// The internal invariant of the chip.
    spec fn expansion_wf(&self) -> bool;

    /// Whether the chip answers accesses to `bank`:`addr`.
    spec fn accepts(&self, bank: u8, addr: u16) -> bool;

    /// Whether the chip can run for `cycles` master cycles.
    spec fn can_clock(&self, cycles: usize) -> bool;

    fn read(&mut self, bank: u8, addr: u16) -> (r: u8)
        requires
            old(self).expansion_wf(),
            old(self).accepts(bank, addr),
        ensures
            final(self).expansion_wf(),
    ;

    fn write(&mut self, bank: u8, addr: u16, data: u8)
        requires
            old(self).expansion_wf(),
            old(self).accepts(bank, addr),
        ensures
            final(self).expansion_wf(),
    ;

    /// Run for `cycles` master cycles; the interrupt raised, if any.
    fn clock(&mut self, cycles: usize) -> (r: Option<Interrupt>)
        requires
            old(self).expansion_wf(),
            old(self).can_clock(cycles),
        ensures
            final(self).expansion_wf(),
    ;
}

/// The NEC DSP answers with its data register at "bank" 0 and its status
/// register at "bank" 1.
impl Expansion for DSP {
    open spec fn expansion_wf(&self) -> bool {
        dsp_wf(self@)
    }

    open spec fn accepts(&self, bank: u8, addr: u16) -> bool {
        bank < 2
    }

    open spec fn can_clock(&self, cycles: usize) -> bool {
        cycles <= u32::MAX && !steps_fault(self@, clock_steps(self@, cycles))
    }

    fn read(&mut self, bank: u8, addr: u16) -> (r: u8)
        ensures
            bank == 0 ==> (r, final(self)@) == read_dr_spec(old(self)@),
            bank == 1 ==> r == old(self)@.sr / 256 && final(self)@ == old(self)@,
    {
        if bank == 0 {
            self.read_dr()
        } else {
            self.read_sr()
        }
    }

    fn write(&mut self, bank: u8, addr: u16, data: u8)
        ensures
            bank == 0 ==> final(self)@ == write_dr_spec(old(self)@, data),
            bank == 1 ==> final(self)@ == store_sr_spec(
                old(self)@,
                (data * 256 + old(self)@.sr % 256) as u16,
            ),
    {
        if bank == 0 {
            self.write_dr(data);
        } else {
            self.write_sr(data);
        }
    }

    fn clock(&mut self, cycles: usize) -> (r: Option<Interrupt>)
        ensures
            final(self)@ == clock_spec(old(self)@, cycles),
            r == Option::<Interrupt>::None,
    {
        self.run_master_cycles(cycles);
        None
    }
}

} // verus!
