//! The SA-1 co-processor's memory bus: its registers on both sides, I-RAM,
//! BW-RAM and ROM banking, and its timer.
pub mod bus;
pub mod timer;
pub mod varproc;

use vstd::prelude::*;

verus! {

/// The ROM bank that a CPU bank selects through a bank register: bits 2-0
/// of the register choose which MB, the low nybble of the bank the 64kB
/// slice of it.
pub fn map_bank(in_bank: u8, mapping: u8) -> (r: u8)
    ensures
        r == (mapping % 8) * 16 + in_bank % 16,
{
    proof {
        crate::bits::lemma_u8_low_masks(in_bank);
        let m = mapping % 8;
        let l = in_bank & 0xF;
        assert((m << 4u8) | l == m * 16 + l) by (bit_vector)
            requires
                m < 8,
                l < 16,
        ;
    }
    let lo = in_bank & 0xF;
    let hi = (mapping % 8) << 4;
    hi | lo
}

/// The ROM bank for banks $C0-$FF: as `map_bank`, and on a LoROM
/// cartridge (32kB banks) the upper half of the CPU bank is the next ROM
/// bank.
pub fn map_hirom_bank(in_bank: u8, mapping: u8, lo_rom: bool, bank_addr: u16) -> (r: u8)
    ensures
        r == if lo_rom {
            ((mapping % 8) * 16 + in_bank % 16) * 2 + if bank_addr >= 0x8000 { 1int } else { 0 }
        } else {
            (mapping % 8) * 16 + in_bank % 16
        },
{
    let mapped_bank = map_bank(in_bank, mapping);
    if lo_rom {
        if bank_addr >= 0x8000 {
            (mapped_bank * 2) + 1
        } else {
            mapped_bank * 2
        }
    } else {
        mapped_bank
    }
}

} // verus!
