//! SA-1 variable-length bit processing: its settings registers.
use vstd::prelude::*;
use crate::bits::{set_lo24, set_mid24, set_hi24, lemma_u8_low_masks};

verus! {

pub const READ_MODE: u8 = 0x80;  // 1 = auto-inc
pub const DAT_LEN: u8 = 0x0F;  // Data length

pub struct VarLengthProcView {
    pub vbd: u8,
    pub data_len: u8,
    pub rom_start_addr: u32,
}

pub struct VarLengthProc {
    vbd: u8,
    data_len: u8,
    rom_start_addr: u32,
}

impl View for VarLengthProc {
    type V = VarLengthProcView;

    closed spec fn view(&self) -> VarLengthProcView {
        VarLengthProcView { vbd: self.vbd, data_len: self.data_len, rom_start_addr: self.rom_start_addr }
    }
}

impl VarLengthProc {
    pub fn new() -> (r: Self)
        ensures
            r@ == (VarLengthProcView { vbd: 0, data_len: 0, rom_start_addr: 0 }),
    {
        Self { vbd: 0, data_len: 0, rom_start_addr: 0 }
    }

    /// Set the mode and the data length: the low nybble, where 0 means 16
    /// bits.
    pub fn write_vbd(&mut self, data: u8)
        ensures
            final(self)@ == (VarLengthProcView {
                vbd: data & 0x8F,
                data_len: if data % 16 == 0 { 16 } else { data % 16 },
                ..old(self)@
            }),
    {
        self.vbd = data & 0x8F;
        proof {
            lemma_u8_low_masks(data);
            assert((data & 0x8F) & 0x0F == data & 0x0F) by (bit_vector);
        }
        let len = self.vbd & DAT_LEN;
        self.data_len = if len == 0 {
            16
        } else {
            len
        };
    }

    pub fn write_addr_lo(&mut self, data: u8)
        requires
            old(self)@.rom_start_addr < 0x100_0000,
        ensures
            final(self)@ == (VarLengthProcView {
                rom_start_addr: ((old(self)@.rom_start_addr / 256) * 256 + data) as u32,
                ..old(self)@
            }),
            final(self)@.rom_start_addr < 0x100_0000,
    {
        self.rom_start_addr = set_lo24(self.rom_start_addr, data);
    }

    pub fn write_addr_mid(&mut self, data: u8)
        requires
            old(self)@.rom_start_addr < 0x100_0000,
        ensures
            final(self)@ == (VarLengthProcView {
                rom_start_addr: ((old(self)@.rom_start_addr / 65536) * 65536 + data * 256
                    + old(self)@.rom_start_addr % 256) as u32,
                ..old(self)@
            }),
            final(self)@.rom_start_addr < 0x100_0000,
    {
        self.rom_start_addr = set_mid24(self.rom_start_addr, data);
    }

    pub fn write_addr_hi(&mut self, data: u8)
        requires
            old(self)@.rom_start_addr < 0x100_0000,
        ensures
            final(self)@ == (VarLengthProcView {
                rom_start_addr: (data * 65536 + old(self)@.rom_start_addr % 65536) as u32,
                ..old(self)@
            }),
            final(self)@.rom_start_addr < 0x100_0000,
    {
        self.rom_start_addr = set_hi24(self.rom_start_addr, data);
    }
}

} // verus!
