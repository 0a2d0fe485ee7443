//! The Super FX's view of the cartridge: ROM and save RAM, as the SNES CPU
//! and as the GSU see them.
use vstd::prelude::*;
use crate::mem::rom::ROM;
use crate::mem::rom::sram::{SRAM, SaveRAM, sram_read_spec, sram_write_spec};

verus! {

/// Where an access leads.
#[derive(Clone, Copy, PartialEq, Eq, Structural, Debug)]
pub enum FXDevice {
    /// A ROM bank (32kB) and an address in it.
    ROM(u8, u16),
    /// An address in save RAM.
    SRAM(u32),
    /// Nothing answers: reads give 0, writes are dropped.
    Open,
}

/// Banks $40-$5F hold the ROM as 64kB banks: two 32kB ROM banks each. The
/// bank number is doubled modulo 256.
pub open spec fn hi_device(bank: u8, addr: u16) -> FXDevice {
    FXDevice::ROM(
        ((bank * 2 + if addr >= 0x8000 { 1int } else { 0 }) % 256) as u8,
        (addr % 0x8000) as u16,
    )
}

/// Where a read of `bank`:`addr` by the SNES CPU leads.
pub open spec fn snes_read_device(bank: u8, addr: u16) -> FXDevice {
    let b = bank % 0x80;
    if b <= 0x3F && addr >= 0x8000 {
        FXDevice::ROM(bank, (addr - 0x8000) as u16)
    } else if b <= 0x3F && addr >= 0x6000 {
        FXDevice::SRAM((addr - 0x6000) as u32)
    } else if 0x40 <= b <= 0x5F {
        hi_device((bank - 0x40) as u8, addr)
    } else if 0x60 <= b {
        FXDevice::SRAM((((bank - 0x60) % 0x10) * 0x10000 + addr) as u32)
    } else {
        FXDevice::Open
    }
}

/// Where a write of `bank`:`addr` by the SNES CPU leads.
pub open spec fn snes_write_device(bank: u8, addr: u16) -> FXDevice {
    let b = bank % 0x80;
    if b <= 0x3F && addr >= 0x6000 {
        FXDevice::SRAM((addr - 0x6000) as u32)
    } else if 0x60 <= b {
        FXDevice::SRAM((((bank - 0x60) % 0x10) * 0x10000 + addr) as u32)
    } else {
        FXDevice::Open
    }
}

/// Where a read of `bank`:`addr` by the GSU leads.
pub open spec fn fx_read_device(bank: u8, addr: u16) -> FXDevice {
    if bank <= 0x3F {
        FXDevice::ROM(bank, (addr % 0x8000) as u16)
    } else if 0x40 <= bank <= 0x5F {
        hi_device((bank - 0x40) as u8, addr)
    } else if 0x70 <= bank <= 0x71 {
        FXDevice::SRAM(((bank - 0x70) * 0x10000 + addr) as u32)
    } else {
        FXDevice::Open
    }
}

/// Where a write of `bank`:`addr` by the GSU leads.
pub open spec fn fx_write_device(bank: u8, addr: u16) -> FXDevice {
    if 0x70 <= bank <= 0x71 {
        FXDevice::SRAM(((bank - 0x70) * 0x10000 + addr) as u32)
    } else {
        FXDevice::Open
    }
}

/// The abstract state of the Super FX's memory.
pub struct FXMemView {
    pub rom: Seq<u8>,
    pub bank_size: nat,
    pub sram: Seq<u8>,
    pub sram_dirty: bool,
}

/// A read through `dev` stays inside the ROM image.
pub open spec fn fx_access_ok(v: FXMemView, dev: FXDevice) -> bool {
    match dev {
        FXDevice::ROM(b, a) => (b + 1) * v.bank_size <= v.rom.len() && a < v.bank_size,
        _ => true,
    }
}

/// The byte read through `dev`.
pub open spec fn fx_read_spec(v: FXMemView, dev: FXDevice) -> u8 {
    match dev {
        FXDevice::ROM(b, a) => v.rom[b * v.bank_size + a],
        FXDevice::SRAM(x) => sram_read_spec(v.sram, x),
        FXDevice::Open => 0,
    }
}

/// The state after writing `data` through `dev`.
pub open spec fn fx_write_spec(v: FXMemView, dev: FXDevice, data: u8) -> FXMemView {
    match dev {
        FXDevice::SRAM(x) => FXMemView {
            sram: sram_write_spec(v.sram, x, data),
            sram_dirty: v.sram_dirty || v.sram.len() > 0,
            ..v
        },
        _ => v,
    }
}

pub struct FXMem {
    rom: ROM,
    sram: SaveRAM,
}

impl View for FXMem {
    type V = FXMemView;

    closed spec fn view(&self) -> FXMemView {
        FXMemView {
            rom: self.rom.image(),
            bank_size: self.rom.spec_bank_size(),
            sram: self.sram.contents(),
            sram_dirty: self.sram.is_dirty(),
        }
    }
}

impl FXMem {
    pub closed spec fn wf(&self) -> bool {
        self.sram.sram_wf()
    }

    pub fn new(rom: ROM, sram: SaveRAM) -> (r: Self)
        requires
            sram.sram_wf(),
        ensures
            r.wf(),
            r@ == (FXMemView {
                rom: rom.image(),
                bank_size: rom.spec_bank_size(),
                sram: sram.contents(),
                sram_dirty: sram.is_dirty(),
            }),
    {
        FXMem { rom: rom, sram: sram }
    }

    fn read_device(&self, dev: FXDevice) -> (r: u8)
        requires
            self.wf(),
            fx_access_ok(self@, dev),
        ensures
            r == fx_read_spec(self@, dev),
    {
        match dev {
            FXDevice::ROM(b, a) => self.rom.read(b, a),
            FXDevice::SRAM(x) => self.sram.read(x),
            FXDevice::Open => 0,
        }
    }

    fn write_device(&mut self, dev: FXDevice, data: u8)
        requires
            old(self).wf(),
        ensures
            final(self).wf(),
            final(self)@ == fx_write_spec(old(self)@, dev, data),
    {
        match dev {
            FXDevice::SRAM(x) => self.sram.write(x, data),
            _ => {},
        }
    }

    fn hi_dev(bank: u8, addr: u16) -> (r: FXDevice)
        ensures
            r == hi_device(bank, addr),
    {
        let mapped_bank = if addr >= 0x8000 {
            ((bank as u16 * 2 + 1) % 256) as u8
        } else {
            ((bank as u16 * 2) % 256) as u8
        };
        FXDevice::ROM(mapped_bank, addr % 0x8000)
    }

    /// Read from the SNES CPU side.
    pub fn snes_read(&mut self, bank: u8, addr: u16) -> (r: u8)
        requires
            old(self).wf(),
            fx_access_ok(old(self)@, snes_read_device(bank, addr)),
        ensures
            final(self).wf(),
            final(self)@ == old(self)@,
            r == fx_read_spec(old(self)@, snes_read_device(bank, addr)),
    {
        let b = bank % 0x80;
        let dev = if b <= 0x3F && addr >= 0x8000 {
            FXDevice::ROM(bank, addr - 0x8000)
        } else if b <= 0x3F && addr >= 0x6000 {
            FXDevice::SRAM((addr - 0x6000) as u32)
        } else if 0x40 <= b && b <= 0x5F {
            Self::hi_dev(bank - 0x40, addr)
        } else if 0x60 <= b {
            let bank_addr = (((bank as u32) - 0x60) % 0x10) * 0x10000;
            FXDevice::SRAM(bank_addr + (addr as u32))
        } else {
            FXDevice::Open
        };
        self.read_device(dev)
    }

    /// Write from the SNES CPU side.
    pub fn snes_write(&mut self, bank: u8, addr: u16, data: u8)
        requires
            old(self).wf(),
        ensures
            final(self).wf(),
            final(self)@ == fx_write_spec(old(self)@, snes_write_device(bank, addr), data),
    {
        let b = bank % 0x80;
        let dev = if b <= 0x3F && addr >= 0x6000 {
            FXDevice::SRAM((addr - 0x6000) as u32)
        } else if 0x60 <= b {
            let bank_addr = (((bank as u32) - 0x60) % 0x10) * 0x10000;
            FXDevice::SRAM(bank_addr + (addr as u32))
        } else {
            FXDevice::Open
        };
        self.write_device(dev, data);
    }

    /// Read from the GSU side.
    pub fn fx_read(&mut self, bank: u8, addr: u16) -> (r: u8)
        requires
            old(self).wf(),
            fx_access_ok(old(self)@, fx_read_device(bank, addr)),
        ensures
            final(self).wf(),
            final(self)@ == old(self)@,
            r == fx_read_spec(old(self)@, fx_read_device(bank, addr)),
    {
        let dev = if bank <= 0x3F {
            FXDevice::ROM(bank, addr % 0x8000)
        } else if 0x40 <= bank && bank <= 0x5F {
            Self::hi_dev(bank - 0x40, addr)
        } else if 0x70 <= bank && bank <= 0x71 {
            let bank_addr = ((bank as u32) - 0x70) * 0x10000;
            FXDevice::SRAM(bank_addr + (addr as u32))
        } else {
            FXDevice::Open
        };
        self.read_device(dev)
    }

    /// Write from the GSU side.
    pub fn fx_write(&mut self, bank: u8, addr: u16, data: u8)
        requires
            old(self).wf(),
        ensures
            final(self).wf(),
            final(self)@ == fx_write_spec(old(self)@, fx_write_device(bank, addr), data),
    {
        let dev = if 0x70 <= bank && bank <= 0x71 {
            let bank_addr = ((bank as u32) - 0x70) * 0x10000;
            FXDevice::SRAM(bank_addr + (addr as u32))
        } else {
            FXDevice::Open
        };
        self.write_device(dev, data);
    }

    /// The save RAM's bytes to store, if they changed since the last flush.
    pub fn flush(&mut self) -> (r: Option<Vec<u8>>)
        requires
            old(self).wf(),
        ensures
            final(self).wf(),
            final(self)@ == (FXMemView { sram_dirty: false, ..old(self)@ }),
            old(self)@.sram_dirty ==> (r matches Some(d) && d@ == old(self)@.sram),
            !old(self)@.sram_dirty ==> r is None,
    {
        self.sram.flush()
    }
}

} // verus!
