//! Cartridges: header, save RAM and the mapping of the ROM, the save RAM
//! and the DSP into the address space.
pub mod header;
pub mod sram;

use vstd::prelude::*;
use crate::constants::{FAST_MEM_ACCESS, SLOW_MEM_ACCESS};
use crate::expansion::Expansion;
use crate::ext::dsp::{DSP, DSPView, dsp_wf, read_dr_spec, write_dr_spec, store_sr_spec,
    steps_fault, clock_steps, clock_spec};
use sram::{SRAM, SaveRAM, sram_read_spec, sram_write_spec, create_sram};
use header::{ROMHeader, EnhancementChip, HEADER_SIZE, LO_ROM_HEADER_START, HI_ROM_HEADER_START,
    is_lo_mapping, is_hi_mapping};

verus! {

/// Bytes in a bank of save RAM in LoROM cartridges.
pub const LOROM_RAM_BANK_SIZE: u32 = 0x8000;
/// Bytes in a bank of save RAM in HiROM cartridges.
pub const HIROM_RAM_BANK_SIZE: u32 = 0x2000;

/// The ROM image, read in banks of a fixed size.
pub struct ROM {
    data: Vec<u8>,
    bank_size: usize,
}

impl ROM {
    pub closed spec fn image(&self) -> Seq<u8> {
        self.data@
    }

    pub closed spec fn spec_bank_size(&self) -> nat {
        self.bank_size as nat
    }

    pub fn new(data: Vec<u8>, bank_size: usize) -> (r: Self)
        ensures
            r.image() == data@,
            r.spec_bank_size() == bank_size,
    {
        ROM { data: data, bank_size: bank_size }
    }

    /// The byte at `addr` of bank `bank`. The whole bank must lie in the
    /// image.
    pub fn read(&self, bank: u8, addr: u16) -> (r: u8)
        requires
            (bank + 1) * self.spec_bank_size() <= self.image().len(),
            addr < self.spec_bank_size(),
        ensures
            r == self.image()[bank * self.spec_bank_size() + addr],
    {
        proof {
            assert(bank * self.spec_bank_size() + addr < (bank + 1) * self.spec_bank_size())
                by (nonlinear_arith)
                requires
                    addr < self.spec_bank_size(),
            ;
        }
        let len = self.data.len();
        proof {
            assert((bank as nat) * self.spec_bank_size() <= len) by (nonlinear_arith)
                requires
                    (bank + 1) * self.spec_bank_size() <= len,
            ;
        }
        let offset = (bank as usize) * self.bank_size;
        self.data[offset + addr as usize]
    }
}

/// Where an address on the cartridge leads.
#[derive(Clone, Copy, PartialEq, Eq, Structural, Debug)]
pub enum CartDevice {
    /// A bank of the ROM and an address in it.
    ROM(u8, u16),
    /// An address in save RAM.
    RAM(u32),
    /// A register of the expansion chip.
    Expansion(u32),
}

/// How a range of the address space is mapped.
#[derive(Clone, Copy, PartialEq, Eq, Structural, Debug)]
pub enum AddrMapping {
    /// 32kB ROM banks in the upper half of each bank.
    LoROM,
    /// As `LoROM`, with the bank number taken modulo $40.
    LoROMMirror,
    /// LoROM save RAM in banks $70-$7F.
    LoROMRAM,
    /// 64kB ROM banks.
    HiROM,
    /// HiROM save RAM at $6000-$7FFF of banks $20-$3F.
    HiROMRAM,
    /// As `HiROM`, with the bank number taken modulo $40.
    HiROMMirror,
    /// DSP registers on a LoROM cartridge: data below $C000, status above.
    DSPLo,
    /// DSP registers on a HiROM cartridge: data below $7000, status above.
    DSPHi,
}

/// A range of banks, from a start address in each, mapped one way.
#[derive(Clone, Copy, PartialEq, Eq, Structural, Debug)]
pub struct CartMapping {
    pub start_bank: u8,
    pub end_bank: u8,
    pub start_addr: u16,
    pub addr_mapping: AddrMapping,
}

/// Where `mapping` sends `bank`:`addr`.
pub open spec fn map_spec(mapping: AddrMapping, bank: u8, addr: u16) -> CartDevice {
    match mapping {
        AddrMapping::LoROM => CartDevice::ROM(bank, (addr % 0x8000) as u16),
        AddrMapping::LoROMMirror => CartDevice::ROM((bank % 0x40) as u8, (addr % 0x8000) as u16),
        AddrMapping::LoROMRAM => CartDevice::RAM(((bank - 0x70) * LOROM_RAM_BANK_SIZE + addr) as u32),
        AddrMapping::HiROM => CartDevice::ROM(bank, addr),
        AddrMapping::HiROMRAM => CartDevice::RAM(
            ((bank % 0x10) * HIROM_RAM_BANK_SIZE + (addr - 0x6000)) as u32,
        ),
        AddrMapping::HiROMMirror => CartDevice::ROM((bank % 0x40) as u8, addr),
        AddrMapping::DSPLo => CartDevice::Expansion(if addr < 0xC000 { 0 } else { 1 }),
        AddrMapping::DSPHi => CartDevice::Expansion(if addr < 0x7000 { 0 } else { 1 }),
    }
}

/// A mapping only covers addresses its function is defined on.
pub open spec fn mapping_wf(m: CartMapping) -> bool {
    &&& m.addr_mapping == AddrMapping::LoROMRAM ==> m.start_bank >= 0x70 && m.end_bank <= 0x7F
    &&& m.addr_mapping == AddrMapping::HiROMRAM ==> m.start_addr >= 0x6000
}

/// Whether `m` covers `bank`:`addr`.
pub open spec fn covers(m: CartMapping, bank: u8, addr: u16) -> bool {
    m.start_bank <= bank <= m.end_bank && addr >= m.start_addr
}

/// The device of the first mapping from index `i` on that covers
/// `bank`:`addr`.
pub open spec fn find_device(ms: Seq<CartMapping>, i: int, bank: u8, addr: u16) -> Option<CartDevice>
    decreases ms.len() - i,
{
    if i < 0 || i >= ms.len() {
        None
    } else if covers(ms[i], bank, addr) {
        Some(map_spec(ms[i].addr_mapping, bank, addr))
    } else {
        find_device(ms, i + 1, bank, addr)
    }
}

fn map_addr(mapping: AddrMapping, bank: u8, addr: u16) -> (r: CartDevice)
    requires
        mapping == AddrMapping::LoROMRAM ==> 0x70 <= bank <= 0x7F,
        mapping == AddrMapping::HiROMRAM ==> addr >= 0x6000,
    ensures
        r == map_spec(mapping, bank, addr),
{
    match mapping {
        AddrMapping::LoROM => CartDevice::ROM(bank, addr % 0x8000),
        AddrMapping::LoROMMirror => CartDevice::ROM(bank % 0x40, addr % 0x8000),
        AddrMapping::LoROMRAM => {
            let ram_bank = ((bank - 0x70) as u32) * LOROM_RAM_BANK_SIZE;
            CartDevice::RAM(ram_bank + addr as u32)
        },
        AddrMapping::HiROM => CartDevice::ROM(bank, addr),
        AddrMapping::HiROMRAM => {
            let ram_bank = ((bank % 0x10) as u32) * HIROM_RAM_BANK_SIZE;
            CartDevice::RAM(ram_bank + (addr as u32 - 0x6000))
        },
        AddrMapping::HiROMMirror => CartDevice::ROM(bank % 0x40, addr),
        AddrMapping::DSPLo => CartDevice::Expansion(if addr < 0xC000 { 0 } else { 1 }),
        AddrMapping::DSPHi => CartDevice::Expansion(if addr < 0x7000 { 0 } else { 1 }),
    }
}

/// The abstract state of a cartridge.
pub struct CartView {
    pub rom: Seq<u8>,
    pub bank_size: nat,
    pub ram: Seq<u8>,
    pub ram_dirty: bool,
    pub dsp: Option<DSPView>,
    pub mappings: Seq<CartMapping>,
    pub fast_rom: bool,
    pub rom_speed: usize,
    pub name: Seq<char>,
}

/// Internal invariant of a cartridge.
pub open spec fn cart_wf(v: CartView) -> bool {
    &&& forall|i: int| 0 <= i < v.mappings.len() ==> #[trigger] mapping_wf(v.mappings[i])
    &&& v.ram.len() <= u32::MAX + 1
    &&& v.dsp matches Some(d) ==> dsp_wf(d)
}

/// A read of `bank`:`addr` that reaches ROM stays inside the image.
pub open spec fn cart_read_ok(v: CartView, bank: u8, addr: u16) -> bool {
    match find_device(v.mappings, 0, (bank % 0x80) as u8, addr) {
        Some(CartDevice::ROM(b, a)) => (b + 1) * v.bank_size <= v.rom.len() && a < v.bank_size,
        _ => true,
    }
}

/// A DSP register read: data register at 0, status register at 1.
pub open spec fn dsp_read_spec(d: DSPView, reg: u32) -> (u8, DSPView) {
    if reg == 0 {
        read_dr_spec(d)
    } else {
        ((d.sr / 256) as u8, d)
    }
}

/// A DSP register write: data register at 0, status register at 1.
pub open spec fn dsp_write_spec(d: DSPView, reg: u32, data: u8) -> DSPView {
    if reg == 0 {
        write_dr_spec(d, data)
    } else {
        store_sr_spec(d, (data * 256 + d.sr % 256) as u16)
    }
}

/// The byte read at `bank`:`addr`, the access time, and the state after.
pub open spec fn cart_read_spec(v: CartView, bank: u8, addr: u16) -> (u8, usize, CartView) {
    match find_device(v.mappings, 0, (bank % 0x80) as u8, addr) {
        Some(CartDevice::ROM(b, a)) => (v.rom[b * v.bank_size + a], v.rom_speed, v),
        Some(CartDevice::RAM(x)) => (sram_read_spec(v.ram, x), SLOW_MEM_ACCESS, v),
        Some(CartDevice::Expansion(x)) => match v.dsp {
            Some(d) => {
                let (data, d2) = dsp_read_spec(d, x);
                (data, SLOW_MEM_ACCESS, CartView { dsp: Some(d2), ..v })
            },
            None => (0, SLOW_MEM_ACCESS, v),
        },
        None => (0, SLOW_MEM_ACCESS, v),
    }
}

/// The state after writing `data` through `dev`.
pub open spec fn device_write_spec(v: CartView, dev: CartDevice, data: u8) -> CartView {
    match dev {
        CartDevice::ROM(_, _) => v,
        CartDevice::RAM(x) => CartView {
            ram: sram_write_spec(v.ram, x, data),
            ram_dirty: v.ram_dirty || v.ram.len() > 0,
            ..v
        },
        CartDevice::Expansion(x) => match v.dsp {
            Some(d) => CartView { dsp: Some(dsp_write_spec(d, x, data)), ..v },
            None => v,
        },
    }
}

/// A write goes to every mapping that covers the address, in order: the
/// state after the mappings from index `i` on have taken it.
pub open spec fn cart_write_from(
    ms: Seq<CartMapping>,
    v: CartView,
    i: int,
    bank: u8,
    addr: u16,
    data: u8,
) -> CartView
    decreases ms.len() - i,
{
    if i < 0 || i >= ms.len() {
        v
    } else {
        let v2 = if covers(ms[i], bank, addr) {
            device_write_spec(v, map_spec(ms[i].addr_mapping, bank, addr), data)
        } else {
            v
        };
        cart_write_from(ms, v2, i + 1, bank, addr, data)
    }
}

/// The state after writing `data` to `bank`:`addr`.
pub open spec fn cart_write_spec(v: CartView, bank: u8, addr: u16, data: u8) -> CartView {
    cart_write_from(v.mappings, v, 0, (bank % 0x80) as u8, addr, data)
}

/// A cartridge: ROM, save RAM and possibly a DSP, mapped into the address
/// space.
pub struct Cart {
    mappings: Vec<CartMapping>,
    rom: ROM,
    ram: SaveRAM,
    expansion: Option<DSP>,
    fast_rom: bool,
    rom_speed: usize,
    name: String,
}

impl View for Cart {
    type V = CartView;

    closed spec fn view(&self) -> CartView {
        CartView {
            rom: self.rom.image(),
            bank_size: self.rom.spec_bank_size(),
            ram: self.ram.contents(),
            ram_dirty: self.ram.is_dirty(),
            dsp: match self.expansion {
                Some(d) => Some(d@),
                None => None,
            },
            mappings: self.mappings@,
            fast_rom: self.fast_rom,
            rom_speed: self.rom_speed,
            name: self.name@,
        }
    }
}

impl Cart {
    /// The cartridge's invariant, with that of its save RAM.
    pub closed spec fn wf(&self) -> bool {
        cart_wf(self@) && self.ram.sram_wf()
    }

    /// Read a byte. Returns the byte and the access time in master cycles.
    pub fn read(&mut self, bank: u8, addr: u16) -> (r: (u8, usize))
        requires
            old(self).wf(),
            cart_read_ok(old(self)@, bank, addr),
        ensures
            final(self).wf(),
            (r.0, r.1, final(self)@) == cart_read_spec(old(self)@, bank, addr),
    {
        let internal_bank = bank % 0x80;
        let dev = self.find_device(internal_bank, addr);
        match dev {
            Some(CartDevice::ROM(b, a)) => (self.rom.read(b, a), self.rom_speed),
            Some(CartDevice::RAM(x)) => (self.ram.read(x), SLOW_MEM_ACCESS),
            Some(CartDevice::Expansion(x)) => {
                let data = match &mut self.expansion {
                    Some(e) => e.read(x as u8, addr),
                    None => 0,
                };
                (data, SLOW_MEM_ACCESS)
            },
            None => (0, SLOW_MEM_ACCESS),
        }
    }

    /// The device that the first mapping covering `bank`:`addr` leads to.
    fn find_device(&self, bank: u8, addr: u16) -> (r: Option<CartDevice>)
        requires
            self.wf(),
        ensures
            r == find_device(self@.mappings, 0, bank, addr),
            r matches Some(CartDevice::Expansion(x)) ==> x < 2,
    {
        let mut i: usize = 0;
        while i < self.mappings.len()
            invariant
                self.wf(),
                0 <= i <= self.mappings@.len(),
                find_device(self@.mappings, 0, bank, addr) == find_device(
                    self@.mappings,
                    i as int,
                    bank,
                    addr,
                ),
            decreases self.mappings@.len() - i,
        {
            let mapping = self.mappings[i];
            if (bank >= mapping.start_bank) && (bank <= mapping.end_bank) && (addr
                >= mapping.start_addr) {
                assert(mapping_wf(self@.mappings[i as int]));
                return Some(map_addr(mapping.addr_mapping, bank, addr));
            }
            i = i + 1;
        }
        None
    }

    /// Write a byte. Returns the access time in master cycles.
    pub fn write(&mut self, bank: u8, addr: u16, data: u8) -> (r: usize)
        requires
            old(self).wf(),
        ensures
            final(self).wf(),
            final(self)@ == cart_write_spec(old(self)@, bank, addr, data),
            r == SLOW_MEM_ACCESS,
    {
        let internal_bank = bank % 0x80;
        let ghost v0 = self@;
        let mut i: usize = 0;
        while i < self.mappings.len()
            invariant
                self.wf(),
                self@.mappings == v0.mappings,
                0 <= i <= self.mappings@.len(),
                internal_bank == bank % 0x80,
                cart_write_from(v0.mappings, self@, i as int, internal_bank, addr, data)
                    == cart_write_spec(v0, bank, addr, data),
            decreases self.mappings@.len() - i,
        {
            let mapping = self.mappings[i];
            if (internal_bank >= mapping.start_bank) && (internal_bank <= mapping.end_bank) && (addr
                >= mapping.start_addr) {
                assert(mapping_wf(self@.mappings[i as int]));
                let dev = map_addr(mapping.addr_mapping, internal_bank, addr);
                match dev {
                    CartDevice::ROM(_, _) => {},
                    CartDevice::RAM(x) => self.ram.write(x, data),
                    CartDevice::Expansion(x) => {
                        match &mut self.expansion {
                            Some(e) => e.write(x as u8, addr, data),
                            None => {},
                        }
                    },
                }
            }
            i = i + 1;
        }
        SLOW_MEM_ACCESS
    }

    /// The save RAM's bytes to store in the save file, if they changed
    /// since the last flush.
    pub fn flush(&mut self) -> (r: Option<Vec<u8>>)
        requires
            old(self).wf(),
        ensures
            final(self).wf(),
            final(self)@ == (CartView { ram_dirty: false, ..old(self)@ }),
            old(self)@.ram_dirty ==> (r matches Some(d) && d@ == old(self)@.ram),
            !old(self)@.ram_dirty ==> r is None,
    {
        self.ram.flush()
    }

    /// The save RAM's current bytes.
    pub fn save_data(&self) -> (r: Vec<u8>)
        ensures
            r@ == self@.ram,
    {
        self.ram.save_data()
    }

    /// Set the ROM access speed from the MEMSEL register: fast when the
    /// cartridge supports it and bit 0 is set.
    pub fn set_rom_speed(&mut self, data: u8)
        requires
            old(self).wf(),
        ensures
            final(self).wf(),
            final(self)@ == (CartView {
                rom_speed: if old(self)@.fast_rom && data % 2 == 1 {
                    FAST_MEM_ACCESS
                } else {
                    SLOW_MEM_ACCESS
                },
                ..old(self)@
            }),
    {
        proof {
            crate::bits::lemma_u8_low_masks(data);
        }
        self.rom_speed = if self.fast_rom && (data & 1) != 0 {
            FAST_MEM_ACCESS
        } else {
            SLOW_MEM_ACCESS
        };
    }

    /// Name of the game.
    pub fn name(&self) -> (r: String)
        ensures
            r@ == self@.name,
    {
        self.name.clone()
    }

    /// Run the expansion chip, if there is one, for `cycles` master cycles.
    pub fn clock(&mut self, cycles: usize)
        requires
            old(self).wf(),
            old(self)@.dsp matches Some(d) ==> cycles <= u32::MAX && !steps_fault(
                d,
                clock_steps(d, cycles),
            ),
        ensures
            final(self).wf(),
            final(self)@ == (CartView {
                dsp: match old(self)@.dsp {
                    Some(d) => Some(clock_spec(d, cycles)),
                    None => None,
                },
                ..old(self)@
            }),
    {
        match &mut self.expansion {
            Some(e) => {
                e.clock(cycles);
            },
            None => {},
        }
    }
}

// Building cartridges.

pub open spec fn mapping(start_bank: u8, end_bank: u8, start_addr: u16, m: AddrMapping) -> CartMapping {
    CartMapping { start_bank: start_bank, end_bank: end_bank, start_addr: start_addr, addr_mapping: m }
}

/// LoROM: 32kB banks at $8000 of banks $00-$3F and at $0000 and $8000 of
/// banks $40-$6F (which mirror the first $40 banks unless the ROM is
/// large), save RAM in banks $70-$7F.
pub open spec fn lorom_mappings(large: bool) -> Seq<CartMapping> {
    seq![
        mapping(0x00, 0x3F, 0x8000, AddrMapping::LoROM),
        mapping(0x40, 0x6F, 0, if large { AddrMapping::LoROM } else { AddrMapping::LoROMMirror }),
        mapping(0x70, 0x7F, 0, AddrMapping::LoROMRAM),
    ]
}

/// HiROM: 64kB banks from $8000 in banks $00-$3F and whole in banks
/// $40-$7F, save RAM at $6000 of banks $20-$3F.
pub open spec fn hirom_mappings() -> Seq<CartMapping> {
    seq![
        mapping(0x00, 0x3F, 0x8000, AddrMapping::HiROM),
        mapping(0x20, 0x3F, 0x6000, AddrMapping::HiROMRAM),
        mapping(0x40, 0x7F, 0, AddrMapping::HiROMMirror),
    ]
}

/// The DSP on a LoROM cartridge: banks $30-$3F from $8000, ahead of the
/// ROM.
pub open spec fn dsp_lo_mapping() -> CartMapping {
    mapping(0x30, 0x3F, 0x8000, AddrMapping::DSPLo)
}

/// The DSP on a HiROM cartridge: banks $00-$1F from $6000, after the ROM.
pub open spec fn dsp_hi_mapping() -> CartMapping {
    mapping(0x00, 0x1F, 0x6000, AddrMapping::DSPHi)
}

/// A cartridge under construction.
pub struct CartBuilder {
    mappings: Vec<CartMapping>,
    rom: Option<ROM>,
    ram: Option<SaveRAM>,
    expansion: Option<DSP>,
    fast_rom: bool,
    name: String,
}

/// The abstract state of a cartridge under construction.
pub struct CartBuilderView {
    pub mappings: Seq<CartMapping>,
    pub rom: Option<(Seq<u8>, nat)>,
    pub ram: Option<Seq<u8>>,
    pub dsp: Option<DSPView>,
    pub fast_rom: bool,
    pub name: Seq<char>,
}

impl View for CartBuilder {
    type V = CartBuilderView;

    closed spec fn view(&self) -> CartBuilderView {
        CartBuilderView {
            mappings: self.mappings@,
            rom: match self.rom {
                Some(r) => Some((r.image(), r.spec_bank_size())),
                None => None,
            },
            ram: match self.ram {
                Some(r) => Some(r.contents()),
                None => None,
            },
            dsp: match self.expansion {
                Some(d) => Some(d@),
                None => None,
            },
            fast_rom: self.fast_rom,
            name: self.name@,
        }
    }
}

impl CartBuilder {
    /// The builder's invariant: well-formed mappings, save RAM and DSP,
    /// and a save RAM that has not been written.
    pub closed spec fn wf(&self) -> bool {
        &&& forall|i: int| 0 <= i < self.mappings@.len() ==> #[trigger] mapping_wf(self.mappings@[i])
        &&& self.ram matches Some(r) ==> r.sram_wf() && !r.is_dirty()
        &&& self.expansion matches Some(d) ==> dsp_wf(d@)
    }

    pub fn new() -> (r: Self)
        ensures
            r.wf(),
            r@ == (CartBuilderView {
                mappings: Seq::empty(),
                rom: None,
                ram: None,
                dsp: None,
                fast_rom: false,
                name: Seq::empty(),
            }),
    {
        CartBuilder {
            mappings: Vec::new(),
            rom: None,
            ram: None,
            expansion: None,
            fast_rom: false,
            name: String::new(),
        }
    }

    pub fn named(self, name: String) -> (r: Self)
        requires
            self.wf(),
        ensures
            r.wf(),
            r@ == (CartBuilderView { name: name@, ..self@ }),
    {
        let mut b = self;
        b.name = name;
        b
    }

    pub fn fast_rom(self, fast: bool) -> (r: Self)
        requires
            self.wf(),
        ensures
            r.wf(),
            r@ == (CartBuilderView { fast_rom: fast, ..self@ }),
    {
        let mut b = self;
        b.fast_rom = fast;
        b
    }

    /// Add a DSP mapped in front of a LoROM cartridge's ROM.
    pub fn with_dsp_lo(self, dsp: DSP) -> (r: Self)
        requires
            self.wf(),
            dsp_wf(dsp@),
        ensures
            r.wf(),
            r@ == (CartBuilderView {
                dsp: Some(dsp@),
                mappings: seq![dsp_lo_mapping()] + self@.mappings,
                ..self@
            }),
    {
        let mut b = self;
        b.expansion = Some(dsp);
        b.mappings.insert(
            0,
            CartMapping {
                start_bank: 0x30,
                end_bank: 0x3F,
                start_addr: 0x8000,
                addr_mapping: AddrMapping::DSPLo,
            },
        );
        assert(b.mappings@ =~= seq![dsp_lo_mapping()] + self@.mappings);
        assert forall|i: int| 0 <= i < b.mappings@.len() implies #[trigger] mapping_wf(b.mappings@[i]) by {
            if i > 0 {
                assert(b.mappings@[i] == self.mappings@[i - 1]);
            }
        }
        b
    }

    /// Add a DSP mapped after a HiROM cartridge's ROM.
    pub fn with_dsp_hi(self, dsp: DSP) -> (r: Self)
        requires
            self.wf(),
            dsp_wf(dsp@),
        ensures
            r.wf(),
            r@ == (CartBuilderView {
                dsp: Some(dsp@),
                mappings: self@.mappings.push(dsp_hi_mapping()),
                ..self@
            }),
    {
        let mut b = self;
        b.expansion = Some(dsp);
        b.mappings.push(
            CartMapping {
                start_bank: 0x00,
                end_bank: 0x1F,
                start_addr: 0x6000,
                addr_mapping: AddrMapping::DSPHi,
            },
        );
        assert forall|i: int| 0 <= i < b.mappings@.len() implies #[trigger] mapping_wf(b.mappings@[i]) by {
            if i < self.mappings@.len() {
                assert(b.mappings@[i] == self.mappings@[i]);
            }
        }
        b
    }

    /// The cartridge. A ROM and a save RAM must have been given.
    pub fn build(self) -> (r: Cart)
        requires
            self.wf(),
            self@.rom is Some,
            self@.ram is Some,
        ensures
            r.wf(),
            r@ == (CartView {
                rom: self@.rom.unwrap().0,
                bank_size: self@.rom.unwrap().1,
                ram: self@.ram.unwrap(),
                ram_dirty: false,
                dsp: self@.dsp,
                mappings: self@.mappings,
                fast_rom: self@.fast_rom,
                rom_speed: SLOW_MEM_ACCESS,
                name: self@.name,
            }),
    {
        proof {
            sram::lemma_save_ram_len(&self.ram.unwrap());
        }
        let CartBuilder { mappings, rom, ram, expansion, fast_rom, name } = self;
        Cart {
            mappings: mappings,
            rom: rom.unwrap(),
            ram: ram.unwrap(),
            expansion: expansion,
            fast_rom: fast_rom,
            rom_speed: SLOW_MEM_ACCESS,
            name: name,
        }
    }
}

impl Cart {
    /// A LoROM cartridge with 32kB banks.
    pub fn new_lorom(rom: Vec<u8>, ram: SaveRAM) -> (r: CartBuilder)
        requires
            ram.sram_wf(),
            !ram.is_dirty(),
        ensures
            r.wf(),
            r@ == (CartBuilderView {
                mappings: lorom_mappings(false),
                rom: Some((rom@, 0x8000nat)),
                ram: Some(ram.contents()),
                dsp: None,
                fast_rom: false,
                name: Seq::empty(),
            }),
    {
        Self::new_lorom_with(rom, ram, false)
    }

    /// A LoROM cartridge larger than 2MB: banks $40-$6F do not mirror.
    pub fn new_lorom_large(rom: Vec<u8>, ram: SaveRAM) -> (r: CartBuilder)
        requires
            ram.sram_wf(),
            !ram.is_dirty(),
        ensures
            r.wf(),
            r@ == (CartBuilderView {
                mappings: lorom_mappings(true),
                rom: Some((rom@, 0x8000nat)),
                ram: Some(ram.contents()),
                dsp: None,
                fast_rom: false,
                name: Seq::empty(),
            }),
    {
        Self::new_lorom_with(rom, ram, true)
    }

    fn new_lorom_with(rom: Vec<u8>, ram: SaveRAM, large: bool) -> (r: CartBuilder)
        requires
            ram.sram_wf(),
            !ram.is_dirty(),
        ensures
            r.wf(),
            r@ == (CartBuilderView {
                mappings: lorom_mappings(large),
                rom: Some((rom@, 0x8000nat)),
                ram: Some(ram.contents()),
                dsp: None,
                fast_rom: false,
                name: Seq::empty(),
            }),
    {
        let mut builder = CartBuilder::new();
        builder.rom = Some(ROM::new(rom, 0x8000));
        builder.ram = Some(ram);
        builder.mappings.push(
            CartMapping {
                start_bank: 0x00,
                end_bank: 0x3F,
                start_addr: 0x8000,
                addr_mapping: AddrMapping::LoROM,
            },
        );
        builder.mappings.push(
            CartMapping {
                start_bank: 0x40,
                end_bank: 0x6F,
                start_addr: 0,
                addr_mapping: if large {
                    AddrMapping::LoROM
                } else {
                    AddrMapping::LoROMMirror
                },
            },
        );
        builder.mappings.push(
            CartMapping {
                start_bank: 0x70,
                end_bank: 0x7F,
                start_addr: 0,
                addr_mapping: AddrMapping::LoROMRAM,
            },
        );
        assert(builder.mappings@ =~= lorom_mappings(large));
        builder
    }

    /// A HiROM cartridge with 64kB banks.
    pub fn new_hirom(rom: Vec<u8>, ram: SaveRAM) -> (r: CartBuilder)
        requires
            ram.sram_wf(),
            !ram.is_dirty(),
        ensures
            r.wf(),
            r@ == (CartBuilderView {
                mappings: hirom_mappings(),
                rom: Some((rom@, 0x10000nat)),
                ram: Some(ram.contents()),
                dsp: None,
                fast_rom: false,
                name: Seq::empty(),
            }),
    {
        let mut builder = CartBuilder::new();
        builder.rom = Some(ROM::new(rom, 0x10000));
        builder.ram = Some(ram);
        builder.mappings.push(
            CartMapping {
                start_bank: 0x00,
                end_bank: 0x3F,
                start_addr: 0x8000,
                addr_mapping: AddrMapping::HiROM,
            },
        );
        builder.mappings.push(
            CartMapping {
                start_bank: 0x20,
                end_bank: 0x3F,
                start_addr: 0x6000,
                addr_mapping: AddrMapping::HiROMRAM,
            },
        );
        builder.mappings.push(
            CartMapping {
                start_bank: 0x40,
                end_bank: 0x7F,
                start_addr: 0,
                addr_mapping: AddrMapping::HiROMMirror,
            },
        );
        assert(builder.mappings@ =~= hirom_mappings());
        builder
    }
}

// Creating a cartridge from its ROM image.

/// Why a cartridge could not be made from a ROM image.
#[derive(Clone, Copy, PartialEq, Eq, Structural, Debug)]
pub enum CartError {
    /// The image is too short to hold the header looked for.
    HeaderUnreadable,
    /// The save file is shorter than the cartridge's save RAM.
    SaveFileShort,
    /// The game's name is not UTF-8.
    BadName,
    /// The ROM size byte of a LoROM header shifts 1kB beyond the width of
    /// `usize`.
    SizeOverflow,
    /// The cartridge holds a DSP and no DSP ROM was given.
    NoDSPROM,
    /// The DSP ROM is shorter than 8kB.
    DSPROMShort,
    /// The cartridge holds an enhancement chip that is not emulated.
    UnsupportedChip(EnhancementChip),
    /// Neither header is valid; the mapping byte of the HiROM header.
    Unrecognised(u8),
}

/// Whether the header's cartridge type has save RAM.
pub open spec fn header_has_sram(h: Seq<u8>) -> bool {
    header::ROMType { rom_type: h[0x16] }.spec_has_sram()
}

/// The save RAM size given by a header: 1kB times two to the power of byte
/// $18, at most 512kB, or zero when the cartridge has none.
pub open spec fn header_sram_size(h: Seq<u8>) -> usize {
    if !header_has_sram(h) {
        0
    } else {
        header::sram_bytes(h[0x18])
    }
}

/// The save RAM's contents: from the save file when there is one (which
/// must be long enough), zero otherwise. None when the file is too short.
pub open spec fn sram_contents(size: usize, save: Option<Seq<u8>>) -> Option<Seq<u8>> {
    if size == 0 {
        Some(Seq::empty())
    } else {
        match save {
            Some(d) => if d.len() >= size {
                Some(d.subrange(0, size as int))
            } else {
                None
            },
            None => Some(Seq::new(size as nat, |i: int| 0u8)),
        }
    }
}

/// The DSP a cartridge with header `h` holds, or why it cannot be made.
pub open spec fn header_dsp(h: Seq<u8>, dsp_rom: Option<Seq<u8>>) -> Result<Option<DSPView>, CartError> {
    match (header::ROMType { rom_type: h[0x16] }).spec_chip() {
        Some(EnhancementChip::DSP) => match dsp_rom {
            None => Err(CartError::NoDSPROM),
            Some(d) => if d.len() < 0x2000 {
                Err(CartError::DSPROMShort)
            } else {
                Ok(Some(crate::ext::dsp::new_spec(d)))
            },
        },
        Some(e) => Err(CartError::UnsupportedChip(e)),
        None => Ok(None),
    }
}

/// The cartridge described by header `h` of `rom`, LoROM or HiROM, checked
/// in this order: the save RAM, the name, the ROM size
/// (LoROM only), the enhancement chip.
pub open spec fn cart_from_header(
    rom: Seq<u8>,
    save: Option<Seq<u8>>,
    dsp_rom: Option<Seq<u8>>,
    h: Seq<u8>,
    lo: bool,
) -> Result<CartView, CartError> {
    if sram_contents(header_sram_size(h), save) is None {
        Err(CartError::SaveFileShort)
    } else if !vstd::utf8::valid_utf8(h.subrange(0, 21)) {
        Err(CartError::BadName)
    } else if lo && (h[0x17] as u32) >= usize::BITS {
        Err(CartError::SizeOverflow)
    } else {
        match header_dsp(h, dsp_rom) {
            Err(e) => Err(e),
            Ok(dsp) => {
                let base = if lo {
                    lorom_mappings((0x400usize << h[0x17]) > 0x200000)
                } else {
                    hirom_mappings()
                };
                Ok(
                    CartView {
                        rom: rom,
                        bank_size: if lo { 0x8000 } else { 0x10000 },
                        ram: sram_contents(header_sram_size(h), save).unwrap(),
                        ram_dirty: false,
                        dsp: dsp,
                        mappings: if dsp is None {
                            base
                        } else if lo {
                            seq![dsp_lo_mapping()] + base
                        } else {
                            base.push(dsp_hi_mapping())
                        },
                        fast_rom: h[0x15] & 0x30 == 0x30,
                        rom_speed: SLOW_MEM_ACCESS,
                        name: vstd::utf8::decode_utf8(h.subrange(0, 21)),
                    },
                )
            },
        }
    }
}

/// The cartridge that a ROM image makes: the LoROM header at $7FC0 is
/// tried first, then the HiROM header at $FFC0.
pub open spec fn create_cart_spec(rom: Seq<u8>, save: Option<Seq<u8>>, dsp_rom: Option<Seq<u8>>) -> Result<
    CartView,
    CartError,
> {
    let lo = rom.subrange(LO_ROM_HEADER_START as int, LO_ROM_HEADER_START + HEADER_SIZE);
    let hi = rom.subrange(HI_ROM_HEADER_START as int, HI_ROM_HEADER_START + HEADER_SIZE);
    if rom.len() < LO_ROM_HEADER_START + HEADER_SIZE {
        Err(CartError::HeaderUnreadable)
    } else if is_lo_mapping(lo[0x15]) {
        cart_from_header(rom, save, dsp_rom, lo, true)
    } else if rom.len() < HI_ROM_HEADER_START + HEADER_SIZE {
        Err(CartError::HeaderUnreadable)
    } else if is_hi_mapping(hi[0x15]) {
        cart_from_header(rom, save, dsp_rom, hi, false)
    } else {
        Err(CartError::Unrecognised(hi[0x15]))
    }
}

pub open spec fn opt_view(v: Option<Vec<u8>>) -> Option<Seq<u8>> {
    match v {
        Some(d) => Some(d@),
        None => None,
    }
}

/// Make a cartridge from its ROM image, the save file's bytes when there
/// is a save file, and the DSP ROM image when one was given.
pub fn create_cart(rom: Vec<u8>, save: Option<Vec<u8>>, dsp_rom: Option<Vec<u8>>) -> (r: Result<
    Cart,
    CartError,
>)
    ensures
        match r {
            Ok(c) => c.wf() && create_cart_spec(rom@, opt_view(save), opt_view(dsp_rom)) == Ok::<
                CartView,
                CartError,
            >(c@),
            Err(e) => create_cart_spec(rom@, opt_view(save), opt_view(dsp_rom)) == Err::<
                CartView,
                CartError,
            >(e),
        },
{
    let mut header = ROMHeader::new();
    if rom.len() < LO_ROM_HEADER_START + HEADER_SIZE {
        return Err(CartError::HeaderUnreadable);
    }
    if header.try_lo(rom.as_slice()) {
        return cart_from_header_exec(rom, save, dsp_rom, &header, true);
    }
    if rom.len() < HI_ROM_HEADER_START + HEADER_SIZE {
        return Err(CartError::HeaderUnreadable);
    }
    if header.try_hi(rom.as_slice()) {
        return cart_from_header_exec(rom, save, dsp_rom, &header, false);
    }
    Err(CartError::Unrecognised(header.rom_mapping()))
}

fn cart_from_header_exec(
    rom: Vec<u8>,
    save: Option<Vec<u8>>,
    dsp_rom: Option<Vec<u8>>,
    header: &ROMHeader,
    lo: bool,
) -> (r: Result<Cart, CartError>)
    requires
        header@.len() == HEADER_SIZE,
    ensures
        match r {
            Ok(c) => c.wf() && cart_from_header(rom@, opt_view(save), opt_view(dsp_rom), header@, lo)
                == Ok::<CartView, CartError>(c@),
            Err(e) => cart_from_header(rom@, opt_view(save), opt_view(dsp_rom), header@, lo) == Err::<
                CartView,
                CartError,
            >(e),
        },
{
    let ghost h = header@;
    let size = header.sram_size();
    let ram = match create_sram(size, save) {
        Ok(r) => r,
        Err(_) => {
            return Err(CartError::SaveFileShort);
        },
    };
    let name = match header.try_rom_name() {
        Some(n) => n,
        None => {
            return Err(CartError::BadName);
        },
    };
    let builder = if lo {
        if !header.rom_size_fits() {
            return Err(CartError::SizeOverflow);
        }
        if header.rom_size() > 0x200000 {
            Cart::new_lorom_large(rom, ram)
        } else {
            Cart::new_lorom(rom, ram)
        }
    } else {
        Cart::new_hirom(rom, ram)
    };
    let builder = builder.named(name).fast_rom(header.fast_rom());
    let builder = match header.rom_type().enhancement_chip() {
        Some(EnhancementChip::DSP) => match dsp_rom {
            None => {
                return Err(CartError::NoDSPROM);
            },
            Some(d) => {
                if d.len() < 0x2000 {
                    return Err(CartError::DSPROMShort);
                }
                let dsp = DSP::new(d.as_slice());
                if lo {
                    builder.with_dsp_lo(dsp)
                } else {
                    builder.with_dsp_hi(dsp)
                }
            },
        },
        Some(e) => {
            return Err(CartError::UnsupportedChip(e));
        },
        None => builder,
    };
    Ok(builder.build())
}

// Laws of the cartridge.

proof fn lemma_slot_in_range(len: nat, x: u32)
    requires
        0 < len <= u32::MAX + 1,
    ensures
        0 <= sram::sram_slot(len, x) < len,
{
    let m = (len - 1) as u32;
    assert(x & m <= m) by (bit_vector);
}

proof fn lemma_device_write(v: CartView, dev: CartDevice, data: u8)
    requires
        v.ram.len() <= u32::MAX + 1,
    ensures
        ({
            let w = device_write_spec(v, dev, data);
            &&& w.rom == v.rom
            &&& w.bank_size == v.bank_size
            &&& w.mappings == v.mappings
            &&& w.fast_rom == v.fast_rom
            &&& w.rom_speed == v.rom_speed
            &&& w.name == v.name
            &&& w.ram.len() == v.ram.len()
            &&& (w.dsp is Some <==> v.dsp is Some)
            &&& (v.ram_dirty ==> w.ram_dirty)
            &&& forall|s: int| 0 <= s < v.ram.len() && v.ram[s] == data ==> #[trigger] w.ram[s] == data
        }),
{
    if let CartDevice::RAM(x) = dev {
        if v.ram.len() > 0 {
            lemma_slot_in_range(v.ram.len(), x);
        }
    }
}

proof fn lemma_write_from_keeps(
    ms: Seq<CartMapping>,
    v: CartView,
    i: int,
    bank: u8,
    addr: u16,
    data: u8,
    slot: int,
)
    requires
        0 <= i,
        0 <= slot < v.ram.len(),
        v.ram[slot] == data,
        v.ram.len() <= u32::MAX + 1,
    ensures
        ({
            let w = cart_write_from(ms, v, i, bank, addr, data);
            &&& w.ram.len() == v.ram.len()
            &&& w.ram[slot] == data
        }),
    decreases ms.len() - i,
{
    if i < ms.len() {
        let v2 = if covers(ms[i], bank, addr) {
            device_write_spec(v, map_spec(ms[i].addr_mapping, bank, addr), data)
        } else {
            v
        };
        lemma_device_write(v, map_spec(ms[i].addr_mapping, bank, addr), data);
        lemma_write_from_keeps(ms, v2, i + 1, bank, addr, data, slot);
    }
}

proof fn lemma_write_from_fixed(ms: Seq<CartMapping>, v: CartView, i: int, bank: u8, addr: u16, data: u8)
    requires
        0 <= i,
        v.ram.len() <= u32::MAX + 1,
    ensures
        ({
            let w = cart_write_from(ms, v, i, bank, addr, data);
            &&& w.rom == v.rom
            &&& w.bank_size == v.bank_size
            &&& w.mappings == v.mappings
            &&& w.fast_rom == v.fast_rom
            &&& w.rom_speed == v.rom_speed
            &&& w.name == v.name
            &&& w.ram.len() == v.ram.len()
            &&& (w.dsp is Some <==> v.dsp is Some)
        }),
    decreases ms.len() - i,
{
    if i < ms.len() {
        let v2 = if covers(ms[i], bank, addr) {
            device_write_spec(v, map_spec(ms[i].addr_mapping, bank, addr), data)
        } else {
            v
        };
        lemma_device_write(v, map_spec(ms[i].addr_mapping, bank, addr), data);
        lemma_write_from_fixed(ms, v2, i + 1, bank, addr, data);
    }
}

proof fn lemma_write_from_ram(
    ms: Seq<CartMapping>,
    v: CartView,
    i: int,
    bank: u8,
    addr: u16,
    data: u8,
    x: u32,
)
    requires
        0 <= i,
        find_device(ms, i, bank, addr) == Some(CartDevice::RAM(x)),
        0 < v.ram.len() <= u32::MAX + 1,
    ensures
        ({
            let w = cart_write_from(ms, v, i, bank, addr, data);
            &&& w.ram.len() == v.ram.len()
            &&& w.ram[sram::sram_slot(v.ram.len(), x)] == data
            &&& w.ram_dirty
        }),
    decreases ms.len() - i,
{
    let slot = sram::sram_slot(v.ram.len(), x);
    lemma_slot_in_range(v.ram.len(), x);
    if covers(ms[i], bank, addr) {
        let v2 = device_write_spec(v, CartDevice::RAM(x), data);
        lemma_write_from_keeps(ms, v2, i + 1, bank, addr, data, slot);
        lemma_write_from_dirty(ms, v2, i + 1, bank, addr, data);
    } else {
        lemma_write_from_ram(ms, v, i + 1, bank, addr, data, x);
    }
}

proof fn lemma_write_from_dirty(ms: Seq<CartMapping>, v: CartView, i: int, bank: u8, addr: u16, data: u8)
    requires
        0 <= i,
        v.ram_dirty,
        v.ram.len() <= u32::MAX + 1,
    ensures
        cart_write_from(ms, v, i, bank, addr, data).ram_dirty,
    decreases ms.len() - i,
{
    if i < ms.len() {
        let v2 = if covers(ms[i], bank, addr) {
            device_write_spec(v, map_spec(ms[i].addr_mapping, bank, addr), data)
        } else {
            v
        };
        lemma_device_write(v, map_spec(ms[i].addr_mapping, bank, addr), data);
        lemma_write_from_dirty(ms, v2, i + 1, bank, addr, data);
    }
}

/// A byte written to an address that leads to save RAM reads back from
/// that address, and the save RAM then needs flushing.
pub proof fn lemma_cart_ram_write_read(v: CartView, bank: u8, addr: u16, data: u8)
    requires
        find_device(v.mappings, 0, (bank % 0x80) as u8, addr) matches Some(CartDevice::RAM(_)),
        0 < v.ram.len() <= u32::MAX + 1,
    ensures
        cart_read_spec(cart_write_spec(v, bank, addr, data), bank, addr).0 == data,
        cart_write_spec(v, bank, addr, data).ram_dirty,
{
    let b = (bank % 0x80) as u8;
    let x = find_device(v.mappings, 0, b, addr)->Some_0->RAM_0;
    lemma_write_from_ram(v.mappings, v, 0, b, addr, data, x);
    lemma_write_from_fixed(v.mappings, v, 0, b, addr, data);
}

/// Writes never change the ROM, the mapping or the name of a cartridge,
/// nor the size of its save RAM.
pub proof fn lemma_cart_write_keeps_rom(v: CartView, bank: u8, addr: u16, data: u8)
    requires
        v.ram.len() <= u32::MAX + 1,
    ensures
        ({
            let w = cart_write_spec(v, bank, addr, data);
            &&& w.rom == v.rom
            &&& w.bank_size == v.bank_size
            &&& w.mappings == v.mappings
            &&& w.name == v.name
            &&& w.ram.len() == v.ram.len()
        }),
{
    lemma_write_from_fixed(v.mappings, v, 0, (bank % 0x80) as u8, addr, data);
}

} // verus!
