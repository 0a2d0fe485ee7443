//! The memory bus of the SA-1: the ports through which the SNES and the
//! SA-1 CPU control each other, I-RAM and BW-RAM with their write
//! protection, the ROM bank registers, the DMA registers and the timer.
use vstd::prelude::*;
use crate::mem::RAM;
use crate::mem::rom::ROM;
use crate::bits::{lo16, hi16, set_lo16, set_hi16, set_lo24, set_mid24, set_hi24};
use super::timer::{Timer, TimerView, CONTROL_VALID};
use super::{map_bank, map_hirom_bank};
use crate::common::Interrupt;

verus! {

/// 65C816 vectors: reset (emulation mode), NMI and IRQ (native mode).
pub const RST_VECTOR_LO: u16 = 0xFFFC;
pub const RST_VECTOR_HI: u16 = 0xFFFD;
pub const NMI_VECTOR_LO: u16 = 0xFFEA;
pub const NMI_VECTOR_HI: u16 = 0xFFEB;
pub const IRQ_VECTOR_LO: u16 = 0xFFEE;
pub const IRQ_VECTOR_HI: u16 = 0xFFEF;

pub const IRAM_SIZE: usize = 0x800;
pub const BWRAM_SIZE: usize = 0x20000;

// SNES control ($2209, read at $2300).
pub const SNES_CTRL_IRQ: u8 = 0x80;
pub const SNES_CTRL_IRQ_VEC: u8 = 0x40;
pub const SNES_CTRL_DMA_IRQ: u8 = 0x20;
pub const SNES_CTRL_NMI_VEC: u8 = 0x10;

// SA-1 control ($2200).
pub const SA1_CTRL_IRQ: u8 = 0x80;
pub const SA1_CTRL_WAIT: u8 = 0x40;
pub const SA1_CTRL_RST: u8 = 0x20;
pub const SA1_CTRL_NMI: u8 = 0x10;

// SNES CPU interrupt enable and clear ($2201, $2202).
pub const SNES_INT_SA1_IRQ: u8 = 0x80;
pub const SNES_INT_DMA_IRQ: u8 = 0x20;
pub const SNES_INT_VALID: u8 = 0xA0;

// SA-1 CPU interrupt enable, clear and pending ($220A, $220B, $2301).
pub const SA1_INT_SNES_IRQ: u8 = 0x80;
pub const SA1_INT_TIMER_IRQ: u8 = 0x40;
pub const SA1_INT_DMA_IRQ: u8 = 0x20;
pub const SA1_INT_NMI: u8 = 0x10;
pub const SA1_INT_VALID: u8 = 0xF0;

// DMA control ($2230) and character conversion parameters ($2231).
pub const DMA_DST_DEVICE: u8 = 0x04;
pub const DMA_CONTROL_VALID: u8 = 0xF7;
pub const CDMA_VALID: u8 = 0x9F;

/// The abstract state of the SA-1 bus.
pub struct SA1BusView {
    pub rom: Seq<u8>,
    pub rom_bank_size: nat,
    pub iram: Seq<u8>,
    pub bwram: Seq<u8>,
    pub rom_bank_c: u8,
    pub rom_bank_d: u8,
    pub rom_bank_e: u8,
    pub rom_bank_f: u8,
    pub bwram_bitmap: u8,
    pub dma_control: u8,
    pub cdma_params: u8,
    pub dma_src_addr: u32,
    pub dma_dst_addr: u32,
    pub dma_counter: u16,
    pub dma_bitmap_regs: Seq<u8>,
    pub sa1_cpu_control: u8,
    pub sa1_int_enable: u8,
    pub sa1_int_pending: u8,
    pub sa1_rst_vector: u16,
    pub sa1_nmi_vector: u16,
    pub sa1_irq_vector: u16,
    pub sa1_bw_map: u8,
    pub sa1_bw_write_enable: u8,
    pub sa1_iram_write: u8,
    pub snes_cpu_control: u8,
    pub snes_int_enable: u8,
    pub snes_nmi_vector: u16,
    pub snes_irq_vector: u16,
    pub snes_bw_map: u8,
    pub snes_bw_write_enable: u8,
    pub snes_iram_write: u8,
    pub lo_rom: bool,
    pub timer: TimerView,
    pub cycle_count: usize,
    pub reset_latch: bool,
    pub wait_latch: bool,
}

pub struct SA1Bus {
    rom: ROM,
    iram: RAM,
    bwram: RAM,
    rom_bank_c: u8,
    rom_bank_d: u8,
    rom_bank_e: u8,
    rom_bank_f: u8,
    bwram_bitmap: u8,
    dma_control: u8,
    cdma_params: u8,
    dma_src_addr: u32,
    dma_dst_addr: u32,
    dma_counter: u16,
    dma_bitmap_regs: [u8; 16],
    sa1_cpu_control: u8,
    sa1_int_enable: u8,
    sa1_int_pending: u8,
    sa1_rst_vector: u16,
    sa1_nmi_vector: u16,
    sa1_irq_vector: u16,
    sa1_bw_map: u8,
    sa1_bw_write_enable: u8,
    sa1_iram_write: u8,
    snes_cpu_control: u8,
    snes_int_enable: u8,
    snes_nmi_vector: u16,
    snes_irq_vector: u16,
    snes_bw_map: u8,
    snes_bw_write_enable: u8,
    snes_iram_write: u8,
    lo_rom: bool,
    timer: Timer,
    cycle_count: usize,
    reset_latch: bool,
    wait_latch: bool,
}

impl View for SA1Bus {
    type V = SA1BusView;

    closed spec fn view(&self) -> SA1BusView {
        SA1BusView {
            rom: self.rom.image(),
            rom_bank_size: self.rom.spec_bank_size(),
            iram: self.iram@,
            bwram: self.bwram@,
            rom_bank_c: self.rom_bank_c,
            rom_bank_d: self.rom_bank_d,
            rom_bank_e: self.rom_bank_e,
            rom_bank_f: self.rom_bank_f,
            bwram_bitmap: self.bwram_bitmap,
            dma_control: self.dma_control,
            cdma_params: self.cdma_params,
            dma_src_addr: self.dma_src_addr,
            dma_dst_addr: self.dma_dst_addr,
            dma_counter: self.dma_counter,
            dma_bitmap_regs: self.dma_bitmap_regs@,
            sa1_cpu_control: self.sa1_cpu_control,
            sa1_int_enable: self.sa1_int_enable,
            sa1_int_pending: self.sa1_int_pending,
            sa1_rst_vector: self.sa1_rst_vector,
            sa1_nmi_vector: self.sa1_nmi_vector,
            sa1_irq_vector: self.sa1_irq_vector,
            sa1_bw_map: self.sa1_bw_map,
            sa1_bw_write_enable: self.sa1_bw_write_enable,
            sa1_iram_write: self.sa1_iram_write,
            snes_cpu_control: self.snes_cpu_control,
            snes_int_enable: self.snes_int_enable,
            snes_nmi_vector: self.snes_nmi_vector,
            snes_irq_vector: self.snes_irq_vector,
            snes_bw_map: self.snes_bw_map,
            snes_bw_write_enable: self.snes_bw_write_enable,
            snes_iram_write: self.snes_iram_write,
            lo_rom: self.lo_rom,
            timer: self.timer@,
            cycle_count: self.cycle_count,
            reset_latch: self.reset_latch,
            wait_latch: self.wait_latch,
        }
    }
}

impl SA1BusView {
    /// 2kB of I-RAM, 128kB of BW-RAM, sixteen bitmap registers, 24-bit DMA
    /// addresses.
    pub open spec fn wf(self) -> bool {
        &&& self.iram.len() == IRAM_SIZE
        &&& self.bwram.len() == BWRAM_SIZE
        &&& self.dma_bitmap_regs.len() == 16
        &&& self.dma_src_addr < 0x100_0000
        &&& self.dma_dst_addr < 0x100_0000
    }

    /// A DMA transfer: the counter is used up.
    pub open spec fn dma_done(self) -> SA1BusView {
        SA1BusView { dma_counter: 0, ..self }
    }

    /// Writing the middle byte of the DMA destination starts a transfer
    /// to I-RAM.
    pub open spec fn with_dst_mid(self, data: u8) -> SA1BusView {
        let v = SA1BusView {
            dma_dst_addr: ((self.dma_dst_addr / 65536) * 65536 + data * 256 + self.dma_dst_addr % 256) as u32,
            ..self
        };
        if self.dma_control & DMA_DST_DEVICE == 0 { v.dma_done() } else { v }
    }

    /// Writing the high byte of the DMA destination starts a transfer to
    /// BW-RAM.
    pub open spec fn with_dst_hi(self, data: u8) -> SA1BusView {
        let v = SA1BusView { dma_dst_addr: (data * 65536 + self.dma_dst_addr % 65536) as u32, ..self };
        if self.dma_control & DMA_DST_DEVICE != 0 { v.dma_done() } else { v }
    }

    /// The DMA registers that both sides write ($2231-$2237).
    pub open spec fn dma_reg_write(self, addr: u16, data: u8) -> SA1BusView {
        if addr == 0x2231 {
            SA1BusView { cdma_params: data & CDMA_VALID, ..self }
        } else if addr == 0x2232 {
            SA1BusView { dma_src_addr: ((self.dma_src_addr / 256) * 256 + data) as u32, ..self }
        } else if addr == 0x2233 {
            SA1BusView {
                dma_src_addr: ((self.dma_src_addr / 65536) * 65536 + data * 256 + self.dma_src_addr % 256) as u32,
                ..self
            }
        } else if addr == 0x2234 {
            SA1BusView { dma_src_addr: (data * 65536 + self.dma_src_addr % 65536) as u32, ..self }
        } else if addr == 0x2235 {
            SA1BusView { dma_dst_addr: ((self.dma_dst_addr / 256) * 256 + data) as u32, ..self }
        } else if addr == 0x2236 {
            self.with_dst_mid(data)
        } else {
            self.with_dst_hi(data)
        }
    }
}

/// Whether `addr` is one of the SA-1's arithmetic ports: the parameters
/// and control ($2250-$2254) and the result ($2306-$230B).
pub open spec fn is_arith_port(addr: u16) -> bool {
    (0x2250 <= addr <= 0x2254) || (0x2306 <= addr <= 0x230B)
}

/// A write by the SA-1 CPU to its ports ($2209-$225B).
pub open spec fn sa1_port_write_spec(v: SA1BusView, addr: u16, data: u8) -> SA1BusView {
    if addr == 0x2209 {
        SA1BusView { snes_cpu_control: (data & !SNES_CTRL_DMA_IRQ) | (v.snes_cpu_control & SNES_CTRL_DMA_IRQ), ..v }
    } else if addr == 0x220A {
        SA1BusView { sa1_int_enable: data & SA1_INT_VALID, ..v }
    } else if addr == 0x220B {
        let c = data & SA1_INT_VALID;
        let ctrl = if c & SA1_INT_SNES_IRQ != 0 { v.sa1_cpu_control & !SA1_CTRL_IRQ } else { v.sa1_cpu_control };
        let ctrl = if c & SA1_INT_NMI != 0 { ctrl & !SA1_CTRL_NMI } else { ctrl };
        SA1BusView { sa1_int_pending: v.sa1_int_pending & !c, sa1_cpu_control: ctrl, ..v }
    } else if addr == 0x220C {
        SA1BusView { snes_nmi_vector: ((v.snes_nmi_vector / 256) * 256 + data) as u16, ..v }
    } else if addr == 0x220D {
        SA1BusView { snes_nmi_vector: (data * 256 + v.snes_nmi_vector % 256) as u16, ..v }
    } else if addr == 0x220E {
        SA1BusView { snes_irq_vector: ((v.snes_irq_vector / 256) * 256 + data) as u16, ..v }
    } else if addr == 0x220F {
        SA1BusView { snes_irq_vector: (data * 256 + v.snes_irq_vector % 256) as u16, ..v }
    } else if addr == 0x2210 {
        SA1BusView { timer: TimerView { timer_control: data & CONTROL_VALID, ..v.timer }, ..v }
    } else if addr == 0x2211 {
        SA1BusView { timer: TimerView { h_count: 0, v_count: 0, ..v.timer }, ..v }
    } else if addr == 0x2212 {
        SA1BusView { timer: TimerView { h_count: ((v.timer.h_count / 256) * 256 + data) as u16, ..v.timer }, ..v }
    } else if addr == 0x2213 {
        SA1BusView { timer: TimerView { h_count: ((data % 2) * 256 + v.timer.h_count % 256) as u16, ..v.timer }, ..v }
    } else if addr == 0x2214 {
        SA1BusView { timer: TimerView { v_count: ((v.timer.v_count / 256) * 256 + data) as u16, ..v.timer }, ..v }
    } else if addr == 0x2215 {
        SA1BusView { timer: TimerView { v_count: ((data % 2) * 256 + v.timer.v_count % 256) as u16, ..v.timer }, ..v }
    } else if addr == 0x2225 {
        SA1BusView { sa1_bw_map: data, ..v }
    } else if addr == 0x2227 {
        SA1BusView { sa1_bw_write_enable: data, ..v }
    } else if addr == 0x222A {
        SA1BusView { sa1_iram_write: data, ..v }
    } else if addr == 0x2230 {
        SA1BusView { dma_control: data & DMA_CONTROL_VALID, ..v }
    } else if 0x2231 <= addr <= 0x2237 {
        v.dma_reg_write(addr, data)
    } else if addr == 0x2238 {
        SA1BusView { dma_counter: ((v.dma_counter / 256) * 256 + data) as u16, ..v }
    } else if addr == 0x2239 {
        SA1BusView { dma_counter: (data * 256 + v.dma_counter % 256) as u16, ..v }
    } else if 0x2240 <= addr <= 0x224F {
        SA1BusView { dma_bitmap_regs: v.dma_bitmap_regs.update(addr as int % 16, data), ..v }
    } else if addr == 0x223F {
        SA1BusView { bwram_bitmap: data, ..v }
    } else {
        v
    }
}

/// A write by the SNES CPU to the SA-1's ports ($2200-$2237).
pub open spec fn snes_port_write_spec(v: SA1BusView, addr: u16, data: u8) -> SA1BusView {
    if addr == 0x2200 {
        SA1BusView { sa1_cpu_control: data, ..v }
    } else if addr == 0x2201 {
        SA1BusView { snes_int_enable: data & SNES_INT_VALID, ..v }
    } else if addr == 0x2202 {
        let c = data & SNES_INT_VALID;
        let ctrl = if c & SNES_INT_SA1_IRQ != 0 { v.snes_cpu_control & !SNES_CTRL_IRQ } else { v.snes_cpu_control };
        let ctrl = if c & SNES_INT_DMA_IRQ != 0 { ctrl & !SNES_CTRL_DMA_IRQ } else { ctrl };
        SA1BusView { snes_cpu_control: ctrl, ..v }
    } else if addr == 0x2203 {
        SA1BusView { sa1_rst_vector: ((v.sa1_rst_vector / 256) * 256 + data) as u16, ..v }
    } else if addr == 0x2204 {
        SA1BusView { sa1_rst_vector: (data * 256 + v.sa1_rst_vector % 256) as u16, ..v }
    } else if addr == 0x2205 {
        SA1BusView { sa1_nmi_vector: ((v.sa1_nmi_vector / 256) * 256 + data) as u16, ..v }
    } else if addr == 0x2206 {
        SA1BusView { sa1_nmi_vector: (data * 256 + v.sa1_nmi_vector % 256) as u16, ..v }
    } else if addr == 0x2207 {
        SA1BusView { sa1_irq_vector: ((v.sa1_irq_vector / 256) * 256 + data) as u16, ..v }
    } else if addr == 0x2208 {
        SA1BusView { sa1_irq_vector: (data * 256 + v.sa1_irq_vector % 256) as u16, ..v }
    } else if addr == 0x2220 {
        SA1BusView { rom_bank_c: data, ..v }
    } else if addr == 0x2221 {
        SA1BusView { rom_bank_d: data, ..v }
    } else if addr == 0x2222 {
        SA1BusView { rom_bank_e: data, ..v }
    } else if addr == 0x2223 {
        SA1BusView { rom_bank_f: data, ..v }
    } else if addr == 0x2224 {
        SA1BusView { snes_bw_map: data & 0x1F, ..v }
    } else if addr == 0x2226 {
        SA1BusView { snes_bw_write_enable: data, ..v }
    } else if addr == 0x2229 {
        SA1BusView { snes_iram_write: data, ..v }
    } else if 0x2231 <= addr <= 0x2237 {
        v.dma_reg_write(addr, data)
    } else {
        v
    }
}

// ----- Memory -----

/// The ROM bank (of the ROM's bank size) that CPU bank `bank` reads at
/// `addr`: banks $00-$3F and $80-$BF through registers C-F when their bit 7
/// is set, else the default MB; banks $C0-$FF through registers C-F, as
/// 32kB halves on a LoROM cartridge; other banks read bank 0.
pub open spec fn rom_bank_for(v: SA1BusView, bank: u8, addr: u16) -> int {
    let mb = |m: int| (m % 8) * 16 + bank % 16;
    let hb = |m: int|
        if v.lo_rom {
            mb(m) * 2 + if addr >= 0x8000 { 1int } else { 0 }
        } else {
            mb(m)
        };
    if bank <= 0x1F {
        if v.rom_bank_c >= 0x80 { mb(v.rom_bank_c as int) } else { mb(bank as int / 16) }
    } else if bank <= 0x3F {
        if v.rom_bank_d >= 0x80 { mb(v.rom_bank_d as int) } else { mb(bank as int / 16) }
    } else if 0x80 <= bank <= 0x9F {
        if v.rom_bank_e >= 0x80 { mb(v.rom_bank_e as int) } else { mb(4 + (bank as int / 16) % 4) }
    } else if 0xA0 <= bank <= 0xBF {
        if v.rom_bank_f >= 0x80 { mb(v.rom_bank_f as int) } else { mb(4 + (bank as int / 16) % 4) }
    } else if 0xC0 <= bank <= 0xCF {
        hb(v.rom_bank_c as int)
    } else if 0xD0 <= bank <= 0xDF {
        hb(v.rom_bank_d as int)
    } else if 0xE0 <= bank <= 0xEF {
        hb(v.rom_bank_e as int)
    } else if 0xF0 <= bank {
        hb(v.rom_bank_f as int)
    } else {
        0
    }
}

/// The offset into the ROM bank: 32kB banks on a LoROM cartridge.
pub open spec fn rom_offset(v: SA1BusView, addr: u16) -> int {
    if v.lo_rom { addr as int % 0x8000 } else { addr as int }
}

/// The ROM bank read lies in the image.
pub open spec fn rom_ok(v: SA1BusView, bank: u8, addr: u16) -> bool {
    &&& (rom_bank_for(v, bank, addr) + 1) * v.rom_bank_size <= v.rom.len()
    &&& rom_offset(v, addr) < v.rom_bank_size
}

pub open spec fn rom_byte(v: SA1BusView, bank: u8, addr: u16) -> u8 {
    v.rom[rom_bank_for(v, bank, addr) * v.rom_bank_size + rom_offset(v, addr)]
}

/// Whether a write-protect register lets a write to I-RAM offset `a`
/// through: one bit for each 256-byte area.
pub open spec fn iram_open(mask: u8, a: u16) -> bool {
    (mask >> ((a / 256) as u8)) & 1 == 1
}

/// Banks where the system areas (ports, I-RAM, mapped BW-RAM) appear.
pub open spec fn system_bank(bank: u8) -> bool {
    bank <= 0x3F || (0x80 <= bank <= 0xBF)
}

/// The BW-RAM offset that the SNES sees at `addr` ($6000-$7FFF).
pub open spec fn snes_bw_offset(v: SA1BusView, addr: u16) -> int {
    v.snes_bw_map * 0x2000 + (addr - 0x6000)
}

/// A read by the SNES does not run off BW-RAM or the ROM image.
pub open spec fn snes_read_ok(v: SA1BusView, bank: u8, addr: u16) -> bool {
    if system_bank(bank) {
        if 0x6000 <= addr <= 0x7FFF {
            snes_bw_offset(v, addr) < BWRAM_SIZE
        } else if addr >= 0x8000 {
            bank == 0 && (addr == NMI_VECTOR_LO || addr == NMI_VECTOR_HI) && v.snes_cpu_control & SNES_CTRL_NMI_VEC != 0
                || bank == 0 && (addr == IRQ_VECTOR_LO || addr == IRQ_VECTOR_HI) && v.snes_cpu_control & SNES_CTRL_IRQ_VEC != 0
                || rom_ok(v, bank, addr)
        } else {
            true
        }
    } else if 0x40 <= bank <= 0x4F {
        (bank - 0x40) * 0x10000 + addr < BWRAM_SIZE
    } else {
        rom_ok(v, bank, addr)
    }
}

/// A read by the SNES: the replaced NMI and IRQ vectors, the SA-1 status
/// port, I-RAM, BW-RAM (mapped or in banks $40-$4F) and ROM.
pub open spec fn snes_read_spec(v: SA1BusView, bank: u8, addr: u16) -> u8 {
    let nmi = v.snes_cpu_control & SNES_CTRL_NMI_VEC != 0;
    let irq = v.snes_cpu_control & SNES_CTRL_IRQ_VEC != 0;
    if bank == 0 && addr == NMI_VECTOR_LO && nmi {
        (v.snes_nmi_vector % 256) as u8
    } else if bank == 0 && addr == NMI_VECTOR_HI && nmi {
        (v.snes_nmi_vector / 256) as u8
    } else if bank == 0 && addr == IRQ_VECTOR_LO && irq {
        (v.snes_irq_vector % 256) as u8
    } else if bank == 0 && addr == IRQ_VECTOR_HI && irq {
        (v.snes_irq_vector / 256) as u8
    } else if system_bank(bank) {
        if 0x2200 <= addr <= 0x23FF {
            if addr == 0x2300 { v.snes_cpu_control } else { 0 }
        } else if 0x3000 <= addr <= 0x37FF {
            v.iram[addr - 0x3000]
        } else if 0x6000 <= addr <= 0x7FFF {
            v.bwram[snes_bw_offset(v, addr)]
        } else if addr >= 0x8000 {
            rom_byte(v, bank, addr)
        } else {
            0
        }
    } else if 0x40 <= bank <= 0x4F {
        v.bwram[(bank - 0x40) * 0x10000 + addr]
    } else {
        rom_byte(v, bank, addr)
    }
}

/// A write by the SNES does not run off BW-RAM.
pub open spec fn snes_write_ok(v: SA1BusView, bank: u8, addr: u16) -> bool {
    let enabled = v.snes_bw_write_enable >= 0x80;
    if system_bank(bank) {
        0x6000 <= addr <= 0x7FFF && enabled ==> snes_bw_offset(v, addr) < BWRAM_SIZE
    } else {
        0x40 <= bank <= 0x4F && enabled ==> (bank - 0x40) * 0x10000 + addr < BWRAM_SIZE
    }
}

/// A write by the SNES: the ports, I-RAM where its protection allows, and
/// BW-RAM when writing is enabled.
pub open spec fn snes_write_spec(v: SA1BusView, bank: u8, addr: u16, data: u8) -> SA1BusView {
    let enabled = v.snes_bw_write_enable >= 0x80;
    if system_bank(bank) {
        if 0x2200 <= addr <= 0x23FF {
            snes_port_write_spec(v, addr, data)
        } else if 0x3000 <= addr <= 0x37FF {
            if iram_open(v.snes_iram_write, (addr - 0x3000) as u16) {
                SA1BusView { iram: v.iram.update(addr - 0x3000, data), ..v }
            } else {
                v
            }
        } else if 0x6000 <= addr <= 0x7FFF && enabled {
            SA1BusView { bwram: v.bwram.update(snes_bw_offset(v, addr), data), ..v }
        } else {
            v
        }
    } else if 0x40 <= bank <= 0x4F && enabled {
        SA1BusView { bwram: v.bwram.update((bank - 0x40) * 0x10000 + addr, data), ..v }
    } else {
        v
    }
}

/// A read of the SA-1 CPU's ports: its status (pending interrupts and the
/// message from the SNES) and the timer, whose low H byte latches both
/// counters.
pub open spec fn sa1_port_read_spec(v: SA1BusView, addr: u16) -> (u8, SA1BusView) {
    if addr == 0x2301 {
        ((v.sa1_int_pending & 0xF0) | (v.sa1_cpu_control & 0x0F), v)
    } else if addr == 0x2302 {
        ((v.timer.h_count % 256) as u8, SA1BusView { timer: TimerView { latched_h: v.timer.h_count, latched_v: v.timer.v_count, ..v.timer }, ..v })
    } else if addr == 0x2303 {
        ((v.timer.latched_h / 256) as u8, v)
    } else if addr == 0x2304 {
        ((v.timer.latched_v % 256) as u8, v)
    } else if addr == 0x2305 {
        ((v.timer.latched_v / 256) as u8, v)
    } else {
        (0, v)
    }
}

/// Bank and offset of a 24-bit address.
pub open spec fn bank_of(addr: u32) -> u8 {
    (addr / 0x10000) as u8
}

pub open spec fn offset_of(addr: u32) -> u16 {
    (addr % 0x10000) as u16
}

/// The BW-RAM offset that the SA-1 reads at `off` ($6000-$7FFF).
pub open spec fn sa1_bw_read_offset(v: SA1BusView, off: u16) -> int {
    (v.sa1_bw_map % 128) * 0x2000 + (off - 0x6000)
}

/// The BW-RAM offset that the SA-1 writes at `off` ($6000-$7FFF).
pub open spec fn sa1_bw_write_offset(v: SA1BusView, off: u16) -> int {
    v.sa1_bw_map * 0x2000 + (off - 0x6000)
}

/// The byte of BW-RAM that holds pixel `a` of the bitmap view (banks
/// $60-$6F): two 4-bit pixels a byte, or four 2-bit ones.
pub open spec fn bitmap_byte(v: SA1BusView, a: u32) -> int {
    if v.bwram_bitmap >= 0x80 { a as int / 2 } else { a as int / 4 }
}

/// A read by the SA-1 does not run off BW-RAM or the ROM image, and does
/// not read the arithmetic ports.
pub open spec fn sa1_read_ok(v: SA1BusView, addr: u32) -> bool {
    let bank = bank_of(addr);
    let off = offset_of(addr);
    &&& addr < 0x100_0000
    &&& if system_bank(bank) {
        if bank == 0 && (off == NMI_VECTOR_LO || off == NMI_VECTOR_HI || off == RST_VECTOR_LO
            || off == RST_VECTOR_HI || off == IRQ_VECTOR_LO || off == IRQ_VECTOR_HI) {
            true
        } else if 0x2200 <= off <= 0x23FF {
            !is_arith_port(off)
        } else if 0x6000 <= off <= 0x7FFF {
            sa1_bw_read_offset(v, off) < BWRAM_SIZE
        } else if off >= 0x8000 {
            rom_ok(v, bank, off)
        } else {
            true
        }
    } else if 0x40 <= bank <= 0x4F {
        addr - 0x40_0000 < BWRAM_SIZE
    } else if 0x60 <= bank <= 0x6F {
        bitmap_byte(v, (addr - 0x60_0000) as u32) < BWRAM_SIZE
    } else {
        rom_ok(v, bank, off)
    }
}

/// A read by the SA-1 CPU: its own vectors in bank 0, I-RAM, its ports,
/// BW-RAM through its mapping, linearly (banks $40-$4F) or as a bitmap
/// (banks $60-$6F), and ROM.
pub open spec fn sa1_read_spec(v: SA1BusView, addr: u32) -> (u8, SA1BusView) {
    let bank = bank_of(addr);
    let off = offset_of(addr);
    if bank == 0 && off == NMI_VECTOR_LO {
        ((v.sa1_nmi_vector % 256) as u8, v)
    } else if bank == 0 && off == NMI_VECTOR_HI {
        ((v.sa1_nmi_vector / 256) as u8, v)
    } else if bank == 0 && off == RST_VECTOR_LO {
        ((v.sa1_rst_vector % 256) as u8, v)
    } else if bank == 0 && off == RST_VECTOR_HI {
        ((v.sa1_rst_vector / 256) as u8, v)
    } else if bank == 0 && off == IRQ_VECTOR_LO {
        ((v.sa1_irq_vector % 256) as u8, v)
    } else if bank == 0 && off == IRQ_VECTOR_HI {
        ((v.sa1_irq_vector / 256) as u8, v)
    } else if system_bank(bank) {
        if off <= 0x07FF {
            (v.iram[off as int], v)
        } else if 0x2200 <= off <= 0x23FF {
            sa1_port_read_spec(v, off)
        } else if 0x3000 <= off <= 0x37FF {
            (v.iram[off - 0x3000], v)
        } else if 0x6000 <= off <= 0x7FFF {
            (v.bwram[sa1_bw_read_offset(v, off)], v)
        } else if off >= 0x8000 {
            (rom_byte(v, bank, off), v)
        } else {
            (0, v)
        }
    } else if 0x40 <= bank <= 0x4F {
        (v.bwram[addr - 0x40_0000], v)
    } else if 0x60 <= bank <= 0x6F {
        let a = (addr - 0x60_0000) as u32;
        let b = v.bwram[bitmap_byte(v, a)];
        if v.bwram_bitmap >= 0x80 {
            ((b >> ((a % 2) * 4) as u8) & 0xF, v)
        } else {
            ((b >> ((a % 4) * 2) as u8) & 0x3, v)
        }
    } else {
        (rom_byte(v, bank, off), v)
    }
}

/// A write by the SA-1 does not run off BW-RAM and does not write the
/// arithmetic ports.
pub open spec fn sa1_write_ok(v: SA1BusView, addr: u32) -> bool {
    let bank = bank_of(addr);
    let off = offset_of(addr);
    let enabled = v.sa1_bw_write_enable >= 0x80;
    &&& addr < 0x100_0000
    &&& if bank <= 0x3F {
        &&& (0x2200 <= off <= 0x23FF ==> !is_arith_port(off))
        &&& (0x6000 <= off <= 0x7FFF && enabled ==> sa1_bw_write_offset(v, off) < BWRAM_SIZE)
    } else if 0x40 <= bank <= 0x4F {
        enabled ==> addr - 0x40_0000 < BWRAM_SIZE
    } else if 0x60 <= bank <= 0x6F {
        enabled ==> bitmap_byte(v, (addr - 0x60_0000) as u32) < BWRAM_SIZE
    } else {
        true
    }
}

/// The byte of BW-RAM after pixel `a` of the bitmap view is written.
pub open spec fn bitmap_write(v: SA1BusView, a: u32, data: u8) -> u8 {
    let cur = v.bwram[bitmap_byte(v, a)];
    if v.bwram_bitmap >= 0x80 {
        let d = data & 0xF;
        if a % 2 == 0 { (cur & 0xF0) | d } else { (cur & 0x0F) | (d << 4u8) }
    } else {
        let d = data & 0x3;
        if a % 4 == 0 {
            (cur & 0xFC) | d
        } else if a % 4 == 1 {
            (cur & 0xF3) | (d << 2u8)
        } else if a % 4 == 2 {
            (cur & 0xCF) | (d << 4u8)
        } else {
            (cur & 0x3F) | (d << 6u8)
        }
    }
}

/// A write by the SA-1 CPU: I-RAM where its protection allows, its ports,
/// and BW-RAM (mapped, linear or bitmap) when writing is enabled.
pub open spec fn sa1_write_spec(v: SA1BusView, addr: u32, data: u8) -> SA1BusView {
    let bank = bank_of(addr);
    let off = offset_of(addr);
    let enabled = v.sa1_bw_write_enable >= 0x80;
    if bank <= 0x3F {
        if off <= 0x07FF {
            if iram_open(v.sa1_iram_write, off) { SA1BusView { iram: v.iram.update(off as int, data), ..v } } else { v }
        } else if 0x2200 <= off <= 0x23FF {
            sa1_port_write_spec(v, off, data)
        } else if 0x3000 <= off <= 0x37FF {
            if iram_open(v.sa1_iram_write, (off - 0x3000) as u16) {
                SA1BusView { iram: v.iram.update(off - 0x3000, data), ..v }
            } else {
                v
            }
        } else if 0x6000 <= off <= 0x7FFF && enabled {
            SA1BusView { bwram: v.bwram.update(sa1_bw_write_offset(v, off), data), ..v }
        } else {
            v
        }
    } else if 0x40 <= bank <= 0x4F && enabled {
        SA1BusView { bwram: v.bwram.update(addr - 0x40_0000, data), ..v }
    } else if 0x60 <= bank <= 0x6F && enabled {
        let a = (addr - 0x60_0000) as u32;
        SA1BusView { bwram: v.bwram.update(bitmap_byte(v, a), bitmap_write(v, a, data)), ..v }
    } else {
        v
    }
}

/// The interrupt lines to the SA-1 CPU raised by one clock of the bus.
#[derive(Clone, Copy, PartialEq, Eq, Structural, Debug)]
pub struct SA1Interrupts {
    pub nmi: bool,
    pub irq: bool,
    pub reset: bool,
    pub wait: bool,
}

/// Clocking the bus for `cycles` SA-1 cycles: the timer runs and may raise
/// its IRQ; an NMI from the SNES is taken once; releasing the reset line
/// resets the SA-1; the wait line and the SNES's IRQ are passed on.
pub open spec fn sa1_clock_spec(v: SA1BusView, cycles: usize) -> (SA1BusView, SA1Interrupts) {
    let (t, tick) = v.timer.clock(cycles);
    let timer_irq = tick && v.sa1_int_enable & SA1_INT_TIMER_IRQ != 0;
    let pending = if timer_irq { v.sa1_int_pending | SA1_INT_TIMER_IRQ } else { v.sa1_int_pending };
    let nmi = v.sa1_cpu_control & SA1_CTRL_NMI != 0 && v.sa1_int_enable & SA1_INT_NMI != 0;
    let ctrl = if nmi { v.sa1_cpu_control & !SA1_CTRL_NMI } else { v.sa1_cpu_control };
    let rst = ctrl & SA1_CTRL_RST != 0;
    let latch = v.reset_latch || rst;
    let reset = latch && !rst;
    let wait_line = ctrl & SA1_CTRL_WAIT != 0;
    let wait = (wait_line && !v.wait_latch) || (v.wait_latch && !wait_line);
    let irq = timer_irq || (ctrl & SA1_CTRL_IRQ != 0 && v.sa1_int_enable & SA1_INT_SNES_IRQ != 0);
    (
        SA1BusView {
            timer: t,
            sa1_int_pending: pending,
            sa1_cpu_control: ctrl,
            reset_latch: latch && !reset,
            cycle_count: (v.cycle_count + cycles) as usize,
            ..v
        },
        SA1Interrupts { nmi: nmi, irq: irq, reset: reset, wait: wait },
    )
}

/// The SNES sees an IRQ when the SA-1 raised one, or a character
/// conversion DMA finished, and it is enabled.
pub open spec fn snes_irq_spec(v: SA1BusView) -> bool {
    (v.snes_cpu_control & SNES_CTRL_IRQ != 0 && v.snes_int_enable & SNES_INT_SA1_IRQ != 0)
        || (v.snes_cpu_control & SNES_CTRL_DMA_IRQ != 0 && v.snes_int_enable & SNES_INT_DMA_IRQ != 0)
}

/// The 32kB-unit ROM bank that the SA-1's banking gives CPU bank `b`:
/// banks $00-$1F, $20-$3F, $80-$9F and $A0-$BF follow ROM registers C, D,
/// E and F when bit 7 of the register is set (its MB, then the bank's low
/// nybble); otherwise $00-$3F read the first 2MB and $80-$BF the next 2MB
/// in order. Banks $C0-$FF always follow C-F, as 64kB banks made of two
/// 32kB halves on a LoROM cartridge.
pub open spec fn sa1_bank_law(v: SA1BusView, b: int, addr: int) -> int {
    let reg: int = if b <= 0x1F || (0xC0 <= b <= 0xCF) {
        v.rom_bank_c as int
    } else if b <= 0x3F || (0xD0 <= b <= 0xDF) {
        v.rom_bank_d as int
    } else if b <= 0x9F || (0xE0 <= b <= 0xEF) {
        v.rom_bank_e as int
    } else {
        v.rom_bank_f as int
    };
    let m = (reg % 8) * 16 + b % 16;
    if b >= 0xC0 {
        if v.lo_rom { 2 * m + if addr >= 0x8000 { 1int } else { 0 } } else { m }
    } else if reg >= 0x80 {
        m
    } else if b <= 0x3F {
        b
    } else {
        b - 0x40
    }
}

/// Reads of banked ROM, by the SNES or the SA-1, give the byte at
/// `sa1_bank_law` of the bank in the ROM image (32kB banks on a LoROM
/// cartridge, the offset taken within them).
pub proof fn lemma_rom_banking(v: SA1BusView, bank: u8, addr: u16)
    requires
        v.wf(),
        ((bank <= 0x3F || (0x80 <= bank <= 0xBF)) && addr >= 0x8000) || bank >= 0xC0,
        bank == 0 ==> v.snes_cpu_control & SNES_CTRL_NMI_VEC == 0 && v.snes_cpu_control & SNES_CTRL_IRQ_VEC == 0,
        bank == 0 ==> addr < 0xFFE0,
        (sa1_bank_law(v, bank as int, addr as int) + 1) * v.rom_bank_size <= v.rom.len(),
        (if v.lo_rom { addr as int % 0x8000 } else { addr as int }) < v.rom_bank_size,
    ensures
        ({
            let byte = v.rom[sa1_bank_law(v, bank as int, addr as int) * v.rom_bank_size + if v.lo_rom {
                addr as int % 0x8000
            } else {
                addr as int
            }];
            &&& snes_read_spec(v, bank, addr) == byte
            &&& sa1_read_spec(v, (bank * 0x10000 + addr) as u32).0 == byte
        }),
{
    let a = (bank * 0x10000 + addr) as u32;
    assert(bank_of(a) == bank && offset_of(a) == addr);
    assert(rom_bank_for(v, bank, addr) == sa1_bank_law(v, bank as int, addr as int));
}

/// A byte the SNES writes to BW-RAM while writing is enabled reads back
/// from the same address, on both the SNES and the SA-1 side.
pub proof fn lemma_bwram_write_read(v: SA1BusView, bank: u8, addr: u16, data: u8)
    requires
        v.wf(),
        0x40 <= bank <= 0x41,
        v.snes_bw_write_enable >= 0x80,
    ensures
        snes_read_spec(snes_write_spec(v, bank, addr, data), bank, addr) == data,
        sa1_read_spec(snes_write_spec(v, bank, addr, data), (bank * 0x10000 + addr) as u32).0 == data,
{
    let a = (bank * 0x10000 + addr) as u32;
    assert(bank_of(a) == bank && offset_of(a) == addr);
}

/// The message the SNES writes to the SA-1 control register is what the
/// SA-1 reads in its status register, beside its pending interrupts.
pub proof fn lemma_message_to_sa1(v: SA1BusView, data: u8)
    requires
        v.wf(),
    ensures
        sa1_read_spec(snes_port_write_spec(v, 0x2200, data), 0x2301).0 == (v.sa1_int_pending & 0xF0) | (data & 0x0F),
{
    assert(bank_of(0x2301) == 0 && offset_of(0x2301) == 0x2301);
}

impl SA1Bus {
    /// A bus for ROM `rom`, LoROM-mapped or not: memories cleared, ROM
    /// banks C-F mapped to the first four MB, the SNES vectors at their
    /// defaults.
    pub fn new(rom: ROM, lo_rom: bool) -> (r: Self)
        ensures
            r@.wf(),
            r@.rom == rom.image(),
            r@.rom_bank_size == rom.spec_bank_size(),
            r@.iram == Seq::new(IRAM_SIZE as nat, |i: int| 0u8),
            r@.bwram == Seq::new(BWRAM_SIZE as nat, |i: int| 0u8),
            r@.rom_bank_c == 0,
            r@.rom_bank_d == 1,
            r@.rom_bank_e == 2,
            r@.rom_bank_f == 3,
            r@.bwram_bitmap == 0,
            r@.dma_control == 0,
            r@.cdma_params == 0,
            r@.dma_src_addr == 0,
            r@.dma_dst_addr == 0,
            r@.dma_counter == 0,
            r@.dma_bitmap_regs == Seq::new(16, |i: int| 0u8),
            r@.sa1_cpu_control == 0,
            r@.sa1_int_enable == 0,
            r@.sa1_int_pending == 0,
            r@.sa1_rst_vector == 0,
            r@.sa1_nmi_vector == 0,
            r@.sa1_irq_vector == 0,
            r@.sa1_bw_map == 0,
            r@.sa1_bw_write_enable == 0,
            r@.sa1_iram_write == 0,
            r@.snes_cpu_control == 0,
            r@.snes_int_enable == 0,
            r@.snes_nmi_vector == NMI_VECTOR_LO,
            r@.snes_irq_vector == IRQ_VECTOR_LO,
            r@.snes_bw_map == 0,
            r@.snes_bw_write_enable == 0,
            r@.snes_iram_write == 0,
            r@.lo_rom == lo_rom,
            r@.timer == (TimerView { timer_control: 0, h_count: 0, v_count: 0, latched_h: 0, latched_v: 0, cycle_count: 0 }),
            r@.cycle_count == 0,
            r@.reset_latch,
            !r@.wait_latch,
    {
        let r = Self {
            rom: rom,
            iram: RAM::new(IRAM_SIZE),
            bwram: RAM::new(BWRAM_SIZE),
            rom_bank_c: 0,
            rom_bank_d: 1,
            rom_bank_e: 2,
            rom_bank_f: 3,
            bwram_bitmap: 0,
            dma_control: 0,
            cdma_params: 0,
            dma_src_addr: 0,
            dma_dst_addr: 0,
            dma_counter: 0,
            dma_bitmap_regs: [0; 16],
            sa1_cpu_control: 0,
            sa1_int_enable: 0,
            sa1_int_pending: 0,
            sa1_rst_vector: 0,
            sa1_nmi_vector: 0,
            sa1_irq_vector: 0,
            sa1_bw_map: 0,
            sa1_bw_write_enable: 0,
            sa1_iram_write: 0,
            snes_cpu_control: 0,
            snes_int_enable: 0,
            snes_nmi_vector: NMI_VECTOR_LO,
            snes_irq_vector: IRQ_VECTOR_LO,
            snes_bw_map: 0,
            snes_bw_write_enable: 0,
            snes_iram_write: 0,
            lo_rom: lo_rom,
            timer: Timer::new(),
            cycle_count: 0,
            reset_latch: true,
            wait_latch: false,
        };
        assert(r@.dma_bitmap_regs =~= Seq::new(16, |i: int| 0u8));
        r
    }

    fn write_dma_dst_addr_mid(&mut self, data: u8)
        requires
            old(self)@.wf(),
        ensures
            final(self)@.wf(),
            final(self)@ == old(self)@.with_dst_mid(data),
    {
        self.dma_dst_addr = set_mid24(self.dma_dst_addr, data);
        if self.dma_control & DMA_DST_DEVICE == 0 {
            self.dma_transfer();
        }
    }

    fn write_dma_dst_addr_hi(&mut self, data: u8)
        requires
            old(self)@.wf(),
        ensures
            final(self)@.wf(),
            final(self)@ == old(self)@.with_dst_hi(data),
    {
        self.dma_dst_addr = set_hi24(self.dma_dst_addr, data);
        if self.dma_control & DMA_DST_DEVICE != 0 {
            self.dma_transfer();
        }
    }

    /// A DMA transfer: no data is moved yet; the counter is used up.
    fn dma_transfer(&mut self)
        ensures
            final(self)@ == old(self)@.dma_done(),
    {
        let mut i: u16 = 0;
        while i < self.dma_counter
            invariant
                self@ == old(self)@,
            decreases self.dma_counter - i,
        {
            i = i + 1;
        }
        self.dma_counter = 0;
    }

    fn write_dma_reg(&mut self, addr: u16, data: u8)
        requires
            old(self)@.wf(),
            0x2231 <= addr <= 0x2237,
        ensures
            final(self)@.wf(),
            final(self)@ == old(self)@.dma_reg_write(addr, data),
    {
        if addr == 0x2231 {
            self.cdma_params = data & CDMA_VALID;
        } else if addr == 0x2232 {
            self.dma_src_addr = set_lo24(self.dma_src_addr, data);
        } else if addr == 0x2233 {
            self.dma_src_addr = set_mid24(self.dma_src_addr, data);
        } else if addr == 0x2234 {
            self.dma_src_addr = set_hi24(self.dma_src_addr, data);
        } else if addr == 0x2235 {
            self.dma_dst_addr = set_lo24(self.dma_dst_addr, data);
        } else if addr == 0x2236 {
            self.write_dma_dst_addr_mid(data);
        } else {
            self.write_dma_dst_addr_hi(data);
        }
    }

    fn clear_sa1_ints(&mut self, data: u8)
        requires
            old(self)@.wf(),
        ensures
            final(self)@.wf(),
            final(self)@ == sa1_port_write_spec(old(self)@, 0x220B, data),
    {
        let to_clear = data & SA1_INT_VALID;
        self.sa1_int_pending = self.sa1_int_pending & !to_clear;
        if to_clear & SA1_INT_SNES_IRQ != 0 {
            self.sa1_cpu_control = self.sa1_cpu_control & !SA1_CTRL_IRQ;
        }
        if to_clear & SA1_INT_NMI != 0 {
            self.sa1_cpu_control = self.sa1_cpu_control & !SA1_CTRL_NMI;
        }
    }

    fn clear_snes_ints(&mut self, data: u8)
        requires
            old(self)@.wf(),
        ensures
            final(self)@.wf(),
            final(self)@ == snes_port_write_spec(old(self)@, 0x2202, data),
    {
        let to_clear = data & SNES_INT_VALID;
        if to_clear & SNES_INT_SA1_IRQ != 0 {
            self.snes_cpu_control = self.snes_cpu_control & !SNES_CTRL_IRQ;
        }
        if to_clear & SNES_INT_DMA_IRQ != 0 {
            self.snes_cpu_control = self.snes_cpu_control & !SNES_CTRL_DMA_IRQ;
        }
    }

    /// A write by the SA-1 CPU to its ports. The arithmetic ports are not
    /// held by this bus.
    pub fn write_sa1_port(&mut self, addr: u16, data: u8)
        requires
            old(self)@.wf(),
            !is_arith_port(addr),
        ensures
            final(self)@.wf(),
            final(self)@ == sa1_port_write_spec(old(self)@, addr, data),
    {
        if addr == 0x2209 {
            let dma_irq = self.snes_cpu_control & SNES_CTRL_DMA_IRQ;
            self.snes_cpu_control = (data & !SNES_CTRL_DMA_IRQ) | dma_irq;
        } else if addr == 0x220A {
            self.sa1_int_enable = data & SA1_INT_VALID;
        } else if addr == 0x220B {
            self.clear_sa1_ints(data);
        } else if addr == 0x220C {
            self.snes_nmi_vector = set_lo16(self.snes_nmi_vector, data);
        } else if addr == 0x220D {
            self.snes_nmi_vector = set_hi16(self.snes_nmi_vector, data);
        } else if addr == 0x220E {
            self.snes_irq_vector = set_lo16(self.snes_irq_vector, data);
        } else if addr == 0x220F {
            self.snes_irq_vector = set_hi16(self.snes_irq_vector, data);
        } else if addr == 0x2210 {
            self.timer.write_control(data);
        } else if addr == 0x2211 {
            self.timer.restart();
        } else if addr == 0x2212 {
            self.timer.write_h_lo(data);
        } else if addr == 0x2213 {
            self.timer.write_h_hi(data);
        } else if addr == 0x2214 {
            self.timer.write_v_lo(data);
        } else if addr == 0x2215 {
            self.timer.write_v_hi(data);
        } else if addr == 0x2225 {
            self.sa1_bw_map = data;
        } else if addr == 0x2227 {
            self.sa1_bw_write_enable = data;
        } else if addr == 0x222A {
            self.sa1_iram_write = data;
        } else if addr == 0x2230 {
            self.dma_control = data & DMA_CONTROL_VALID;
        } else if addr >= 0x2231 && addr <= 0x2237 {
            self.write_dma_reg(addr, data);
        } else if addr == 0x2238 {
            self.dma_counter = set_lo16(self.dma_counter, data);
        } else if addr == 0x2239 {
            self.dma_counter = set_hi16(self.dma_counter, data);
        } else if addr >= 0x2240 && addr <= 0x224F {
            self.dma_bitmap_regs[(addr % 16) as usize] = data;
        } else if addr == 0x223F {
            self.bwram_bitmap = data;
        }
    }

    /// A write by the SNES CPU to the SA-1's ports.
    pub fn write_snes_port(&mut self, addr: u16, data: u8)
        requires
            old(self)@.wf(),
        ensures
            final(self)@.wf(),
            final(self)@ == snes_port_write_spec(old(self)@, addr, data),
    {
        if addr == 0x2200 {
            self.sa1_cpu_control = data;
        } else if addr == 0x2201 {
            self.snes_int_enable = data & SNES_INT_VALID;
        } else if addr == 0x2202 {
            self.clear_snes_ints(data);
        } else if addr == 0x2203 {
            self.sa1_rst_vector = set_lo16(self.sa1_rst_vector, data);
        } else if addr == 0x2204 {
            self.sa1_rst_vector = set_hi16(self.sa1_rst_vector, data);
        } else if addr == 0x2205 {
            self.sa1_nmi_vector = set_lo16(self.sa1_nmi_vector, data);
        } else if addr == 0x2206 {
            self.sa1_nmi_vector = set_hi16(self.sa1_nmi_vector, data);
        } else if addr == 0x2207 {
            self.sa1_irq_vector = set_lo16(self.sa1_irq_vector, data);
        } else if addr == 0x2208 {
            self.sa1_irq_vector = set_hi16(self.sa1_irq_vector, data);
        } else if addr == 0x2220 {
            self.rom_bank_c = data;
        } else if addr == 0x2221 {
            self.rom_bank_d = data;
        } else if addr == 0x2222 {
            self.rom_bank_e = data;
        } else if addr == 0x2223 {
            self.rom_bank_f = data;
        } else if addr == 0x2224 {
            self.snes_bw_map = data & 0x1F;
        } else if addr == 0x2226 {
            self.snes_bw_write_enable = data;
        } else if addr == 0x2229 {
            self.snes_iram_write = data;
        } else if addr >= 0x2231 && addr <= 0x2237 {
            self.write_dma_reg(addr, data);
        }
    }
}

// Memory access
impl SA1Bus {
    /// Read ROM through the bank registers.
    fn read_rom(&self, bank: u8, addr: u16) -> (r: u8)
        requires
            rom_ok(self@, bank, addr),
        ensures
            r == rom_byte(self@, bank, addr),
    {
        let mapped_bank = if bank <= 0x1F {
            if self.rom_bank_c >= 0x80 { map_bank(bank, self.rom_bank_c) } else { map_bank(bank, bank / 16) }
        } else if bank <= 0x3F {
            if self.rom_bank_d >= 0x80 { map_bank(bank, self.rom_bank_d) } else { map_bank(bank, bank / 16) }
        } else if bank >= 0x80 && bank <= 0x9F {
            if self.rom_bank_e >= 0x80 { map_bank(bank, self.rom_bank_e) } else { map_bank(bank, 4 + (bank / 16) % 4) }
        } else if bank >= 0xA0 && bank <= 0xBF {
            if self.rom_bank_f >= 0x80 { map_bank(bank, self.rom_bank_f) } else { map_bank(bank, 4 + (bank / 16) % 4) }
        } else if bank >= 0xC0 && bank <= 0xCF {
            map_hirom_bank(bank, self.rom_bank_c, self.lo_rom, addr)
        } else if bank >= 0xD0 && bank <= 0xDF {
            map_hirom_bank(bank, self.rom_bank_d, self.lo_rom, addr)
        } else if bank >= 0xE0 && bank <= 0xEF {
            map_hirom_bank(bank, self.rom_bank_e, self.lo_rom, addr)
        } else if bank >= 0xF0 {
            map_hirom_bank(bank, self.rom_bank_f, self.lo_rom, addr)
        } else {
            0
        };
        assert(mapped_bank == rom_bank_for(self@, bank, addr));
        self.rom.read(mapped_bank, if self.lo_rom { addr % 0x8000 } else { addr })
    }

    /// A read by the SNES CPU (see `snes_read_spec`).
    pub fn snes_read(&mut self, bank: u8, addr: u16) -> (r: u8)
        requires
            old(self)@.wf(),
            snes_read_ok(old(self)@, bank, addr),
        ensures
            final(self)@ == old(self)@,
            r == snes_read_spec(old(self)@, bank, addr),
    {
        let nmi = self.snes_cpu_control & SNES_CTRL_NMI_VEC != 0;
        let irq = self.snes_cpu_control & SNES_CTRL_IRQ_VEC != 0;
        if bank == 0 && addr == NMI_VECTOR_LO && nmi {
            lo16(self.snes_nmi_vector)
        } else if bank == 0 && addr == NMI_VECTOR_HI && nmi {
            hi16(self.snes_nmi_vector)
        } else if bank == 0 && addr == IRQ_VECTOR_LO && irq {
            lo16(self.snes_irq_vector)
        } else if bank == 0 && addr == IRQ_VECTOR_HI && irq {
            hi16(self.snes_irq_vector)
        } else if bank <= 0x3F || (bank >= 0x80 && bank <= 0xBF) {
            if addr >= 0x2200 && addr <= 0x23FF {
                if addr == 0x2300 { self.snes_cpu_control } else { 0 }
            } else if addr >= 0x3000 && addr <= 0x37FF {
                self.iram.read((addr - 0x3000) as u32)
            } else if addr >= 0x6000 && addr <= 0x7FFF {
                self.bwram.read((self.snes_bw_map as u32) * 0x2000 + (addr - 0x6000) as u32)
            } else if addr >= 0x8000 {
                self.read_rom(bank, addr)
            } else {
                0
            }
        } else if bank >= 0x40 && bank <= 0x4F {
            self.bwram.read(((bank - 0x40) as u32) * 0x10000 + addr as u32)
        } else {
            self.read_rom(bank, addr)
        }
    }

    /// A write by the SNES CPU (see `snes_write_spec`).
    pub fn snes_write(&mut self, bank: u8, addr: u16, data: u8)
        requires
            old(self)@.wf(),
            snes_write_ok(old(self)@, bank, addr),
        ensures
            final(self)@.wf(),
            final(self)@ == snes_write_spec(old(self)@, bank, addr, data),
    {
        let enabled = self.snes_bw_write_enable >= 0x80;
        if bank <= 0x3F || (bank >= 0x80 && bank <= 0xBF) {
            if addr >= 0x2200 && addr <= 0x23FF {
                self.write_snes_port(addr, data);
            } else if addr >= 0x3000 && addr <= 0x37FF {
                let a = addr - 0x3000;
                if (self.snes_iram_write >> ((a / 256) as u8)) & 1 == 1 {
                    self.iram.write(a as u32, data);
                }
            } else if addr >= 0x6000 && addr <= 0x7FFF && enabled {
                self.bwram.write((self.snes_bw_map as u32) * 0x2000 + (addr - 0x6000) as u32, data);
            }
        } else if bank >= 0x40 && bank <= 0x4F && enabled {
            self.bwram.write(((bank - 0x40) as u32) * 0x10000 + addr as u32, data);
        }
    }

    /// Whether the SNES is to see an IRQ from the SA-1.
    pub fn check_snes_interrupts(&mut self) -> (r: Option<Interrupt>)
        ensures
            final(self)@ == old(self)@,
            r == if snes_irq_spec(old(self)@) { Some(Interrupt::IRQ) } else { None::<Interrupt> },
    {
        if (self.snes_cpu_control & SNES_CTRL_IRQ != 0 && self.snes_int_enable & SNES_INT_SA1_IRQ != 0)
            || (self.snes_cpu_control & SNES_CTRL_DMA_IRQ != 0 && self.snes_int_enable & SNES_INT_DMA_IRQ != 0) {
            Some(Interrupt::IRQ)
        } else {
            None
        }
    }

    /// The SA-1 cycles counted since the last call; the count restarts.
    pub fn get_cycle_count(&mut self) -> (r: usize)
        ensures
            r == old(self)@.cycle_count,
            final(self)@ == (SA1BusView { cycle_count: 0, ..old(self)@ }),
    {
        let c = self.cycle_count;
        self.cycle_count = 0;
        c
    }

    /// A read by the SA-1 CPU of its ports (see `sa1_port_read_spec`).
    fn read_sa1_port(&mut self, addr: u16) -> (r: u8)
        ensures
            (r, final(self)@) == sa1_port_read_spec(old(self)@, addr),
    {
        if addr == 0x2301 {
            (self.sa1_int_pending & 0xF0) | (self.sa1_cpu_control & 0x0F)
        } else if addr == 0x2302 {
            self.timer.read_h_lo()
        } else if addr == 0x2303 {
            self.timer.read_h_hi()
        } else if addr == 0x2304 {
            self.timer.read_v_lo()
        } else if addr == 0x2305 {
            self.timer.read_v_hi()
        } else {
            0
        }
    }

    /// A read by the SA-1 CPU at 24-bit address `addr` (see
    /// `sa1_read_spec`); every access takes two cycles.
    pub fn read(&mut self, addr: u32) -> (r: (u8, usize))
        requires
            old(self)@.wf(),
            sa1_read_ok(old(self)@, addr),
        ensures
            final(self)@.wf(),
            (r.0, final(self)@) == sa1_read_spec(old(self)@, addr),
            r.1 == 2,
    {
        let bank = (addr / 0x10000) as u8;
        let off = (addr % 0x10000) as u16;
        let data = if bank == 0 && off == NMI_VECTOR_LO {
            lo16(self.sa1_nmi_vector)
        } else if bank == 0 && off == NMI_VECTOR_HI {
            hi16(self.sa1_nmi_vector)
        } else if bank == 0 && off == RST_VECTOR_LO {
            lo16(self.sa1_rst_vector)
        } else if bank == 0 && off == RST_VECTOR_HI {
            hi16(self.sa1_rst_vector)
        } else if bank == 0 && off == IRQ_VECTOR_LO {
            lo16(self.sa1_irq_vector)
        } else if bank == 0 && off == IRQ_VECTOR_HI {
            hi16(self.sa1_irq_vector)
        } else if bank <= 0x3F || (bank >= 0x80 && bank <= 0xBF) {
            if off <= 0x07FF {
                self.iram.read(off as u32)
            } else if off >= 0x2200 && off <= 0x23FF {
                self.read_sa1_port(off)
            } else if off >= 0x3000 && off <= 0x37FF {
                self.iram.read((off - 0x3000) as u32)
            } else if off >= 0x6000 && off <= 0x7FFF {
                self.bwram.read(((self.sa1_bw_map % 128) as u32) * 0x2000 + (off - 0x6000) as u32)
            } else if off >= 0x8000 {
                self.read_rom(bank, off)
            } else {
                0
            }
        } else if bank >= 0x40 && bank <= 0x4F {
            self.bwram.read(addr - 0x40_0000)
        } else if bank >= 0x60 && bank <= 0x6F {
            let a = addr - 0x60_0000;
            if self.bwram_bitmap >= 0x80 {
                (self.bwram.read(a / 2) >> ((a % 2) * 4) as u8) & 0xF
            } else {
                (self.bwram.read(a / 4) >> ((a % 4) * 2) as u8) & 0x3
            }
        } else {
            self.read_rom(bank, off)
        };
        (data, 2)
    }

    /// A write by the SA-1 CPU at 24-bit address `addr` (see
    /// `sa1_write_spec`); every access takes two cycles.
    pub fn write(&mut self, addr: u32, data: u8) -> (r: usize)
        requires
            old(self)@.wf(),
            sa1_write_ok(old(self)@, addr),
        ensures
            final(self)@.wf(),
            final(self)@ == sa1_write_spec(old(self)@, addr, data),
            r == 2,
    {
        let bank = (addr / 0x10000) as u8;
        let off = (addr % 0x10000) as u16;
        let enabled = self.sa1_bw_write_enable >= 0x80;
        if bank <= 0x3F {
            if off <= 0x07FF {
                if (self.sa1_iram_write >> ((off / 256) as u8)) & 1 == 1 {
                    self.iram.write(off as u32, data);
                }
            } else if off >= 0x2200 && off <= 0x23FF {
                self.write_sa1_port(off, data);
            } else if off >= 0x3000 && off <= 0x37FF {
                let a = off - 0x3000;
                if (self.sa1_iram_write >> ((a / 256) as u8)) & 1 == 1 {
                    self.iram.write(a as u32, data);
                }
            } else if off >= 0x6000 && off <= 0x7FFF && enabled {
                self.bwram.write((self.sa1_bw_map as u32) * 0x2000 + (off - 0x6000) as u32, data);
            }
        } else if bank >= 0x40 && bank <= 0x4F && enabled {
            self.bwram.write(addr - 0x40_0000, data);
        } else if bank >= 0x60 && bank <= 0x6F && enabled {
            let a = addr - 0x60_0000;
            let byte_addr = if self.bwram_bitmap >= 0x80 { a / 2 } else { a / 4 };
            let cur = self.bwram.read(byte_addr);
            let byte = if self.bwram_bitmap >= 0x80 {
                let d = data & 0xF;
                if a % 2 == 0 { (cur & 0xF0) | d } else { (cur & 0x0F) | (d << 4u8) }
            } else {
                let d = data & 0x3;
                if a % 4 == 0 {
                    (cur & 0xFC) | d
                } else if a % 4 == 1 {
                    (cur & 0xF3) | (d << 2u8)
                } else if a % 4 == 2 {
                    (cur & 0xCF) | (d << 4u8)
                } else {
                    (cur & 0x3F) | (d << 6u8)
                }
            };
            self.bwram.write(byte_addr, byte);
        }
        2
    }

    /// Clock the bus for `cycles` SA-1 cycles (see `sa1_clock_spec`).
    pub fn clock(&mut self, cycles: usize) -> (r: SA1Interrupts)
        requires
            old(self)@.timer.clock_ok(cycles),
            old(self)@.cycle_count + cycles <= usize::MAX,
        ensures
            (final(self)@, r) == sa1_clock_spec(old(self)@, cycles),
    {
        let mut ret = SA1Interrupts { nmi: false, irq: false, reset: false, wait: false };
        if self.timer.clock(cycles) && self.sa1_int_enable & SA1_INT_TIMER_IRQ != 0 {
            self.sa1_int_pending = self.sa1_int_pending | SA1_INT_TIMER_IRQ;
            ret.irq = true;
        }
        if self.sa1_cpu_control & SA1_CTRL_NMI != 0 && self.sa1_int_enable & SA1_INT_NMI != 0 {
            self.sa1_cpu_control = self.sa1_cpu_control & !SA1_CTRL_NMI;
            ret.nmi = true;
        }
        let rst = self.sa1_cpu_control & SA1_CTRL_RST != 0;
        if !self.reset_latch && rst {
            self.reset_latch = true;
        }
        if self.reset_latch && !rst {
            self.reset_latch = false;
            ret.reset = true;
        }
        let wait_line = self.sa1_cpu_control & SA1_CTRL_WAIT != 0;
        if wait_line && !self.wait_latch {
            ret.wait = true;
        }
        if self.wait_latch && !wait_line {
            ret.wait = true;
        }
        if self.sa1_cpu_control & SA1_CTRL_IRQ != 0 && self.sa1_int_enable & SA1_INT_SNES_IRQ != 0 {
            ret.irq = true;
        }
        self.cycle_count = self.cycle_count + cycles;
        ret
    }
}

} // verus!
