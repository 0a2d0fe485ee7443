//! A DMA / HDMA channel: its registers and address sequencing.
use vstd::prelude::*;
use crate::bits::{lo16, hi16, set_lo16, set_hi16, make24, lemma_u8_low_masks, lemma_u8_bits, bit8};

verus! {

// Control bits.
pub const TRANSFER_DIR: u8 = 0x80;
pub const HDMA_INDIRECT: u8 = 0x40;
pub const ADDR_DEC: u8 = 0x10;
pub const FIXED_ADDR: u8 = 0x08;
pub const TRANSFER_MODE: u8 = 0x07;
pub const CONTROL_VALID: u8 = 0xDF;

pub struct DMAChannelView {
    pub control: u8,
    pub b_bus_addr: u8,
    pub a_bus_addr: u16,
    pub a_bus_bank: u8,
    pub count: u16,
    pub hdma_bank: u8,
    pub hdma_table_addr: u16,
    pub hdma_line_count: u8,
    pub hdma_repeat: bool,
    pub bytes_per_cycle: u16,
}

#[derive(Clone, Copy)]
pub struct DMAChannel {
    control: u8,
    b_bus_addr: u8,
    a_bus_addr: u16,
    a_bus_bank: u8,
    count: u16,
    hdma_bank: u8,
    hdma_table_addr: u16,
    hdma_line_count: u8,
    hdma_repeat: bool,
    bytes_per_cycle: u16,
}

impl View for DMAChannel {
    type V = DMAChannelView;

    closed spec fn view(&self) -> DMAChannelView {
        DMAChannelView {
            control: self.control,
            b_bus_addr: self.b_bus_addr,
            a_bus_addr: self.a_bus_addr,
            a_bus_bank: self.a_bus_bank,
            count: self.count,
            hdma_bank: self.hdma_bank,
            hdma_table_addr: self.hdma_table_addr,
            hdma_line_count: self.hdma_line_count,
            hdma_repeat: self.hdma_repeat,
            bytes_per_cycle: self.bytes_per_cycle,
        }
    }
}

/// Bytes moved per transfer unit for a transfer mode (0-7).
pub open spec fn mode_bytes(mode: int) -> u16 {
    if mode == 0 { 1 } else if mode == 1 || mode == 2 || mode == 6 { 2 } else { 4 }
}

pub open spec fn wrap_add16(a: u16, b: u16) -> u16 {
    ((a + b) % 0x10000) as u16
}

pub open spec fn wrap_sub16(a: u16, b: u16) -> u16 {
    ((a - b + 0x10000) % 0x10000) as u16
}

/// Register `addr` ($43x0-$43xA) of a channel.
pub open spec fn reg_spec(v: DMAChannelView, addr: u8) -> u8 {
    if addr == 0 {
        v.control
    } else if addr == 1 {
        v.b_bus_addr
    } else if addr == 2 {
        (v.a_bus_addr % 256) as u8
    } else if addr == 3 {
        (v.a_bus_addr / 256) as u8
    } else if addr == 4 {
        v.a_bus_bank
    } else if addr == 5 {
        (v.count % 256) as u8
    } else if addr == 6 {
        (v.count / 256) as u8
    } else if addr == 7 {
        v.hdma_bank
    } else if addr == 8 {
        (v.hdma_table_addr % 256) as u8
    } else if addr == 9 {
        (v.hdma_table_addr / 256) as u8
    } else {
        v.hdma_line_count
    }
}

pub open spec fn set_lo(x: u16, d: u8) -> u16 {
    ((x / 256) * 256 + d) as u16
}

pub open spec fn set_hi(x: u16, d: u8) -> u16 {
    (d * 256 + x % 256) as u16
}

/// The channel after a write of `data` to register `addr`.
pub open spec fn write_spec(v: DMAChannelView, addr: u8, data: u8) -> DMAChannelView {
    if addr == 0 {
        DMAChannelView {
            control: data & CONTROL_VALID,
            bytes_per_cycle: mode_bytes(data as int % 8),
            ..v
        }
    } else if addr == 1 {
        DMAChannelView { b_bus_addr: data, ..v }
    } else if addr == 2 {
        DMAChannelView { a_bus_addr: set_lo(v.a_bus_addr, data), ..v }
    } else if addr == 3 {
        DMAChannelView { a_bus_addr: set_hi(v.a_bus_addr, data), ..v }
    } else if addr == 4 {
        DMAChannelView { a_bus_bank: data, ..v }
    } else if addr == 5 {
        DMAChannelView { count: set_lo(v.count, data), ..v }
    } else if addr == 6 {
        DMAChannelView { count: set_hi(v.count, data), ..v }
    } else if addr == 7 {
        DMAChannelView { hdma_bank: data, ..v }
    } else if addr == 8 {
        DMAChannelView { hdma_table_addr: set_lo(v.hdma_table_addr, data), ..v }
    } else if addr == 9 {
        DMAChannelView { hdma_table_addr: set_hi(v.hdma_table_addr, data), ..v }
    } else {
        DMAChannelView { hdma_line_count: data, ..v }
    }
}

fn wrapping_add16(a: u16, b: u16) -> (r: u16)
    ensures
        r == wrap_add16(a, b),
{
    ((a as u32 + b as u32) % 0x10000) as u16
}

fn wrapping_sub16(a: u16, b: u16) -> (r: u16)
    ensures
        r == wrap_sub16(a, b),
{
    ((a as u32 + 0x10000 - b as u32) % 0x10000) as u16
}

impl DMAChannel {
    pub fn new() -> (r: Self)
        ensures
            r@ == (DMAChannelView {
                control: 0,
                b_bus_addr: 0,
                a_bus_addr: 0,
                a_bus_bank: 0,
                count: 0,
                hdma_bank: 0,
                hdma_table_addr: 0xFF,
                hdma_line_count: 0,
                hdma_repeat: false,
                bytes_per_cycle: 0,
            }),
    {
        DMAChannel {
            control: 0,
            b_bus_addr: 0,
            a_bus_addr: 0,
            a_bus_bank: 0,
            count: 0,
            hdma_bank: 0,
            hdma_table_addr: 0xFF,
            hdma_line_count: 0,
            hdma_repeat: false,
            bytes_per_cycle: 0,
        }
    }

    /// Read register `addr` ($43x0-$43xA).
    pub fn read(&self, addr: u8) -> (r: u8)
        requires
            addr <= 0xA,
        ensures
            r == reg_spec(self@, addr),
    {
        if addr == 0x0 {
            self.control
        } else if addr == 0x1 {
            self.b_bus_addr
        } else if addr == 0x2 {
            lo16(self.a_bus_addr)
        } else if addr == 0x3 {
            hi16(self.a_bus_addr)
        } else if addr == 0x4 {
            self.a_bus_bank
        } else if addr == 0x5 {
            lo16(self.count)
        } else if addr == 0x6 {
            hi16(self.count)
        } else if addr == 0x7 {
            self.hdma_bank
        } else if addr == 0x8 {
            lo16(self.hdma_table_addr)
        } else if addr == 0x9 {
            hi16(self.hdma_table_addr)
        } else {
            self.hdma_line_count
        }
    }

    /// Write register `addr` ($43x0-$43xA).
    pub fn write(&mut self, addr: u8, data: u8)
        requires
            addr <= 0xA,
        ensures
            final(self)@ == write_spec(old(self)@, addr, data),
    {
        if addr == 0x0 {
            self.control = data & CONTROL_VALID;
            proof {
                lemma_u8_low_masks(data);
                assert((data & 0xDF) & 0x07 == data & 0x07) by (bit_vector);
            }
            let mode = self.control & TRANSFER_MODE;
            self.bytes_per_cycle = if mode == 0 {
                1
            } else if mode == 1 || mode == 2 || mode == 6 {
                2
            } else {
                4
            };
        } else if addr == 0x1 {
            self.b_bus_addr = data;
        } else if addr == 0x2 {
            self.a_bus_addr = set_lo16(self.a_bus_addr, data);
        } else if addr == 0x3 {
            self.a_bus_addr = set_hi16(self.a_bus_addr, data);
        } else if addr == 0x4 {
            self.a_bus_bank = data;
        } else if addr == 0x5 {
            self.count = set_lo16(self.count, data);
        } else if addr == 0x6 {
            self.count = set_hi16(self.count, data);
        } else if addr == 0x7 {
            self.hdma_bank = data;
        } else if addr == 0x8 {
            self.hdma_table_addr = set_lo16(self.hdma_table_addr, data);
        } else if addr == 0x9 {
            self.hdma_table_addr = set_hi16(self.hdma_table_addr, data);
        } else {
            self.hdma_line_count = data;
        }
    }

    /// The B-bus register written or read.
    pub fn b_bus_addr(&self) -> (r: u8)
        ensures
            r == self@.b_bus_addr,
    {
        self.b_bus_addr
    }

    /// The control register.
    pub fn control(&self) -> (r: u8)
        ensures
            r == self@.control,
    {
        self.control
    }

    /// The current A-bus address; unless fixed, the address then steps up
    /// (or down) by one transfer unit, wrapping within the bank.
    pub fn get_a_bus_addr(&mut self) -> (r: u32)
        ensures
            r == old(self)@.a_bus_bank * 65536 + old(self)@.a_bus_addr,
            final(self)@ == (DMAChannelView {
                a_bus_addr: if bit8(old(self)@.control, 3) {
                    old(self)@.a_bus_addr
                } else if !bit8(old(self)@.control, 4) {
                    wrap_add16(old(self)@.a_bus_addr, old(self)@.bytes_per_cycle)
                } else {
                    wrap_sub16(old(self)@.a_bus_addr, old(self)@.bytes_per_cycle)
                },
                ..old(self)@
            }),
    {
        let ret = make24(self.a_bus_bank, self.a_bus_addr);
        proof {
            lemma_u8_bits(self.control);
        }
        if self.control & FIXED_ADDR == 0 {
            if self.control & ADDR_DEC == 0 {
                self.a_bus_addr = wrapping_add16(self.a_bus_addr, self.bytes_per_cycle);
            } else {
                self.a_bus_addr = wrapping_sub16(self.a_bus_addr, self.bytes_per_cycle);
            }
        }
        ret
    }

    /// The B-bus address: $00:21xx.
    pub fn get_b_bus_addr(&mut self) -> (r: u32)
        ensures
            r == 0x2100 + old(self)@.b_bus_addr,
            final(self)@ == old(self)@,
    {
        0x2100 + self.b_bus_addr as u32
    }

    /// Cycles for a single transfer block: 8 per byte.
    pub fn get_cycles(&self) -> (r: usize)
        ensures
            r == mode_bytes(self@.control as int % 8) * 8,
    {
        proof {
            lemma_u8_low_masks(self.control);
        }
        let mode = self.control & TRANSFER_MODE;
        if mode == 0 {
            8
        } else if mode == 1 || mode == 2 || mode == 6 {
            16
        } else {
            32
        }
    }

    /// Decrement the bytes left and return true if the transfer is complete.
    pub fn decrement_count(&mut self) -> (r: bool)
        ensures
            final(self)@ == (DMAChannelView { count: wrap_sub16(old(self)@.count, 1), ..old(self)@ }),
            r == (final(self)@.count == 0),
    {
        self.count = wrapping_sub16(self.count, 1);
        self.count == 0
    }

    // HDMA
    pub fn start_hdma(&mut self)
        ensures
            final(self)@ == (DMAChannelView {
                hdma_table_addr: old(self)@.a_bus_addr,
                hdma_line_count: 0,
                ..old(self)@
            }),
    {
        self.hdma_table_addr = self.a_bus_addr;
        self.hdma_line_count = 0;
    }

    /// Take the line count byte of the next HDMA table entry: zero ends the
    /// table; otherwise the count less one gives the lines (bits 6-0) and
    /// the repeat flag (bit 7), and the table address moves past the byte.
    pub fn hdma_init_instr(&mut self, line_count: u8) -> (r: bool)
        ensures
            r == (line_count != 0),
            line_count == 0 ==> final(self)@ == old(self)@,
            line_count != 0 ==> final(self)@ == (DMAChannelView {
                hdma_line_count: ((line_count - 1) % 128) as u8,
                hdma_repeat: line_count - 1 >= 128,
                hdma_table_addr: wrap_add16(old(self)@.hdma_table_addr, 1),
                ..old(self)@
            }),
    {
        if line_count == 0 {
            false
        } else {
            let repeat_line_count = line_count - 1;
            proof {
                lemma_u8_low_masks(repeat_line_count);
            }
            self.hdma_line_count = repeat_line_count & 0x7F;
            self.hdma_repeat = repeat_line_count & 0x80 != 0;
            self.hdma_table_addr = wrapping_add16(self.hdma_table_addr, 1);
            true
        }
    }

    /// Count down a line. Returns false when ready for the next entry.
    pub fn hdma_step_line(&mut self) -> (r: bool)
        ensures
            r == (old(self)@.hdma_line_count != 0),
            final(self)@ == (DMAChannelView {
                hdma_line_count: if old(self)@.hdma_line_count == 0 {
                    0
                } else {
                    ((old(self)@.hdma_line_count - 1) % 128) as u8
                },
                ..old(self)@
            }),
    {
        if self.hdma_line_count == 0 {
            false
        } else {
            let c = self.hdma_line_count - 1;
            proof {
                lemma_u8_low_masks(c);
            }
            self.hdma_line_count = c & 0x7F;
            true
        }
    }

    pub fn get_hdma_table_addr(&self) -> (r: u32)
        ensures
            r == self@.a_bus_bank * 65536 + self@.hdma_table_addr,
    {
        make24(self.a_bus_bank, self.hdma_table_addr)
    }

    /// Whether the entry repeats its transfer every line (else it runs once).
    pub fn should_repeat(&self) -> (r: bool)
        ensures
            r == self@.hdma_repeat,
    {
        self.hdma_repeat
    }

    /// Set the address of indirect data, and move past it in the table.
    pub fn set_indirect_table_addr(&mut self, addr: u16)
        ensures
            final(self)@ == (DMAChannelView {
                count: addr,
                hdma_table_addr: wrap_add16(old(self)@.hdma_table_addr, 2),
                ..old(self)@
            }),
    {
        self.count = addr;
        self.hdma_table_addr = wrapping_add16(self.hdma_table_addr, 2);  // Addresses are 2 bytes.
    }

    /// Address of the data to transfer, then step past one unit: in the
    /// indirect data (indirect mode) or in the table.
    pub fn get_data_addr(&mut self) -> (r: u32)
        ensures
            bit8(old(self)@.control, 6) ==> r == old(self)@.hdma_bank * 65536 + old(self)@.count
                && final(self)@ == (DMAChannelView {
                count: wrap_add16(old(self)@.count, old(self)@.bytes_per_cycle),
                ..old(self)@
            }),
            !bit8(old(self)@.control, 6) ==> r == old(self)@.a_bus_bank * 65536 + old(self)@.hdma_table_addr
                && final(self)@ == (DMAChannelView {
                hdma_table_addr: wrap_add16(old(self)@.hdma_table_addr, old(self)@.bytes_per_cycle),
                ..old(self)@
            }),
    {
        proof {
            lemma_u8_bits(self.control);
        }
        if self.control & HDMA_INDIRECT != 0 {
            let addr = make24(self.hdma_bank, self.count);
            self.count = wrapping_add16(self.count, self.bytes_per_cycle);
            addr
        } else {
            let addr = self.get_hdma_table_addr();
            self.hdma_table_addr = wrapping_add16(self.hdma_table_addr, self.bytes_per_cycle);
            addr
        }
    }
}

/// The B-bus registers, as offsets from the channel's B-bus address, that
/// one transfer unit of mode `mode` writes (or reads) in turn: one
/// register; two registers; one register twice; two registers twice each;
/// four registers; two registers alternately, twice; and modes 6 and 7 as
/// 2 and 3.
pub open spec fn b_bus_pattern(mode: int) -> Seq<int> {
    if mode == 0 {
        seq![0]
    } else if mode == 1 {
        seq![0, 1]
    } else if mode == 2 || mode == 6 {
        seq![0, 0]
    } else if mode == 3 || mode == 7 {
        seq![0, 0, 1, 1]
    } else if mode == 4 {
        seq![0, 1, 2, 3]
    } else {
        seq![0, 1, 0, 1]
    }
}

proof fn lemma_control_mode(data: u8)
    by (bit_vector)
    ensures
        (data & 0xDFu8) % 8 == data % 8,
{
}

/// Writing the control register with transfer mode `m` (bits 2-0) makes a
/// transfer unit as many bytes as the B-bus pattern of mode `m` has
/// registers: the A-bus address steps by that many bytes per unit, and a
/// unit takes 8 master cycles per byte.
pub proof fn lemma_transfer_unit(v: DMAChannelView, data: u8)
    ensures
        ({
            let w = write_spec(v, 0, data);
            let len = b_bus_pattern(data as int % 8).len();
            &&& w.bytes_per_cycle == len
            &&& mode_bytes(w.control as int % 8) * 8 == 8 * len
            &&& wrap_add16(w.a_bus_addr, w.bytes_per_cycle) == (v.a_bus_addr + len) % 0x10000
            &&& wrap_sub16(w.a_bus_addr, w.bytes_per_cycle) == (v.a_bus_addr - len + 0x10000) % 0x10000
        }),
{
    lemma_control_mode(data);
}

/// A register reads back what was written to it (the control register
/// without its unused bit), and a write leaves every other register as it
/// was.
pub proof fn lemma_dma_register_write_read(v: DMAChannelView, addr: u8, other: u8, data: u8)
    requires
        addr <= 0xA,
        other <= 0xA,
    ensures
        reg_spec(write_spec(v, addr, data), addr) == if addr == 0 {
            data & CONTROL_VALID
        } else {
            data
        },
        other != addr ==> reg_spec(write_spec(v, addr, data), other) == reg_spec(v, other),
{
}

} // verus!
