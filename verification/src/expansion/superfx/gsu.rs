//! The GSU itself: the registers the SNES reads and writes, jumps through
//! the instruction cache, filling the cache from ROM, and executing its
//! instructions.
use vstd::prelude::*;
use super::cache::{Cache, CacheView, CacheResult, cache_lookup, cache_offset, CACHE_SIZE};
use super::pixelcache::{PixelCache, PixelCacheView, ScreenHeight, bpp_of, height_of, colr_written, por_written};
use super::romcache::{ROMCache, ROMCacheView};
use super::ROM_WAIT_CYCLES;
use crate::bits::{bit8, lo16, hi16, make16};

verus! {

pub const PC_REG: usize = 15;

// Status flag bits.
pub const FLAG_IRQ: u16 = 0x8000;
pub const FLAG_B: u16 = 0x1000;
pub const FLAG_IH: u16 = 0x0800;
pub const FLAG_IL: u16 = 0x0400;
pub const FLAG_ALT2: u16 = 0x0200;
pub const FLAG_ALT1: u16 = 0x0100;
pub const FLAG_GO: u16 = 0x0020;
pub const FLAG_OV: u16 = 0x0010;
pub const FLAG_S: u16 = 0x0008;
pub const FLAG_CY: u16 = 0x0004;
pub const FLAG_Z: u16 = 0x0002;
/// The prefix flags an instruction clears when it completes.
pub const FLAG_PREFIX: u16 = 0x1300;

// Registers with special uses.
pub const MULT_DST_REG: usize = 4;
pub const MULT_OP_REG: usize = 6;
pub const MERGE_HI_REG: usize = 7;
pub const MERGE_LO_REG: usize = 8;
pub const LINK_REG: usize = 11;
pub const LOOP_CTR_REG: usize = 12;
pub const LOOP_PTR_REG: usize = 13;
pub const ROM_PTR_REG: usize = 14;

// Config bits.
pub const CFG_IRQ: u8 = 0x80;
pub const CFG_MS0: u8 = 0x20;
/// The flags the SNES can write: Z, CY, S, OV and GO.
pub const FLAG_WRITABLE: u16 = 0x003E;

/// What the GSU does on its next cycle.
#[derive(Clone, Copy, PartialEq, Eq, Structural)]
pub enum FXState {
    /// Ready to process the next instruction.
    Ready,
    /// Waiting for data or internal processing for an instruction.
    WaitInternal(u8),
    /// Filling the cache at `current`, then going on at `next`.
    WaitCacheFill { current: u16, next: u16 },
}

/// The abstract state of the GSU.
pub struct SuperFXView {
    pub state: FXState,
    pub regs: Seq<u16>,
    pub regs_latch: u8,
    pub pc_next: u16,
    pub pb_next: u8,
    pub flags: u16,
    pub pb: u8,
    pub romb: u8,
    pub ramb: u8,
    pub backup: u8,
    pub cfg: u8,
    pub screen_mode: u8,
    pub version: u8,
    pub clock_select: bool,
    /// The source and destination registers set by prefixes.
    pub src: u8,
    pub dst: u8,
    /// The low byte of a 16-bit immediate being fetched.
    pub imm_lo: u8,
    /// An immediate fetched for an instruction that is still waiting.
    pub immediate: Option<u16>,
    /// Cycles left of a multiplication.
    pub mult_clock: u8,
    pub cache: CacheView,
    pub pixel_cache: PixelCacheView,
    pub rom_cache: ROMCacheView,
}

pub struct SuperFX {
    state: FXState,
    regs: [u16; 16],
    regs_latch: u8,
    pc_next: u16,
    pb_next: u8,
    flags: u16,
    pb: u8,
    romb: u8,
    ramb: u8,
    backup: u8,
    cfg: u8,
    screen_mode: u8,
    version: u8,
    clock_select: bool,
    src: u8,
    dst: u8,
    imm_lo: u8,
    immediate: Option<u16>,
    mult_clock: u8,
    cache: Cache,
    pixel_cache: PixelCache,
    rom_cache: ROMCache,
}

impl View for SuperFX {
    type V = SuperFXView;

    closed spec fn view(&self) -> SuperFXView {
        SuperFXView {
            state: self.state,
            regs: self.regs@,
            regs_latch: self.regs_latch,
            pc_next: self.pc_next,
            pb_next: self.pb_next,
            flags: self.flags,
            pb: self.pb,
            romb: self.romb,
            ramb: self.ramb,
            backup: self.backup,
            cfg: self.cfg,
            screen_mode: self.screen_mode,
            version: self.version,
            clock_select: self.clock_select,
            src: self.src,
            dst: self.dst,
            imm_lo: self.imm_lo,
            immediate: self.immediate,
            mult_clock: self.mult_clock,
            cache: self.cache@,
            pixel_cache: self.pixel_cache@,
            rom_cache: self.rom_cache@,
        }
    }
}

impl SuperFXView {
    pub open spec fn wf(self) -> bool {
        &&& self.regs.len() == 16
        &&& self.src < 16
        &&& self.dst < 16
        &&& self.cache.wf()
        &&& self.pixel_cache.wf()
    }
}

/// A register read by the SNES: the value, and the state after it.
pub open spec fn read_reg_spec(v: SuperFXView, addr: u16) -> (SuperFXView, u8) {
    if 0x3000 <= addr <= 0x301F {
        let r = v.regs[(addr as int % 0x20) / 2];
        (v, if addr % 2 == 1 { (r / 256) as u8 } else { (r % 256) as u8 })
    } else if addr == 0x3030 {
        (v, (v.flags % 256) as u8)
    } else if addr == 0x3031 {
        (SuperFXView { flags: v.flags & !FLAG_IRQ, ..v }, (v.flags / 256) as u8)
    } else if addr == 0x3034 {
        (v, v.pb)
    } else if addr == 0x3036 {
        (v, v.romb)
    } else if addr == 0x303B {
        (v, v.version)
    } else if addr == 0x303C {
        (v, v.ramb)
    } else if addr == 0x303E {
        (v, (v.cache.cbr % 256) as u8)
    } else if addr == 0x303F {
        (v, (v.cache.cbr / 256) as u8)
    } else if 0x3100 <= addr <= 0x32FF {
        (v, v.cache.byte(addr - 0x3100))
    } else {
        (v, 0)
    }
}

/// The cache after its base is set: every line unloaded.
pub open spec fn cbr_set(c: CacheView, cbr: u16) -> CacheView {
    CacheView { lines: Seq::new(32, |i: int| c.lines[i].update(15, 0)), cbr: cbr }
}

/// A register write by the SNES. Writing the high byte of R15 starts the
/// GSU; clearing GO through the status register resets the cache base.
pub open spec fn write_reg_spec(v: SuperFXView, addr: u16, data: u8) -> SuperFXView {
    if 0x3000 <= addr <= 0x301E {
        if addr % 2 == 1 {
            SuperFXView { regs: v.regs.update((addr as int % 0x20) / 2, (data * 256 + v.regs_latch) as u16), ..v }
        } else {
            SuperFXView { regs_latch: data, ..v }
        }
    } else if addr == 0x301F {
        let pc = (data * 256 + v.regs_latch) as u16;
        SuperFXView {
            regs: v.regs.update(PC_REG as int, pc),
            pc_next: ((pc + 1) % 0x10000) as u16,
            flags: v.flags | FLAG_GO,
            ..v
        }
    } else if addr == 0x3030 {
        let flags = (v.flags & !FLAG_WRITABLE) | ((data as u16) & FLAG_WRITABLE);
        if data & 0x20 == 0 {
            SuperFXView { flags: flags, cache: cbr_set(v.cache, 0), ..v }
        } else {
            SuperFXView { flags: flags, ..v }
        }
    } else if addr == 0x3033 {
        SuperFXView { backup: data, ..v }
    } else if addr == 0x3034 {
        SuperFXView { pb: data, pb_next: data, ..v }
    } else if addr == 0x3037 {
        SuperFXView { cfg: data & 0xA0, ..v }
    } else if addr == 0x3039 {
        SuperFXView { clock_select: data % 2 == 1, ..v }
    } else if addr == 0x3038 {
        SuperFXView {
            pixel_cache: PixelCacheView { screen_base: (0x70_0000 + 0x400 * data) as u32, ..v.pixel_cache },
            ..v
        }
    } else if addr == 0x303A {
        let mode = data & 0x3F;
        SuperFXView {
            screen_mode: mode,
            pixel_cache: PixelCacheView {
                screen_mode: mode,
                bpp: bpp_of(mode),
                height: if bit8(v.pixel_cache.por, 4) { ScreenHeight::Obj } else { height_of(mode) },
                ..v.pixel_cache
            },
            ..v
        }
    } else if 0x3100 <= addr <= 0x32FF {
        SuperFXView { cache: v.cache.with_byte(addr - 0x3100, data), ..v }
    } else {
        v
    }
}

/// A register pair written by the SNES, low byte then high byte, reads
/// back as written.
pub proof fn lemma_register_write_read(v: SuperFXView, r: u16, lo: u8, hi: u8)
    requires
        v.wf(),
        r < 16,
    ensures
        ({
            let w = write_reg_spec(write_reg_spec(v, (0x3000 + 2 * r) as u16, lo), (0x3001 + 2 * r) as u16, hi);
            &&& read_reg_spec(w, (0x3000 + 2 * r) as u16).1 == lo
            &&& read_reg_spec(w, (0x3001 + 2 * r) as u16).1 == hi
            &&& w.regs[r as int] == hi * 256 + lo
        }),
{
    let a = (0x3000 + 2 * r) as u16;
    let b = (0x3001 + 2 * r) as u16;
    assert((a as int % 0x20) / 2 == r);
    assert((b as int % 0x20) / 2 == r);
    let x = hi * 256 + lo;
    assert(x % 256 == lo && x / 256 == hi) by (nonlinear_arith)
        requires
            x == hi * 256 + lo,
            lo < 256,
    ;
}

/// A byte written into the cache through the SNES window ($3100-$32FF)
/// reads back as written.
pub proof fn lemma_cache_window_write_read(v: SuperFXView, addr: u16, data: u8)
    requires
        v.wf(),
        0x3100 <= addr <= 0x32FF,
    ensures
        read_reg_spec(write_reg_spec(v, addr, data), addr).1 == data,
{
}

/// A jump to `data`: first the line being left must be filled if it was
/// requested and is not loaded, then the line of the target, from its
/// start; otherwise the next instruction is fetched from `data`.
pub open spec fn set_pc_spec(v: SuperFXView, data: u16) -> (SuperFXView, FXState) {
    let pc = v.regs[PC_REG as int];
    if pc % 16 != 0 && cache_lookup(v.cache, pc) == CacheResult::Request {
        (v, FXState::WaitCacheFill { current: pc, next: data })
    } else if data % 16 != 0 && cache_lookup(v.cache, data) == CacheResult::Request {
        (v, FXState::WaitCacheFill { current: (data - data % 16) as u16, next: data })
    } else {
        (SuperFXView { pc_next: data, ..v }, FXState::Ready)
    }
}

/// The ROM buffer after asking it for `bank`:`addr`, and the byte if it is
/// there: a load of another address starts when the buffer is idle.
pub open spec fn rom_try_read(rc: ROMCacheView, bank: u8, addr: u16) -> (ROMCacheView, Option<u8>) {
    if rc.cycles != 0 {
        (rc, None)
    } else if rc.bank == bank && rc.addr == addr {
        (rc, Some(rc.data))
    } else {
        (ROMCacheView { bank: bank, addr: addr, cycles: (ROM_WAIT_CYCLES - 1) as usize, ..rc }, None)
    }
}

/// One step of filling the cache at `addr` on the way to `target`: when
/// the byte has come from ROM it goes into the cache, and the fill moves
/// on to the next byte, or at the end of the line to the target's line if
/// that is still to be loaded, or it is done and the target is fetched
/// next.
pub open spec fn fill_cache_spec(v: SuperFXView, addr: u16, target: u16) -> (SuperFXView, FXState) {
    if addr == target {
        (SuperFXView { pc_next: addr, ..v }, FXState::Ready)
    } else {
        let (rc, fetched) = rom_try_read(v.rom_cache, v.pb, addr);
        match fetched {
            None => (SuperFXView { rom_cache: rc, ..v }, FXState::WaitCacheFill { current: addr, next: target }),
            Some(i) => {
                let v1 = SuperFXView {
                    rom_cache: rc,
                    cache: v.cache.with_byte(cache_offset(v.cache.cbr, addr), i),
                    ..v
                };
                let next = (addr + 1) as u16;
                let line = (target - target % 16) as u16;
                if next == target {
                    (SuperFXView { pc_next: target, ..v1 }, FXState::Ready)
                } else if next % 16 == 0 {
                    if cache_lookup(v1.cache, line) == CacheResult::Request && line != target {
                        (v1, FXState::WaitCacheFill { current: line, next: target })
                    } else {
                        (SuperFXView { pc_next: target, ..v1 }, FXState::Ready)
                    }
                } else {
                    (v1, FXState::WaitCacheFill { current: next, next: target })
                }
            },
        }
    }
}

// ----- Instructions -----

pub open spec fn set_flag(flags: u16, bit: u16, on: bool) -> u16 {
    if on {
        flags | bit
    } else {
        flags & !bit
    }
}

/// The Z and S flags set from a 16-bit result.
pub open spec fn zs_flags(flags: u16, result: u16) -> u16 {
    set_flag(set_flag(flags, FLAG_Z, result == 0), FLAG_S, result & 0x8000 != 0)
}

/// A byte sign-extended to 16 bits.
pub open spec fn sext8(b: u8) -> u16 {
    if b >= 0x80 {
        (0xFF00 + b) as u16
    } else {
        b as u16
    }
}

/// A 16-bit word as a signed number.
pub open spec fn signed16(w: u16) -> int {
    if w >= 0x8000 {
        w - 0x10000
    } else {
        w as int
    }
}

/// A byte as a signed number.
pub open spec fn signed8(b: u8) -> int {
    if b >= 0x80 {
        b - 0x100
    } else {
        b as int
    }
}

/// Whether branch condition `cond` (the low nybble of a branch opcode,
/// 5-F) holds for `flags`.
pub open spec fn branch_taken(flags: u16, cond: u8) -> bool {
    let s = flags & FLAG_S != 0;
    let ov = flags & FLAG_OV != 0;
    let z = flags & FLAG_Z != 0;
    let cy = flags & FLAG_CY != 0;
    if cond == 5 {
        true
    } else if cond == 6 {
        s == ov
    } else if cond == 7 {
        s != ov
    } else if cond == 8 {
        !z
    } else if cond == 9 {
        z
    } else if cond == 0xA {
        !s
    } else if cond == 0xB {
        s
    } else if cond == 0xC {
        !cy
    } else if cond == 0xD {
        cy
    } else if cond == 0xE {
        !ov
    } else {
        ov
    }
}

impl SuperFXView {
    /// The ALT1 and ALT2 prefix flags as a number 0-3.
    pub open spec fn alt(self) -> u16 {
        (self.flags & 0x0300) / 256
    }

    pub open spec fn src_reg(self) -> u16 {
        self.regs[self.src as int]
    }

    /// What a completed instruction clears: the registers chosen by
    /// prefixes, the prefix flags and a stored immediate.
    pub open spec fn reset_prefix(self) -> SuperFXView {
        SuperFXView { src: 0, dst: 0, flags: self.flags & !FLAG_PREFIX, immediate: None, ..self }
    }

    /// Write the destination register (a jump when it is R15), then
    /// complete the instruction.
    pub open spec fn set_dst(self, data: u16) -> (SuperFXView, FXState) {
        let (v1, st) = if self.dst == PC_REG {
            set_pc_spec(self, data)
        } else {
            (SuperFXView { regs: self.regs.update(self.dst as int, data), ..self }, FXState::Ready)
        };
        (v1.reset_prefix(), st)
    }

    /// Z and S from `result`, which goes to the destination.
    pub open spec fn zs_to_dst(self, result: u16) -> (SuperFXView, FXState) {
        SuperFXView { flags: zs_flags(self.flags, result), ..self }.set_dst(result)
    }

    /// Fetching the byte at the program counter would go to RAM, through
    /// the RAM buffer.
    pub open spec fn fetch_needs_ram(self) -> bool {
        (self.pb == 0x70 || self.pb == 0x71) && !(cache_lookup(self.cache, self.regs[PC_REG as int]) is InCache)
    }

    /// Fetch the byte at the program counter: from the cache, or from the
    /// ROM buffer (filling the cache if the address is in it). When a byte
    /// comes, the program counter moves on.
    pub open spec fn try_fetch(self) -> (SuperFXView, Option<u8>) {
        let pc = self.regs[PC_REG as int];
        let (v1, data) = match cache_lookup(self.cache, pc) {
            CacheResult::InCache(d) => (self, Some(d)),
            CacheResult::Request => {
                let (rc, d) = rom_try_read(self.rom_cache, self.pb, pc);
                match d {
                    Some(b) => (
                        SuperFXView {
                            rom_cache: rc,
                            cache: self.cache.with_byte(cache_offset(self.cache.cbr, pc), b),
                            ..self
                        },
                        Some(b),
                    ),
                    None => (SuperFXView { rom_cache: rc, ..self }, None),
                }
            },
            CacheResult::OutsideCache => {
                let (rc, d) = rom_try_read(self.rom_cache, self.pb, pc);
                (SuperFXView { rom_cache: rc, ..self }, d)
            },
        };
        if data is Some {
            (
                SuperFXView {
                    regs: v1.regs.update(PC_REG as int, v1.pc_next),
                    pb: v1.pb_next,
                    pc_next: ((v1.pc_next + 1) % 0x10000) as u16,
                    ..v1
                },
                data,
            )
        } else {
            (v1, data)
        }
    }

    /// The 8-bit immediate: one already fetched, or fetched on the cycle
    /// after the instruction marks that it wants one.
    pub open spec fn immediate_8(self) -> (SuperFXView, Option<u8>) {
        match self.immediate {
            Some(w) => (self, Some((w % 256) as u8)),
            None => if self.flags & FLAG_IL != 0 {
                let (v1, d) = self.try_fetch();
                match d {
                    Some(b) => (SuperFXView { flags: v1.flags & !FLAG_IL, immediate: Some(b as u16), ..v1 }, d),
                    None => (v1, None),
                }
            } else {
                (SuperFXView { flags: self.flags | FLAG_IL, ..self }, None)
            },
        }
    }

    /// The 16-bit immediate: one already fetched, or its low and then its
    /// high byte fetched on the cycles after the instruction marks that it
    /// wants one.
    pub open spec fn immediate_16(self) -> (SuperFXView, Option<u16>) {
        match self.immediate {
            Some(w) => (self, Some(w)),
            None => if self.flags & FLAG_IH != 0 {
                let (v1, d) = self.try_fetch();
                match d {
                    Some(hi) => {
                        let imm = (hi * 256 + v1.imm_lo) as u16;
                        (SuperFXView { flags: v1.flags & !FLAG_IH, immediate: Some(imm), ..v1 }, Some(imm))
                    },
                    None => (v1, None),
                }
            } else if self.flags & FLAG_IL != 0 {
                let (v1, d) = self.try_fetch();
                match d {
                    Some(lo) => (SuperFXView { flags: (v1.flags & !FLAG_IL) | FLAG_IH, imm_lo: lo, ..v1 }, None),
                    None => (v1, None),
                }
            } else {
                (SuperFXView { flags: self.flags | FLAG_IL, ..self }, None)
            },
        }
    }

    /// Whether `instr` reads or writes RAM through the RAM buffer: loads,
    /// stores, PLOT and RPIX.
    pub open spec fn uses_ram(self, instr: u8) -> bool {
        let hi = instr / 16;
        let lo = instr % 16;
        ||| hi == 3 && lo <= 0xB
        ||| hi == 4 && lo <= 0xC
        ||| instr == 0x90
        ||| (hi == 0xA || hi == 0xF) && self.alt() != 0
    }

    /// Whether `instr` takes an immediate operand.
    pub open spec fn takes_immediate(self, instr: u8) -> bool {
        let hi = instr / 16;
        (hi == 0 && instr % 16 >= 5) || hi == 0xA || hi == 0xF
    }

    /// ADD / ADC with operand `op`.
    pub open spec fn add_flags(self, op: u16, with_carry: bool) -> (u16, u16) {
        let op0 = self.src_reg() as u32;
        let op1 = op as u32;
        let carry: u32 = if with_carry && self.flags & FLAG_CY != 0 { 1 } else { 0 };
        let result = (op0 + op1 + carry) as u32;
        let f = set_flag(self.flags, FLAG_Z, result % 0x10000 == 0);
        let f = set_flag(f, FLAG_CY, result & 0x10000 != 0);
        let f = set_flag(f, FLAG_S, result & 0x8000 != 0);
        let f = set_flag(f, FLAG_OV, (!(op0 ^ op1) & (op0 ^ result)) & 0x8000 != 0);
        (f, (result % 0x10000) as u16)
    }

    /// SUB / SBC with operand `op`: the difference taken modulo 2^17,
    /// which holds the 16-bit result and the borrow.
    pub open spec fn sub_flags(self, op: u16, with_carry: bool) -> (u16, u16) {
        let op0 = self.src_reg() as u32;
        let op1 = op as u32;
        let carry: u32 = if with_carry && self.flags & FLAG_CY == 0 { 1 } else { 0 };
        let result = (op0 + 0x20000 - op1 - carry) as u32;
        let f = set_flag(self.flags, FLAG_Z, result % 0x10000 == 0);
        let f = set_flag(f, FLAG_CY, result & 0x10000 == 0);
        let f = set_flag(f, FLAG_S, result & 0x8000 != 0);
        let f = set_flag(f, FLAG_OV, ((op0 ^ op1) & (op0 ^ result)) & 0x8000 != 0);
        (f, (result % 0x10000) as u16)
    }

    /// An 8 by 8 bit multiplication into the destination.
    pub open spec fn mult8(self, op: u8, signed: bool) -> (SuperFXView, FXState) {
        let s = (self.src_reg() % 256) as u8;
        let result = if signed {
            ((signed8(s) * signed8(op) + 0x10000) % 0x10000) as u16
        } else {
            (s * op) as u16
        };
        self.zs_to_dst(result)
    }
}

impl SuperFXView {
    /// STOP: the GSU stops, and raises its IRQ unless it is masked.
    pub open spec fn stop_spec(self) -> (SuperFXView, FXState) {
        let f = self.flags & !FLAG_GO;
        let f = if self.cfg & CFG_IRQ == 0 { f | FLAG_IRQ } else { f };
        (SuperFXView { flags: f, ..self }.reset_prefix(), FXState::Ready)
    }

    /// CACHE: the cache base moves to the line of the program counter,
    /// which is then filled.
    pub open spec fn cache_spec(self) -> (SuperFXView, FXState) {
        let cbr = self.regs[PC_REG as int] & 0xFFF0;
        let v1 = SuperFXView { cache: cbr_set(self.cache, cbr), ..self }.reset_prefix();
        (v1, FXState::WaitCacheFill { current: cbr, next: self.pc_next })
    }

    /// LSR: logical shift right, bit 0 to carry.
    pub open spec fn lsr_spec(self) -> (SuperFXView, FXState) {
        let s = self.src_reg();
        let result = s >> 1;
        let f = set_flag(set_flag(set_flag(self.flags, FLAG_Z, result == 0), FLAG_CY, s & 1 != 0), FLAG_S, false);
        SuperFXView { flags: f, ..self }.set_dst(result)
    }

    /// ROL: rotate left through carry.
    pub open spec fn rol_spec(self) -> (SuperFXView, FXState) {
        let s = self.src_reg();
        let result = ((s as int * 2) % 0x10000 + if self.flags & FLAG_CY != 0 { 1int } else { 0 }) as u16;
        let f = set_flag(zs_flags(self.flags, result), FLAG_CY, s & 0x8000 != 0);
        SuperFXView { flags: f, ..self }.set_dst(result)
    }

    /// Taking (or not) a branch on condition `cond` by offset `off` once
    /// the immediate has come, from the program counter after it.
    pub open spec fn branch_step(self, off: u8, cond: u8) -> (SuperFXView, FXState) {
        if branch_taken(self.flags, cond) {
            let target = ((self.regs[PC_REG as int] + sext8(off)) % 0x10000) as u16;
            let (v2, st) = set_pc_spec(self, target);
            (SuperFXView { immediate: None, ..v2 }, st)
        } else {
            (SuperFXView { immediate: None, ..self }, FXState::Ready)
        }
    }

    /// A branch on condition `instr % 16` by the signed 8-bit immediate.
    pub open spec fn branch_spec(self, instr: u8) -> (SuperFXView, FXState) {
        let (v1, imm) = self.immediate_8();
        match imm {
            Some(off) => v1.branch_step(off, instr % 16),
            None => (v1, FXState::WaitInternal(instr)),
        }
    }

    /// Opcodes $00-$0F.
    pub open spec fn special_spec(self, instr: u8) -> (SuperFXView, FXState) {
        let n = instr % 16;
        if n == 0 {
            self.stop_spec()
        } else if n == 1 {
            (self.reset_prefix(), FXState::Ready)
        } else if n == 2 {
            self.cache_spec()
        } else if n == 3 {
            self.lsr_spec()
        } else if n == 4 {
            self.rol_spec()
        } else {
            self.branch_spec(instr)
        }
    }

    /// LOOP: decrement R12 and jump to R13 unless it reached zero.
    pub open spec fn loop_spec(self) -> (SuperFXView, FXState) {
        let dec = ((self.regs[LOOP_CTR_REG as int] + 0xFFFF) % 0x10000) as u16;
        let v1 = SuperFXView {
            flags: zs_flags(self.flags, dec),
            regs: self.regs.update(LOOP_CTR_REG as int, dec),
            ..self
        };
        let (v2, st) = if dec != 0 {
            set_pc_spec(v1, v1.regs[LOOP_PTR_REG as int])
        } else {
            (v1, FXState::Ready)
        };
        (v2.reset_prefix(), st)
    }

    /// MOVES: move register `n` to the destination, setting Z, S and OV.
    pub open spec fn moves_spec(self, n: u8) -> (SuperFXView, FXState) {
        let d = self.regs[n as int];
        let f = set_flag(zs_flags(self.flags, d), FLAG_OV, d & 0x80 != 0);
        SuperFXView { flags: f, ..self }.set_dst(d)
    }

    /// Opcodes $10-$3F and $B0-$BF: TO / MOVE, WITH, LOOP, the ALT
    /// prefixes, FROM / MOVES.
    pub open spec fn prefix_spec(self, instr: u8) -> (SuperFXView, FXState) {
        let hi = instr / 16;
        let n = instr % 16;
        let b = self.flags & FLAG_B != 0;
        if hi == 1 {
            if b {
                SuperFXView { dst: n, ..self }.set_dst(self.src_reg())
            } else {
                (SuperFXView { dst: n, ..self }, FXState::Ready)
            }
        } else if hi == 2 {
            (SuperFXView { src: n, dst: n, flags: self.flags | FLAG_B, ..self }, FXState::Ready)
        } else if hi == 0xB {
            if b {
                self.moves_spec(n)
            } else {
                (SuperFXView { src: n, ..self }, FXState::Ready)
            }
        } else if n == 0xC {
            self.loop_spec()
        } else if n == 0xD {
            (SuperFXView { flags: self.flags | FLAG_ALT1, ..self }, FXState::Ready)
        } else if n == 0xE {
            (SuperFXView { flags: self.flags | FLAG_ALT2, ..self }, FXState::Ready)
        } else {
            (SuperFXView { flags: self.flags | FLAG_ALT1 | FLAG_ALT2, ..self }, FXState::Ready)
        }
    }

    /// Opcodes $4D-$4F: SWAP, COLOR / CMODE, NOT.
    pub open spec fn byte_ops_spec(self, instr: u8) -> (SuperFXView, FXState) {
        let n = instr % 16;
        let s = self.src_reg();
        if n == 0xD {
            self.zs_to_dst(((s % 256) * 256 + s / 256) as u16)
        } else if n == 0xE {
            let pc = if self.flags & FLAG_ALT1 != 0 {
                por_written(self.pixel_cache, (s % 256) as u8)
            } else {
                colr_written(self.pixel_cache, (s % 256) as u8)
            };
            (SuperFXView { pixel_cache: pc, ..self }.reset_prefix(), FXState::Ready)
        } else {
            self.zs_to_dst(!s)
        }
    }

    /// Opcodes $50-$6F: ADD, ADC, SUB, SBC, CMP, with register `n` or the
    /// number `n`.
    pub open spec fn arith_spec(self, instr: u8) -> (SuperFXView, FXState) {
        let n = instr % 16;
        if instr / 16 == 5 {
            let (f, r) = if self.alt() == 0 {
                self.add_flags(self.regs[n as int], false)
            } else if self.alt() == 1 {
                self.add_flags(self.regs[n as int], true)
            } else if self.alt() == 2 {
                self.add_flags(n as u16, false)
            } else {
                self.add_flags(n as u16, true)
            };
            SuperFXView { flags: f, ..self }.set_dst(r)
        } else {
            let (f, r) = if self.alt() == 0 {
                self.sub_flags(self.regs[n as int], false)
            } else if self.alt() == 1 {
                self.sub_flags(self.regs[n as int], true)
            } else if self.alt() == 2 {
                self.sub_flags(n as u16, false)
            } else {
                self.sub_flags(self.regs[n as int], false)
            };
            if self.alt() == 3 {
                (SuperFXView { flags: f, ..self }.reset_prefix(), FXState::Ready)
            } else {
                SuperFXView { flags: f, ..self }.set_dst(r)
            }
        }
    }

    /// Opcodes $70-$7F and $C0-$CF: MERGE, AND, BIC, HIB, OR, XOR.
    pub open spec fn logic_spec(self, instr: u8) -> (SuperFXView, FXState) {
        let n = instr % 16;
        let s = self.src_reg();
        if instr / 16 == 7 && n == 0 {
            let result = ((self.regs[MERGE_HI_REG as int] / 256) * 256 + self.regs[MERGE_LO_REG as int] / 256) as u16;
            let f = set_flag(self.flags, FLAG_Z, result & 0xF0F0 != 0);
            let f = set_flag(f, FLAG_CY, result & 0xE0E0 != 0);
            let f = set_flag(f, FLAG_S, result & 0x8080 != 0);
            let f = set_flag(f, FLAG_OV, result & 0xC0C0 != 0);
            SuperFXView { flags: f, ..self }.set_dst(result)
        } else if instr / 16 == 0xC && n == 0 {
            let result = s / 256;
            let f = set_flag(set_flag(self.flags, FLAG_Z, result == 0), FLAG_S, result & 0x80 != 0);
            SuperFXView { flags: f, ..self }.set_dst(result)
        } else {
            let op = if self.alt() >= 2 { n as u16 } else { self.regs[n as int] };
            self.zs_to_dst(
                if instr / 16 == 7 {
                    if self.alt() % 2 == 0 { s & op } else { s & !op }
                } else {
                    if self.alt() % 2 == 0 { s | op } else { s ^ op }
                },
            )
        }
    }

    /// Opcodes $80-$8F: MULT and UMULT, which take a second cycle unless
    /// the fast multiplier is on at the slow clock.
    pub open spec fn mult_byte_spec(self, instr: u8) -> (SuperFXView, FXState) {
        let n = instr % 16;
        if self.mult_clock == 0 && (self.cfg & CFG_MS0 == 0 || self.clock_select) {
            (SuperFXView { mult_clock: 1, ..self }, FXState::WaitInternal(instr))
        } else {
            let op = if self.alt() >= 2 { n } else { (self.regs[n as int] % 256) as u8 };
            SuperFXView { mult_clock: 0, ..self }.mult8(op, self.alt() % 2 == 0)
        }
    }

    /// FMULT / LMULT: a 16 by 16 bit signed multiplication over several
    /// cycles; the high word goes to the destination, and for LMULT the
    /// low word to R4.
    pub open spec fn mult_word_spec(self) -> (SuperFXView, FXState) {
        let s = self.src_reg();
        if self.mult_clock == 0 {
            (
                SuperFXView { mult_clock: if self.cfg & CFG_MS0 != 0 && !self.clock_select { 3 } else { 7 }, ..self },
                FXState::WaitInternal(0x9F),
            )
        } else if self.mult_clock > 1 {
            (SuperFXView { mult_clock: (self.mult_clock - 1) as u8, ..self }, FXState::WaitInternal(0x9F))
        } else {
            let product = (signed16(s) * signed16(self.regs[MULT_OP_REG as int]) + 0x1_0000_0000) % 0x1_0000_0000;
            let lo = (product % 0x10000) as u16;
            let hi = (product / 0x10000) as u16;
            let f = set_flag(self.flags, FLAG_Z, hi == 0);
            let f = set_flag(f, FLAG_CY, (product / 0x8000) % 2 == 1);
            let f = set_flag(f, FLAG_S, product >= 0x8000_0000);
            let v1 = SuperFXView { mult_clock: 0, flags: f, ..self };
            if self.flags & FLAG_ALT1 != 0 {
                SuperFXView { regs: v1.regs.update(MULT_DST_REG as int, lo), ..v1 }.set_dst(hi)
            } else {
                v1.set_dst(hi)
            }
        }
    }

    /// ASR / DIV2: arithmetic shift right (DIV2 takes -1 to 0), bit 0 to
    /// carry.
    pub open spec fn asr_spec(self) -> (SuperFXView, FXState) {
        let s = self.src_reg();
        let result = if self.flags & FLAG_ALT1 != 0 && s == 0xFFFF {
            0u16
        } else if s >= 0x8000 {
            (s / 2 + 0x8000) as u16
        } else {
            s / 2
        };
        let f = set_flag(zs_flags(self.flags, result), FLAG_CY, s & 1 != 0);
        SuperFXView { flags: f, ..self }.set_dst(result)
    }

    /// ROR: rotate right through carry.
    pub open spec fn ror_spec(self) -> (SuperFXView, FXState) {
        let s = self.src_reg();
        let result = ((s / 2) + if self.flags & FLAG_CY != 0 { 0x8000int } else { 0 }) as u16;
        let f = set_flag(zs_flags(self.flags, result), FLAG_CY, s & 1 != 0);
        SuperFXView { flags: f, ..self }.set_dst(result)
    }

    /// JMP to register `n`, or LJMP: bank from register `n`, address from
    /// the source register, through a fresh cache.
    pub open spec fn jmp_spec(self, n: u8) -> (SuperFXView, FXState) {
        if self.flags & FLAG_ALT1 != 0 {
            let cbr = self.pc_next & 0xFFF0;
            let v1 = SuperFXView { pb_next: (self.regs[n as int] % 256) as u8, cache: cbr_set(self.cache, cbr), ..self };
            (v1.reset_prefix(), FXState::WaitCacheFill { current: cbr, next: self.src_reg() })
        } else {
            let (v1, st) = set_pc_spec(self, self.regs[n as int]);
            (v1.reset_prefix(), st)
        }
    }

    /// Opcodes $91-$9F: LINK, SEX, ASR, ROR, JMP, LOB, FMULT.
    pub open spec fn group9_spec(self, instr: u8) -> (SuperFXView, FXState) {
        let n = instr % 16;
        let s = self.src_reg();
        if 1 <= n <= 4 {
            let r = ((self.regs[PC_REG as int] + n) % 0x10000) as u16;
            (SuperFXView { regs: self.regs.update(LINK_REG as int, r), ..self }.reset_prefix(), FXState::Ready)
        } else if n == 5 {
            self.zs_to_dst(sext8((s % 256) as u8))
        } else if n == 6 {
            self.asr_spec()
        } else if n == 7 {
            self.ror_spec()
        } else if 8 <= n <= 0xD {
            self.jmp_spec(n)
        } else if n == 0xE {
            let result = s % 256;
            let f = set_flag(set_flag(self.flags, FLAG_Z, result == 0), FLAG_S, result & 0x80 != 0);
            SuperFXView { flags: f, ..self }.set_dst(result)
        } else {
            self.mult_word_spec()
        }
    }

    /// Opcodes $A0-$AF and $F0-$FF without ALT: IBT and IWT.
    pub open spec fn immediate_spec(self, instr: u8) -> (SuperFXView, FXState) {
        let n = instr % 16;
        if instr / 16 == 0xA {
            let (v1, imm) = self.immediate_8();
            match imm {
                Some(i) => SuperFXView { dst: n, ..v1 }.set_dst(sext8(i)),
                None => (v1, FXState::WaitInternal(instr)),
            }
        } else {
            let (v1, imm) = self.immediate_16();
            match imm {
                Some(i) => SuperFXView { dst: n, ..v1 }.set_dst(i),
                None => (v1, FXState::WaitInternal(instr)),
            }
        }
    }

    /// INC or DEC register `n`.
    pub open spec fn inc_dec_spec(self, n: u8, inc: bool) -> (SuperFXView, FXState) {
        let r = ((self.regs[n as int] + if inc { 1int } else { 0xFFFF }) % 0x10000) as u16;
        (SuperFXView { flags: zs_flags(self.flags, r), regs: self.regs.update(n as int, r), ..self }.reset_prefix(), FXState::Ready)
    }

    /// GETC, RAMB, ROMB ($DF).
    pub open spec fn getc_spec(self) -> (SuperFXView, FXState) {
        let s = self.src_reg();
        if self.alt() == 2 {
            (SuperFXView { ramb: ((s % 256) % 2) as u8, ..self }.reset_prefix(), FXState::Ready)
        } else if self.alt() == 3 {
            (SuperFXView { romb: (s % 256) as u8, ..self }.reset_prefix(), FXState::Ready)
        } else {
            let (rc, d) = rom_try_read(self.rom_cache, self.romb, self.regs[ROM_PTR_REG as int]);
            match d {
                Some(data) => (
                    SuperFXView { rom_cache: rc, pixel_cache: colr_written(self.pixel_cache, data), ..self }.reset_prefix(),
                    FXState::Ready,
                ),
                None => (SuperFXView { rom_cache: rc, ..self }, FXState::WaitInternal(0xDF)),
            }
        }
    }

    /// GETB, GETBH, GETBL, GETBS ($EF): a byte from the ROM buffer at
    /// ROMB:R14.
    pub open spec fn getb_spec(self) -> (SuperFXView, FXState) {
        let s = self.src_reg();
        let (rc, d) = rom_try_read(self.rom_cache, self.romb, self.regs[ROM_PTR_REG as int]);
        match d {
            Some(data) => {
                let result = if self.alt() == 0 {
                    data as u16
                } else if self.alt() == 1 {
                    (data * 256 + s % 256) as u16
                } else if self.alt() == 2 {
                    ((s / 256) * 256 + data) as u16
                } else {
                    sext8(data)
                };
                SuperFXView { rom_cache: rc, ..self }.set_dst(result)
            },
            None => (SuperFXView { rom_cache: rc, ..self }, FXState::WaitInternal(0xEF)),
        }
    }
}

/// The state after one cycle of executing instruction `instr`, and what
/// the GSU does next.
pub open spec fn exec_spec(v: SuperFXView, instr: u8) -> (SuperFXView, FXState) {
    let hi = instr / 16;
    let n = instr % 16;
    if hi == 0 {
        v.special_spec(instr)
    } else if hi == 1 || hi == 2 || hi == 3 || hi == 0xB {
        v.prefix_spec(instr)
    } else if hi == 4 {
        v.byte_ops_spec(instr)
    } else if hi == 5 || hi == 6 {
        v.arith_spec(instr)
    } else if hi == 7 || hi == 0xC {
        v.logic_spec(instr)
    } else if hi == 8 {
        v.mult_byte_spec(instr)
    } else if hi == 9 {
        v.group9_spec(instr)
    } else if hi == 0xA || hi == 0xF {
        v.immediate_spec(instr)
    } else if n != 0xF {
        v.inc_dec_spec(n, hi == 0xD)
    } else if hi == 0xD {
        v.getc_spec()
    } else {
        v.getb_spec()
    }
}

impl SuperFX {
    /// A stopped GSU with cleared registers, version 4.
    pub fn new() -> (r: Self)
        ensures
            r@.wf(),
            r@.state == FXState::Ready,
            r@.regs == Seq::new(16, |i: int| 0u16),
            r@.regs_latch == 0,
            r@.pc_next == 0,
            r@.pb_next == 0,
            r@.flags == 0,
            r@.pb == 0,
            r@.romb == 0,
            r@.ramb == 0,
            r@.backup == 0,
            r@.cfg == 0,
            r@.screen_mode == 0,
            r@.version == 4,
            !r@.clock_select,
            r@.src == 0,
            r@.dst == 0,
            r@.imm_lo == 0,
            r@.immediate is None,
            r@.mult_clock == 0,
            r@.cache.cbr == 0,
            forall|a: int| 0 <= a < 512 ==> #[trigger] r@.cache.byte(a) == 0,
            r@.rom_cache == (ROMCacheView { bank: 0, addr: 0, data: 0, cycles: 0 }),
    {
        let r = SuperFX {
            state: FXState::Ready,
            regs: [0; 16],
            regs_latch: 0,
            pc_next: 0,
            pb_next: 0,
            flags: 0,
            pb: 0,
            romb: 0,
            ramb: 0,
            backup: 0,
            cfg: 0,
            screen_mode: 0,
            version: 4,
            clock_select: false,
            src: 0,
            dst: 0,
            imm_lo: 0,
            immediate: None,
            mult_clock: 0,
            cache: Cache::new(),
            pixel_cache: PixelCache::new(),
            rom_cache: ROMCache::new(),
        };
        assert(r@.regs =~= Seq::new(16, |i: int| 0u16));
        r
    }

    /// Read a GSU register ($3000-$32FF in banks $00-$3F).
    pub fn read_reg(&mut self, addr: u16) -> (r: u8)
        requires
            old(self)@.wf(),
        ensures
            final(self)@.wf(),
            (final(self)@, r) == read_reg_spec(old(self)@, addr),
    {
        if addr >= 0x3000 && addr <= 0x301F {
            let i = ((addr % 0x20) / 2) as usize;
            if addr % 2 == 1 {
                hi16(self.regs[i])
            } else {
                lo16(self.regs[i])
            }
        } else if addr == 0x3030 {
            lo16(self.flags)
        } else if addr == 0x3031 {
            let ret = hi16(self.flags);
            self.flags = self.flags & !FLAG_IRQ;
            ret
        } else if addr == 0x3034 {
            self.pb
        } else if addr == 0x3036 {
            self.romb
        } else if addr == 0x303B {
            self.version
        } else if addr == 0x303C {
            self.ramb
        } else if addr == 0x303E {
            lo16(self.cache.get_cbr())
        } else if addr == 0x303F {
            hi16(self.cache.get_cbr())
        } else if addr >= 0x3100 && addr <= 0x32FF {
            self.cache.read(addr - 0x3100)
        } else {
            0
        }
    }

    /// Write a GSU register ($3000-$32FF in banks $00-$3F).
    pub fn write_reg(&mut self, addr: u16, data: u8)
        requires
            old(self)@.wf(),
        ensures
            final(self)@.wf(),
            final(self)@ == write_reg_spec(old(self)@, addr, data),
    {
        if addr >= 0x3000 && addr <= 0x301E {
            if addr % 2 == 1 {
                let i = ((addr % 0x20) / 2) as usize;
                self.regs[i] = make16(data, self.regs_latch);
            } else {
                self.regs_latch = data;
            }
        } else if addr == 0x301F {
            let pc = make16(data, self.regs_latch);
            self.regs[PC_REG] = pc;
            self.pc_next = pc.wrapping_add(1);
            self.flags = self.flags | FLAG_GO;
        } else if addr == 0x3030 {
            self.set_status_flags(data);
        } else if addr == 0x3033 {
            self.backup = data;
        } else if addr == 0x3034 {
            self.pb = data;
            self.pb_next = data;
        } else if addr == 0x3037 {
            self.cfg = data & 0xA0;
        } else if addr == 0x3039 {
            self.clock_select = data % 2 == 1;
        } else if addr == 0x3038 {
            self.pixel_cache.set_screen_base(data);
        } else if addr == 0x303A {
            self.screen_mode = data & 0x3F;
            self.pixel_cache.set_screen_mode(self.screen_mode);
            proof {
                assert(((data & 0x3F) & 0x3F) == data & 0x3F) by (bit_vector);
            }
        } else if addr >= 0x3100 && addr <= 0x32FF {
            self.cache.write(addr - 0x3100, data);
        }
    }

    /// The SNES writes Z, CY, S, OV and GO; stopping the GSU resets the
    /// cache base.
    fn set_status_flags(&mut self, data: u8)
        requires
            old(self)@.wf(),
        ensures
            final(self)@.wf(),
            final(self)@ == write_reg_spec(old(self)@, 0x3030, data),
    {
        self.flags = (self.flags & !FLAG_WRITABLE) | ((data as u16) & FLAG_WRITABLE);
        if data & 0x20 == 0 {
            self.cache.set_cbr(0);
            assert(self@.cache.lines =~= cbr_set(old(self)@.cache, 0).lines);
        }
    }

    /// Set a new program counter target (see `set_pc_spec`).
    pub fn set_pc_reg(&mut self, data: u16) -> (r: FXState)
        requires
            old(self)@.wf(),
        ensures
            final(self)@.wf(),
            (final(self)@, r) == set_pc_spec(old(self)@, data),
    {
        let pc = self.regs[PC_REG];
        if pc % 16 != 0 {
            match self.cache.try_read(pc) {
                CacheResult::Request => {
                    return FXState::WaitCacheFill { current: pc, next: data };
                },
                _ => {},
            }
        }
        if data % 16 != 0 {
            match self.cache.try_read(data) {
                CacheResult::Request => FXState::WaitCacheFill { current: data - data % 16, next: data },
                _ => {
                    self.pc_next = data;
                    FXState::Ready
                },
            }
        } else {
            self.pc_next = data;
            FXState::Ready
        }
    }

    /// One cycle of filling the cache at `addr` on the way to `target`
    /// (see `fill_cache_spec`). Programs in ROM only: those in RAM
    /// (banks $70-$71) are fetched through the RAM buffer.
    pub fn fill_cache(&mut self, addr: u16, target: u16) -> (r: FXState)
        requires
            old(self)@.wf(),
            old(self)@.pb != 0x70 && old(self)@.pb != 0x71,
            addr != target && rom_try_read(old(self)@.rom_cache, old(self)@.pb, addr).1 is Some ==> cache_offset(
                old(self)@.cache.cbr,
                addr,
            ) < CACHE_SIZE && addr < 0xFFFF,
        ensures
            final(self)@.wf(),
            (final(self)@, r) == fill_cache_spec(old(self)@, addr, target),
    {
        if addr == target {
            self.pc_next = addr;
            return FXState::Ready;
        }
        match self.rom_cache.try_read(self.pb, addr) {
            None => FXState::WaitCacheFill { current: addr, next: target },
            Some(i) => {
                self.cache.fill(addr, i);
                let next_addr = addr + 1;
                if next_addr == target {
                    self.pc_next = target;
                    FXState::Ready
                } else if next_addr % 16 == 0 {
                    let line = target - target % 16;
                    match self.cache.try_read(line) {
                        CacheResult::Request => if line == target {
                            self.pc_next = target;
                            FXState::Ready
                        } else {
                            FXState::WaitCacheFill { current: line, next: target }
                        },
                        _ => {
                            self.pc_next = target;
                            FXState::Ready
                        },
                    }
                } else {
                    FXState::WaitCacheFill { current: next_addr, next: target }
                }
            },
        }
    }

    pub fn get_state(&self) -> (r: FXState)
        ensures
            r == self@.state,
    {
        self.state
    }

    pub fn get_pc_next(&self) -> (r: u16)
        ensures
            r == self@.pc_next,
    {
        self.pc_next
    }
}

// Instruction helpers
impl SuperFX {
    fn set_flag(&mut self, bit: u16, on: bool)
        ensures
            final(self)@ == (SuperFXView { flags: set_flag(old(self)@.flags, bit, on), ..old(self)@ }),
    {
        if on {
            self.flags = self.flags | bit;
        } else {
            self.flags = self.flags & !bit;
        }
    }

    fn set_zs(&mut self, result: u16)
        ensures
            final(self)@ == (SuperFXView { flags: zs_flags(old(self)@.flags, result), ..old(self)@ }),
    {
        self.set_flag(FLAG_Z, result == 0);
        self.set_flag(FLAG_S, result & 0x8000 != 0);
    }

    fn alt(&self) -> (r: u16)
        ensures
            r == self@.alt(),
            r < 4,
    {
        let f = self.flags;
        assert((f & 0x0300) / 256 < 4) by (bit_vector);
        (self.flags & 0x0300) / 256
    }

    fn src_reg(&self) -> (r: u16)
        requires
            self@.wf(),
        ensures
            r == self@.src_reg(),
    {
        self.regs[self.src as usize]
    }

    fn reset_prefix(&mut self)
        ensures
            final(self)@ == old(self)@.reset_prefix(),
    {
        self.src = 0;
        self.dst = 0;
        self.flags = self.flags & !FLAG_PREFIX;
        self.immediate = None;
    }

    fn set_dst_reg(&mut self, data: u16) -> (r: FXState)
        requires
            old(self)@.wf(),
        ensures
            final(self)@.wf(),
            (final(self)@, r) == old(self)@.set_dst(data),
    {
        let st = if self.dst as usize == PC_REG {
            self.set_pc_reg(data)
        } else {
            self.regs[self.dst as usize] = data;
            FXState::Ready
        };
        self.reset_prefix();
        st
    }

    fn zs_to_dst(&mut self, result: u16) -> (r: FXState)
        requires
            old(self)@.wf(),
        ensures
            final(self)@.wf(),
            (final(self)@, r) == old(self)@.zs_to_dst(result),
    {
        self.set_zs(result);
        self.set_dst_reg(result)
    }

    fn try_fetch(&mut self) -> (r: Option<u8>)
        requires
            old(self)@.wf(),
            !old(self)@.fetch_needs_ram(),
        ensures
            final(self)@.wf(),
            (final(self)@, r) == old(self)@.try_fetch(),
    {
        let pc = self.regs[PC_REG];
        let data = match self.cache.try_read(pc) {
            CacheResult::InCache(d) => Some(d),
            CacheResult::Request => {
                let d = self.rom_cache.try_read(self.pb, pc);
                match d {
                    Some(b) => {
                        self.cache.fill(pc, b);
                    },
                    None => {},
                }
                d
            },
            CacheResult::OutsideCache => self.rom_cache.try_read(self.pb, pc),
        };
        if data.is_some() {
            self.regs[PC_REG] = self.pc_next;
            self.pb = self.pb_next;
            self.pc_next = self.pc_next.wrapping_add(1);
        }
        data
    }

    fn immediate_8(&mut self) -> (r: Option<u8>)
        requires
            old(self)@.wf(),
            old(self)@.immediate is Some || !old(self)@.fetch_needs_ram(),
        ensures
            final(self)@.wf(),
            (final(self)@, r) == old(self)@.immediate_8(),
    {
        match self.immediate {
            Some(w) => Some(lo16(w)),
            None => if self.flags & FLAG_IL != 0 {
                let d = self.try_fetch();
                match d {
                    Some(b) => {
                        self.flags = self.flags & !FLAG_IL;
                        self.immediate = Some(b as u16);
                    },
                    None => {},
                }
                d
            } else {
                self.flags = self.flags | FLAG_IL;
                None
            },
        }
    }

    fn immediate_16(&mut self) -> (r: Option<u16>)
        requires
            old(self)@.wf(),
            old(self)@.immediate is Some || !old(self)@.fetch_needs_ram(),
        ensures
            final(self)@.wf(),
            (final(self)@, r) == old(self)@.immediate_16(),
    {
        match self.immediate {
            Some(w) => Some(w),
            None => if self.flags & FLAG_IH != 0 {
                match self.try_fetch() {
                    Some(hi) => {
                        let imm = make16(hi, self.imm_lo);
                        self.flags = self.flags & !FLAG_IH;
                        self.immediate = Some(imm);
                        Some(imm)
                    },
                    None => None,
                }
            } else if self.flags & FLAG_IL != 0 {
                match self.try_fetch() {
                    Some(lo) => {
                        self.flags = (self.flags & !FLAG_IL) | FLAG_IH;
                        self.imm_lo = lo;
                    },
                    None => {},
                }
                None
            } else {
                self.flags = self.flags | FLAG_IL;
                None
            },
        }
    }
}

// Instructions
impl SuperFX {
    fn stop(&mut self) -> (r: FXState)
        requires
            old(self)@.wf(),
        ensures
            final(self)@.wf(),
            (final(self)@, r) == old(self)@.stop_spec(),
    {
        self.flags = self.flags & !FLAG_GO;
        if self.cfg & CFG_IRQ == 0 {
            self.flags = self.flags | FLAG_IRQ;
        }
        self.reset_prefix();
        FXState::Ready
    }

    fn cache_instr(&mut self) -> (r: FXState)
        requires
            old(self)@.wf(),
        ensures
            final(self)@.wf(),
            (final(self)@, r) == old(self)@.cache_spec(),
    {
        let cbr = self.regs[PC_REG] & 0xFFF0;
        self.cache.set_cbr(cbr);
        assert(self@.cache.lines =~= cbr_set(old(self)@.cache, cbr).lines);
        self.reset_prefix();
        FXState::WaitCacheFill { current: self.cache.get_cbr(), next: self.pc_next }
    }

    fn lsr(&mut self) -> (r: FXState)
        requires
            old(self)@.wf(),
        ensures
            final(self)@.wf(),
            (final(self)@, r) == old(self)@.lsr_spec(),
    {
        let s = self.src_reg();
        let result = s >> 1;
        self.set_flag(FLAG_Z, result == 0);
        self.set_flag(FLAG_CY, s & 1 != 0);
        self.set_flag(FLAG_S, false);
        self.set_dst_reg(result)
    }

    fn rol(&mut self) -> (r: FXState)
        requires
            old(self)@.wf(),
        ensures
            final(self)@.wf(),
            (final(self)@, r) == old(self)@.rol_spec(),
    {
        let s = self.src_reg();
        let c: u16 = if self.flags & FLAG_CY != 0 { 1 } else { 0 };
        let result = ((s as u32 * 2) % 0x10000) as u16 + c;
        self.set_zs(result);
        self.set_flag(FLAG_CY, s & 0x8000 != 0);
        self.set_dst_reg(result)
    }

    fn branch_step(&mut self, off: u8, cond: u8) -> (r: FXState)
        requires
            old(self)@.wf(),
        ensures
            final(self)@.wf(),
            (final(self)@, r) == old(self)@.branch_step(off, cond),
    {
        let ghost v1 = self@;
        if branch_taken_exec(self.flags, cond) {
            let offset: u16 = if off >= 0x80 { 0xFF00 + off as u16 } else { off as u16 };
            assert(offset == sext8(off));
            let pc = self.regs[PC_REG];
            let target: u16 = ((pc as u32 + offset as u32) % 0x10000) as u16;
            assert(target == ((v1.regs[PC_REG as int] + sext8(off)) % 0x10000) as u16);
            let st = self.set_pc_reg(target);
            let ghost v2 = self@;
            assert((v2, st) == set_pc_spec(v1, target));
            self.immediate = None;
            assert(self@ == (SuperFXView { immediate: None, ..v2 }));
            st
        } else {
            self.immediate = None;
            FXState::Ready
        }
    }

    fn branch(&mut self, instr: u8) -> (r: FXState)
        requires
            old(self)@.wf(),
            old(self)@.immediate is Some || !old(self)@.fetch_needs_ram(),
        ensures
            final(self)@.wf(),
            (final(self)@, r) == old(self)@.branch_spec(instr),
    {
        match self.immediate_8() {
            Some(off) => self.branch_step(off, instr % 16),
            None => FXState::WaitInternal(instr),
        }
    }

    fn exec_special(&mut self, instr: u8) -> (r: FXState)
        requires
            old(self)@.wf(),
            instr % 16 >= 5 ==> old(self)@.immediate is Some || !old(self)@.fetch_needs_ram(),
        ensures
            final(self)@.wf(),
            (final(self)@, r) == old(self)@.special_spec(instr),
    {
        let n = instr % 16;
        if n == 0 {
            self.stop()
        } else if n == 1 {
            self.reset_prefix();
            FXState::Ready
        } else if n == 2 {
            self.cache_instr()
        } else if n == 3 {
            self.lsr()
        } else if n == 4 {
            self.rol()
        } else {
            self.branch(instr)
        }
    }

    fn loop_instr(&mut self) -> (r: FXState)
        requires
            old(self)@.wf(),
        ensures
            final(self)@.wf(),
            (final(self)@, r) == old(self)@.loop_spec(),
    {
        let dec = self.regs[LOOP_CTR_REG].wrapping_sub(1);
        self.set_zs(dec);
        self.regs[LOOP_CTR_REG] = dec;
        let st = if dec != 0 {
            self.set_pc_reg(self.regs[LOOP_PTR_REG])
        } else {
            FXState::Ready
        };
        self.reset_prefix();
        st
    }

    fn moves(&mut self, n: u8) -> (r: FXState)
        requires
            old(self)@.wf(),
            n < 16,
        ensures
            final(self)@.wf(),
            (final(self)@, r) == old(self)@.moves_spec(n),
    {
        let d = self.regs[n as usize];
        self.set_zs(d);
        self.set_flag(FLAG_OV, d & 0x80 != 0);
        self.set_dst_reg(d)
    }

    fn exec_prefixes(&mut self, instr: u8) -> (r: FXState)
        requires
            old(self)@.wf(),
            instr / 16 == 1 || instr / 16 == 2 || instr / 16 == 3 || instr / 16 == 0xB,
        ensures
            final(self)@.wf(),
            (final(self)@, r) == old(self)@.prefix_spec(instr),
    {
        let hi = instr / 16;
        let n = instr % 16;
        let b = self.flags & FLAG_B != 0;
        if hi == 1 {
            if b {
                let s = self.src_reg();
                self.dst = n;
                self.set_dst_reg(s)
            } else {
                self.dst = n;
                FXState::Ready
            }
        } else if hi == 2 {
            self.src = n;
            self.dst = n;
            self.flags = self.flags | FLAG_B;
            FXState::Ready
        } else if hi == 0xB {
            if b {
                self.moves(n)
            } else {
                self.src = n;
                FXState::Ready
            }
        } else if n == 0xC {
            self.loop_instr()
        } else if n == 0xD {
            self.flags = self.flags | FLAG_ALT1;
            FXState::Ready
        } else if n == 0xE {
            self.flags = self.flags | FLAG_ALT2;
            FXState::Ready
        } else {
            self.flags = self.flags | FLAG_ALT1 | FLAG_ALT2;
            FXState::Ready
        }
    }

    fn exec_byte_ops(&mut self, instr: u8) -> (r: FXState)
        requires
            old(self)@.wf(),
            instr / 16 == 4,
        ensures
            final(self)@.wf(),
            (final(self)@, r) == old(self)@.byte_ops_spec(instr),
    {
        let n = instr % 16;
        let s = self.src_reg();
        if n == 0xD {
            // SWAP
            self.zs_to_dst(make16(lo16(s), hi16(s)))
        } else if n == 0xE {
            // COLOR / CMODE
            if self.flags & FLAG_ALT1 != 0 {
                self.pixel_cache.set_por(lo16(s));
            } else {
                self.pixel_cache.set_colr(lo16(s));
            }
            self.reset_prefix();
            FXState::Ready
        } else {
            // NOT
            self.zs_to_dst(!s)
        }
    }

    fn add_flags(&self, op: u16, with_carry: bool) -> (r: (u16, u16))
        requires
            self@.wf(),
        ensures
            r == self@.add_flags(op, with_carry),
    {
        let op0 = self.src_reg() as u32;
        let op1 = op as u32;
        let carry: u32 = if with_carry && self.flags & FLAG_CY != 0 { 1 } else { 0 };
        let result = op0 + op1 + carry;
        let f = set_flag_exec(self.flags, FLAG_Z, result % 0x10000 == 0);
        let f = set_flag_exec(f, FLAG_CY, result & 0x10000 != 0);
        let f = set_flag_exec(f, FLAG_S, result & 0x8000 != 0);
        let f = set_flag_exec(f, FLAG_OV, (!(op0 ^ op1) & (op0 ^ result)) & 0x8000 != 0);
        (f, (result % 0x10000) as u16)
    }

    fn sub_flags(&self, op: u16, with_carry: bool) -> (r: (u16, u16))
        requires
            self@.wf(),
        ensures
            r == self@.sub_flags(op, with_carry),
    {
        let op0 = self.src_reg() as u32;
        let op1 = op as u32;
        let carry: u32 = if with_carry && self.flags & FLAG_CY == 0 { 1 } else { 0 };
        let result = op0 + 0x20000 - op1 - carry;
        let f = set_flag_exec(self.flags, FLAG_Z, result % 0x10000 == 0);
        let f = set_flag_exec(f, FLAG_CY, result & 0x10000 == 0);
        let f = set_flag_exec(f, FLAG_S, result & 0x8000 != 0);
        let f = set_flag_exec(f, FLAG_OV, ((op0 ^ op1) & (op0 ^ result)) & 0x8000 != 0);
        (f, (result % 0x10000) as u16)
    }

    fn exec_arith(&mut self, instr: u8) -> (r: FXState)
        requires
            old(self)@.wf(),
            instr / 16 == 5 || instr / 16 == 6,
        ensures
            final(self)@.wf(),
            (final(self)@, r) == old(self)@.arith_spec(instr),
    {
        let n = instr % 16;
        let alt = self.alt();
        if instr / 16 == 5 {
            let (f, r) = if alt == 0 {
                self.add_flags(self.regs[n as usize], false)
            } else if alt == 1 {
                self.add_flags(self.regs[n as usize], true)
            } else if alt == 2 {
                self.add_flags(n as u16, false)
            } else {
                self.add_flags(n as u16, true)
            };
            self.flags = f;
            self.set_dst_reg(r)
        } else {
            let (f, r) = if alt == 0 {
                self.sub_flags(self.regs[n as usize], false)
            } else if alt == 1 {
                self.sub_flags(self.regs[n as usize], true)
            } else if alt == 2 {
                self.sub_flags(n as u16, false)
            } else {
                self.sub_flags(self.regs[n as usize], false)
            };
            self.flags = f;
            if alt == 3 {
                // CMP
                self.reset_prefix();
                FXState::Ready
            } else {
                self.set_dst_reg(r)
            }
        }
    }

    fn exec_logic(&mut self, instr: u8) -> (r: FXState)
        requires
            old(self)@.wf(),
            instr / 16 == 7 || instr / 16 == 0xC,
        ensures
            final(self)@.wf(),
            (final(self)@, r) == old(self)@.logic_spec(instr),
    {
        let n = instr % 16;
        let s = self.src_reg();
        let alt = self.alt();
        if instr / 16 == 7 && n == 0 {
            // MERGE
            let result = make16(hi16(self.regs[MERGE_HI_REG]), hi16(self.regs[MERGE_LO_REG]));
            self.set_flag(FLAG_Z, result & 0xF0F0 != 0);
            self.set_flag(FLAG_CY, result & 0xE0E0 != 0);
            self.set_flag(FLAG_S, result & 0x8080 != 0);
            self.set_flag(FLAG_OV, result & 0xC0C0 != 0);
            self.set_dst_reg(result)
        } else if instr / 16 == 0xC && n == 0 {
            // HIB
            let result = hi16(s) as u16;
            self.set_flag(FLAG_Z, result == 0);
            self.set_flag(FLAG_S, result & 0x80 != 0);
            self.set_dst_reg(result)
        } else {
            let op = if alt >= 2 { n as u16 } else { self.regs[n as usize] };
            let result = if instr / 16 == 7 {
                if alt % 2 == 0 { s & op } else { s & !op }
            } else {
                if alt % 2 == 0 { s | op } else { s ^ op }
            };
            self.zs_to_dst(result)
        }
    }

    fn mult8(&mut self, op: u8, signed: bool) -> (r: FXState)
        requires
            old(self)@.wf(),
        ensures
            final(self)@.wf(),
            (final(self)@, r) == old(self)@.mult8(op, signed),
    {
        let s = lo16(self.src_reg());
        let result = if signed {
            let a: i32 = if s >= 0x80 { s as i32 - 0x100 } else { s as i32 };
            let b: i32 = if op >= 0x80 { op as i32 - 0x100 } else { op as i32 };
            assert(-16384 <= a * b <= 16384) by (nonlinear_arith)
                requires
                    -128 <= a <= 127,
                    -128 <= b <= 127,
            ;
            ((a * b + 0x10000) % 0x10000) as u16
        } else {
            assert(s * op <= 65025) by (nonlinear_arith)
                requires
                    s <= 255,
                    op <= 255,
            ;
            (s as u16) * (op as u16)
        };
        self.zs_to_dst(result)
    }

    fn exec_mult_byte(&mut self, instr: u8) -> (r: FXState)
        requires
            old(self)@.wf(),
        ensures
            final(self)@.wf(),
            (final(self)@, r) == old(self)@.mult_byte_spec(instr),
    {
        let n = instr % 16;
        if self.mult_clock == 0 && (self.cfg & CFG_MS0 == 0 || self.clock_select) {
            self.mult_clock = 1;
            FXState::WaitInternal(instr)
        } else {
            let alt = self.alt();
            self.mult_clock = 0;
            let op = if alt >= 2 { n } else { lo16(self.regs[n as usize]) };
            self.mult8(op, alt % 2 == 0)
        }
    }

    fn mult_word(&mut self) -> (r: FXState)
        requires
            old(self)@.wf(),
        ensures
            final(self)@.wf(),
            (final(self)@, r) == old(self)@.mult_word_spec(),
    {
        if self.mult_clock == 0 {
            self.mult_clock = if self.cfg & CFG_MS0 != 0 && !self.clock_select { 3 } else { 7 };
            FXState::WaitInternal(0x9F)
        } else if self.mult_clock > 1 {
            self.mult_clock = self.mult_clock - 1;
            FXState::WaitInternal(0x9F)
        } else {
            let s = self.src_reg();
            let o = self.regs[MULT_OP_REG];
            let a: i64 = if s >= 0x8000 { s as i64 - 0x10000 } else { s as i64 };
            let b: i64 = if o >= 0x8000 { o as i64 - 0x10000 } else { o as i64 };
            assert(-0x4000_0000 <= a * b <= 0x4000_0000) by (nonlinear_arith)
                requires
                    -0x8000 <= a <= 0x7FFF,
                    -0x8000 <= b <= 0x7FFF,
            ;
            let product = ((a * b + 0x1_0000_0000) % 0x1_0000_0000) as u64;
            let lo = (product % 0x10000) as u16;
            let hi = (product / 0x10000) as u16;
            let alt1 = self.flags & FLAG_ALT1 != 0;
            self.mult_clock = 0;
            self.set_flag(FLAG_Z, hi == 0);
            self.set_flag(FLAG_CY, (product / 0x8000) % 2 == 1);
            self.set_flag(FLAG_S, product >= 0x8000_0000);
            if alt1 {
                self.regs[MULT_DST_REG] = lo;
            }
            self.set_dst_reg(hi)
        }
    }

    fn asr(&mut self) -> (r: FXState)
        requires
            old(self)@.wf(),
        ensures
            final(self)@.wf(),
            (final(self)@, r) == old(self)@.asr_spec(),
    {
        let s = self.src_reg();
        let result = if self.flags & FLAG_ALT1 != 0 && s == 0xFFFF {
            0
        } else if s >= 0x8000 {
            s / 2 + 0x8000
        } else {
            s / 2
        };
        self.set_zs(result);
        self.set_flag(FLAG_CY, s & 1 != 0);
        self.set_dst_reg(result)
    }

    fn ror(&mut self) -> (r: FXState)
        requires
            old(self)@.wf(),
        ensures
            final(self)@.wf(),
            (final(self)@, r) == old(self)@.ror_spec(),
    {
        let s = self.src_reg();
        let result = s / 2 + if self.flags & FLAG_CY != 0 { 0x8000 } else { 0 };
        self.set_zs(result);
        self.set_flag(FLAG_CY, s & 1 != 0);
        self.set_dst_reg(result)
    }

    fn jmp(&mut self, n: u8) -> (r: FXState)
        requires
            old(self)@.wf(),
            n < 16,
        ensures
            final(self)@.wf(),
            (final(self)@, r) == old(self)@.jmp_spec(n),
    {
        let s = self.src_reg();
        let st = if self.flags & FLAG_ALT1 != 0 {
            self.pb_next = lo16(self.regs[n as usize]);
            let cbr = self.pc_next & 0xFFF0;
            self.cache.set_cbr(cbr);
            assert(self@.cache.lines =~= cbr_set(old(self)@.cache, cbr).lines);
            FXState::WaitCacheFill { current: self.cache.get_cbr(), next: s }
        } else {
            self.set_pc_reg(self.regs[n as usize])
        };
        self.reset_prefix();
        st
    }

    fn exec_9(&mut self, instr: u8) -> (r: FXState)
        requires
            old(self)@.wf(),
            instr / 16 == 9,
            instr != 0x90,
        ensures
            final(self)@.wf(),
            (final(self)@, r) == old(self)@.group9_spec(instr),
    {
        let n = instr % 16;
        let s = self.src_reg();
        if 1 <= n && n <= 4 {
            self.regs[LINK_REG] = self.regs[PC_REG].wrapping_add(n as u16);
            self.reset_prefix();
            FXState::Ready
        } else if n == 5 {
            let l = lo16(s);
            self.zs_to_dst(if l >= 0x80 { 0xFF00 + l as u16 } else { l as u16 })
        } else if n == 6 {
            self.asr()
        } else if n == 7 {
            self.ror()
        } else if 8 <= n && n <= 0xD {
            self.jmp(n)
        } else if n == 0xE {
            let result = lo16(s) as u16;
            self.set_flag(FLAG_Z, result == 0);
            self.set_flag(FLAG_S, result & 0x80 != 0);
            self.set_dst_reg(result)
        } else {
            self.mult_word()
        }
    }

    fn exec_immediate(&mut self, instr: u8) -> (r: FXState)
        requires
            old(self)@.wf(),
            instr / 16 == 0xA || instr / 16 == 0xF,
            old(self)@.immediate is Some || !old(self)@.fetch_needs_ram(),
        ensures
            final(self)@.wf(),
            (final(self)@, r) == old(self)@.immediate_spec(instr),
    {
        let n = instr % 16;
        if instr / 16 == 0xA {
            // IBT
            match self.immediate_8() {
                Some(i) => {
                    self.dst = n;
                    self.set_dst_reg(if i >= 0x80 { 0xFF00 + i as u16 } else { i as u16 })
                },
                None => FXState::WaitInternal(instr),
            }
        } else {
            // IWT
            match self.immediate_16() {
                Some(i) => {
                    self.dst = n;
                    self.set_dst_reg(i)
                },
                None => FXState::WaitInternal(instr),
            }
        }
    }

    fn inc_dec(&mut self, n: u8, inc: bool) -> (r: FXState)
        requires
            old(self)@.wf(),
            n < 16,
        ensures
            final(self)@.wf(),
            (final(self)@, r) == old(self)@.inc_dec_spec(n, inc),
    {
        let r = if inc {
            self.regs[n as usize].wrapping_add(1)
        } else {
            self.regs[n as usize].wrapping_sub(1)
        };
        self.set_zs(r);
        self.regs[n as usize] = r;
        self.reset_prefix();
        FXState::Ready
    }

    fn getc(&mut self) -> (r: FXState)
        requires
            old(self)@.wf(),
        ensures
            final(self)@.wf(),
            (final(self)@, r) == old(self)@.getc_spec(),
    {
        let s = self.src_reg();
        let alt = self.alt();
        if alt == 2 {
            self.ramb = lo16(s) % 2;
            self.reset_prefix();
            FXState::Ready
        } else if alt == 3 {
            self.romb = lo16(s);
            self.reset_prefix();
            FXState::Ready
        } else {
            match self.rom_cache.try_read(self.romb, self.regs[ROM_PTR_REG]) {
                Some(data) => {
                    self.pixel_cache.set_colr(data);
                    self.reset_prefix();
                    FXState::Ready
                },
                None => FXState::WaitInternal(0xDF),
            }
        }
    }

    fn getb(&mut self) -> (r: FXState)
        requires
            old(self)@.wf(),
        ensures
            final(self)@.wf(),
            (final(self)@, r) == old(self)@.getb_spec(),
    {
        let s = self.src_reg();
        match self.rom_cache.try_read(self.romb, self.regs[ROM_PTR_REG]) {
            Some(data) => {
                let alt = self.alt();
                let result = if alt == 0 {
                    data as u16
                } else if alt == 1 {
                    make16(data, lo16(s))
                } else if alt == 2 {
                    make16(hi16(s), data)
                } else if data >= 0x80 {
                    0xFF00 + data as u16
                } else {
                    data as u16
                };
                self.set_dst_reg(result)
            },
            None => FXState::WaitInternal(0xEF),
        }
    }

    /// Execute instruction `instr` for one cycle (see `exec_spec`): it
    /// completes, or says what the GSU waits for. Loads, stores, PLOT and
    /// RPIX go through the RAM buffer, and so does fetching code from RAM:
    /// those are not run here.
    pub fn execute_instruction(&mut self, instr: u8) -> (r: FXState)
        requires
            old(self)@.wf(),
            !old(self)@.uses_ram(instr),
            old(self)@.takes_immediate(instr) ==> old(self)@.immediate is Some || !old(self)@.fetch_needs_ram(),
        ensures
            final(self)@.wf(),
            (final(self)@, r) == exec_spec(old(self)@, instr),
    {
        let hi = instr / 16;
        let n = instr % 16;
        if hi == 0 {
            self.exec_special(instr)
        } else if hi == 1 || hi == 2 || hi == 3 || hi == 0xB {
            self.exec_prefixes(instr)
        } else if hi == 4 {
            self.exec_byte_ops(instr)
        } else if hi == 5 || hi == 6 {
            self.exec_arith(instr)
        } else if hi == 7 || hi == 0xC {
            self.exec_logic(instr)
        } else if hi == 8 {
            self.exec_mult_byte(instr)
        } else if hi == 9 {
            self.exec_9(instr)
        } else if hi == 0xA || hi == 0xF {
            self.exec_immediate(instr)
        } else if n != 0xF {
            self.inc_dec(n, hi == 0xD)
        } else if hi == 0xD {
            self.getc()
        } else {
            self.getb()
        }
    }
}

fn set_flag_exec(flags: u16, bit: u16, on: bool) -> (r: u16)
    ensures
        r == set_flag(flags, bit, on),
{
    if on {
        flags | bit
    } else {
        flags & !bit
    }
}

fn branch_taken_exec(flags: u16, cond: u8) -> (r: bool)
    ensures
        r == branch_taken(flags, cond),
{
    let s = flags & FLAG_S != 0;
    let ov = flags & FLAG_OV != 0;
    let z = flags & FLAG_Z != 0;
    let cy = flags & FLAG_CY != 0;
    if cond == 5 {
        true
    } else if cond == 6 {
        s == ov
    } else if cond == 7 {
        s != ov
    } else if cond == 8 {
        !z
    } else if cond == 9 {
        z
    } else if cond == 0xA {
        !s
    } else if cond == 0xB {
        s
    } else if cond == 0xC {
        !cy
    } else if cond == 0xD {
        cy
    } else if cond == 0xE {
        !ov
    } else {
        ov
    }
}

// ----- Laws of the instructions -----

proof fn lemma_flag_bits(f: u16, b: u16, c: u16, on: bool)
    by (bit_vector)
    requires
        b == 2 || b == 4 || b == 8 || b == 16,
        c == 2 || c == 4 || c == 8 || c == 16,
    ensures
        ((if on { f | b } else { f & !b }) & b != 0) == on,
        c != b ==> (if on { f | b } else { f & !b }) & c == f & c,
        (f & !0x1300u16) & c == f & c,
{
}

proof fn lemma_alt_and_sign(f: u16, r: u16)
    by (bit_vector)
    ensures
        (f & 0x0300u16) / 256 == (if f & 0x100u16 != 0 { 1u16 } else { 0u16 }) + (if f & 0x200u16 != 0 { 2u16 } else { 0u16 }),
        (r & 0x8000u16 != 0) == (r >= 0x8000),
        !r == 0xFFFF - r,
        r >> 1u16 == r / 2,
        (r & 1u16 != 0) == (r % 2 == 1),
{
}

/// AND and BIC (opcodes $71-$7F), OR and XOR ($C1-$CF): the destination
/// gets the source register ANDed, or ORed, with register `n`; with ALT1
/// the source ANDed with its complement (BIC), or XORed with it; with ALT2
/// the operand is the number `n` itself. Z and S follow the result, no
/// other register changes, and the instruction completes with its
/// prefixes cleared.
pub proof fn lemma_logic_ops(v: SuperFXView, instr: u8)
    requires
        v.wf(),
        (0x71 <= instr <= 0x7F) || (0xC1 <= instr <= 0xCF),
        v.dst != 15,
    ensures
        ({
            let n = instr % 16;
            let op: u16 = if v.flags & FLAG_ALT2 != 0 { n as u16 } else { v.regs[n as int] };
            let s = v.regs[v.src as int];
            let alt1 = v.flags & FLAG_ALT1 != 0;
            let r: u16 = if instr < 0x80 {
                if alt1 { s & !op } else { s & op }
            } else {
                if alt1 { s ^ op } else { s | op }
            };
            let (w, st) = exec_spec(v, instr);
            &&& st == FXState::Ready
            &&& w.regs == v.regs.update(v.dst as int, r)
            &&& (w.flags & FLAG_Z != 0) == (r == 0)
            &&& (w.flags & FLAG_S != 0) == (r >= 0x8000)
            &&& w.src == 0
            &&& w.dst == 0
        }),
{
    let n = instr % 16;
    let op: u16 = if v.flags & FLAG_ALT2 != 0 { n as u16 } else { v.regs[n as int] };
    let s = v.regs[v.src as int];
    let alt1 = v.flags & FLAG_ALT1 != 0;
    let r: u16 = if instr < 0x80 {
        if alt1 { s & !op } else { s & op }
    } else {
        if alt1 { s ^ op } else { s | op }
    };
    lemma_alt_and_sign(v.flags, r);
    assert(v.logic_spec(instr) == exec_spec(v, instr));
    assert(v.zs_to_dst(r) == exec_spec(v, instr));
    let f1 = set_flag(v.flags, FLAG_Z, r == 0);
    let f2 = set_flag(f1, FLAG_S, r & 0x8000 != 0);
    lemma_flag_bits(v.flags, FLAG_Z, FLAG_Z, r == 0);
    lemma_flag_bits(f1, FLAG_S, FLAG_Z, r & 0x8000 != 0);
    lemma_flag_bits(f1, FLAG_S, FLAG_S, r & 0x8000 != 0);
    lemma_flag_bits(f2, FLAG_S, FLAG_Z, false);
    lemma_flag_bits(f2, FLAG_S, FLAG_S, false);
}

proof fn lemma_bit16(x: u32)
    by (bit_vector)
    ensures
        x < 0x20000 ==> ((x & 0x10000u32 != 0) == (x >= 0x10000)),
        0x10000 <= x < 0x30000 ==> ((x & 0x10000u32 == 0) == (x >= 0x20000)),
{
}

proof fn lemma_add_flags(v: SuperFXView, op1: u16, with_c: bool)
    requires
        v.wf(),
    ensures
        ({
            let (f, r) = v.add_flags(op1, with_c);
            let sum = v.regs[v.src as int] + op1 + if with_c && v.flags & FLAG_CY != 0 { 1int } else { 0 };
            &&& r == sum % 0x10000
            &&& ((f & !0x1300u16) & FLAG_CY != 0) == (sum >= 0x10000)
            &&& ((f & !0x1300u16) & FLAG_Z != 0) == (sum % 0x10000 == 0)
        }),
{
    let op0 = v.src_reg() as u32;
    let o1 = op1 as u32;
    let carry: u32 = if with_c && v.flags & FLAG_CY != 0 { 1 } else { 0 };
    let result = (op0 + o1 + carry) as u32;
    lemma_bit16(result);
    let f0 = v.flags;
    let f1 = set_flag(f0, FLAG_Z, result % 0x10000 == 0);
    let f2 = set_flag(f1, FLAG_CY, result & 0x10000 != 0);
    let f3 = set_flag(f2, FLAG_S, result & 0x8000 != 0);
    let f4 = set_flag(f3, FLAG_OV, (!(op0 ^ o1) & (op0 ^ result)) & 0x8000 != 0);
    lemma_flag_bits(f0, FLAG_Z, FLAG_Z, result % 0x10000 == 0);
    lemma_flag_bits(f1, FLAG_CY, FLAG_Z, result & 0x10000 != 0);
    lemma_flag_bits(f1, FLAG_CY, FLAG_CY, result & 0x10000 != 0);
    lemma_flag_bits(f2, FLAG_S, FLAG_Z, result & 0x8000 != 0);
    lemma_flag_bits(f2, FLAG_S, FLAG_CY, result & 0x8000 != 0);
    lemma_flag_bits(f3, FLAG_OV, FLAG_Z, (!(op0 ^ o1) & (op0 ^ result)) & 0x8000 != 0);
    lemma_flag_bits(f3, FLAG_OV, FLAG_CY, (!(op0 ^ o1) & (op0 ^ result)) & 0x8000 != 0);
    lemma_flag_bits(f4, FLAG_OV, FLAG_Z, false);
    lemma_flag_bits(f4, FLAG_OV, FLAG_CY, false);
}

proof fn lemma_sub_flags(v: SuperFXView, op1: u16, with_c: bool)
    requires
        v.wf(),
    ensures
        ({
            let (f, r) = v.sub_flags(op1, with_c);
            let diff = v.regs[v.src as int] - op1 - if with_c && v.flags & FLAG_CY == 0 { 1int } else { 0 };
            &&& r == (diff + 0x20000) % 0x10000
            &&& ((f & !0x1300u16) & FLAG_CY != 0) == (diff >= 0)
            &&& ((f & !0x1300u16) & FLAG_Z != 0) == ((diff + 0x20000) % 0x10000 == 0)
        }),
{
    let op0 = v.src_reg() as u32;
    let o1 = op1 as u32;
    let carry: u32 = if with_c && v.flags & FLAG_CY == 0 { 1 } else { 0 };
    let result = (op0 + 0x20000 - o1 - carry) as u32;
    lemma_bit16(result);
    let f0 = v.flags;
    let f1 = set_flag(f0, FLAG_Z, result % 0x10000 == 0);
    let f2 = set_flag(f1, FLAG_CY, result & 0x10000 == 0);
    let f3 = set_flag(f2, FLAG_S, result & 0x8000 != 0);
    let f4 = set_flag(f3, FLAG_OV, ((op0 ^ o1) & (op0 ^ result)) & 0x8000 != 0);
    lemma_flag_bits(f0, FLAG_Z, FLAG_Z, result % 0x10000 == 0);
    lemma_flag_bits(f1, FLAG_CY, FLAG_Z, result & 0x10000 == 0);
    lemma_flag_bits(f1, FLAG_CY, FLAG_CY, result & 0x10000 == 0);
    lemma_flag_bits(f2, FLAG_S, FLAG_Z, result & 0x8000 != 0);
    lemma_flag_bits(f2, FLAG_S, FLAG_CY, result & 0x8000 != 0);
    lemma_flag_bits(f3, FLAG_OV, FLAG_Z, ((op0 ^ o1) & (op0 ^ result)) & 0x8000 != 0);
    lemma_flag_bits(f3, FLAG_OV, FLAG_CY, ((op0 ^ o1) & (op0 ^ result)) & 0x8000 != 0);
    lemma_flag_bits(f4, FLAG_OV, FLAG_Z, false);
    lemma_flag_bits(f4, FLAG_OV, FLAG_CY, false);
}

/// ADD and ADC (opcodes $50-$5F): the destination gets the source
/// register plus register `n` (with ALT2, the number `n`), plus the carry
/// for ADC (ALT1). Carry is set when the sum leaves 16 bits, Z when the
/// result is zero; no other register changes.
pub proof fn lemma_add(v: SuperFXView, instr: u8)
    requires
        v.wf(),
        0x50 <= instr <= 0x5F,
        v.dst != 15,
    ensures
        ({
            let n = instr % 16;
            let op: int = if v.flags & FLAG_ALT2 != 0 { n as int } else { v.regs[n as int] as int };
            let sum = v.regs[v.src as int] + op + if v.flags & FLAG_ALT1 != 0 && v.flags & FLAG_CY != 0 { 1int } else { 0 };
            let (w, st) = exec_spec(v, instr);
            &&& st == FXState::Ready
            &&& w.regs == v.regs.update(v.dst as int, (sum % 0x10000) as u16)
            &&& (w.flags & FLAG_CY != 0) == (sum >= 0x10000)
            &&& (w.flags & FLAG_Z != 0) == (sum % 0x10000 == 0)
        }),
{
    let n = instr % 16;
    lemma_alt_and_sign(v.flags, 0);
    assert(v.arith_spec(instr) == exec_spec(v, instr));
    let alt = v.alt();
    let op1: u16 = if alt >= 2 { n as u16 } else { v.regs[n as int] };
    let with_c = alt % 2 == 1;
    lemma_add_flags(v, op1, with_c);
}

/// SUB and SBC (opcodes $60-$6F): the destination gets the source register
/// minus register `n` (with ALT2, the number `n`), minus the borrow for SBC
/// (ALT1), modulo 2^16; CMP (ALT1 and ALT2) writes no register. Carry is
/// set when the difference does not go below zero, Z when its low 16 bits
/// are zero.
pub proof fn lemma_sub(v: SuperFXView, instr: u8)
    requires
        v.wf(),
        0x60 <= instr <= 0x6F,
        v.dst != 15,
    ensures
        ({
            let n = instr % 16;
            let alt1 = v.flags & FLAG_ALT1 != 0;
            let alt2 = v.flags & FLAG_ALT2 != 0;
            let op: int = if alt2 && !alt1 { n as int } else { v.regs[n as int] as int };
            let diff = v.regs[v.src as int] - op - if alt1 && !alt2 && v.flags & FLAG_CY == 0 { 1int } else { 0 };
            let (w, st) = exec_spec(v, instr);
            &&& st == FXState::Ready
            &&& w.regs == if alt1 && alt2 {
                v.regs
            } else {
                v.regs.update(v.dst as int, ((diff + 0x20000) % 0x10000) as u16)
            }
            &&& (w.flags & FLAG_CY != 0) == (diff >= 0)
            &&& (w.flags & FLAG_Z != 0) == ((diff + 0x20000) % 0x10000 == 0)
        }),
{
    let n = instr % 16;
    lemma_alt_and_sign(v.flags, 0);
    assert(v.arith_spec(instr) == exec_spec(v, instr));
    let alt = v.alt();
    let op1: u16 = if alt == 2 { n as u16 } else { v.regs[n as int] };
    let with_c = alt == 1;
    lemma_sub_flags(v, op1, with_c);
}

/// INC and DEC (opcodes $D0-$DE, $E0-$EE): register `n` goes up, or down,
/// by one modulo 2^16, Z and S follow it, no other register changes.
pub proof fn lemma_inc_dec(v: SuperFXView, instr: u8)
    requires
        v.wf(),
        (0xD0 <= instr <= 0xDE) || (0xE0 <= instr <= 0xEE),
    ensures
        ({
            let n = instr % 16;
            let r = ((v.regs[n as int] + if instr < 0xE0 { 1int } else { 0xFFFF }) % 0x10000) as u16;
            let (w, st) = exec_spec(v, instr);
            &&& st == FXState::Ready
            &&& w.regs == v.regs.update(n as int, r)
            &&& (w.flags & FLAG_Z != 0) == (r == 0)
            &&& (w.flags & FLAG_S != 0) == (r >= 0x8000)
        }),
{
    let n = instr % 16;
    let r = ((v.regs[n as int] + if instr < 0xE0 { 1int } else { 0xFFFF }) % 0x10000) as u16;
    lemma_alt_and_sign(v.flags, r);
    let f1 = set_flag(v.flags, FLAG_Z, r == 0);
    let f2 = set_flag(f1, FLAG_S, r & 0x8000 != 0);
    lemma_flag_bits(v.flags, FLAG_Z, FLAG_Z, r == 0);
    lemma_flag_bits(f1, FLAG_S, FLAG_Z, r & 0x8000 != 0);
    lemma_flag_bits(f1, FLAG_S, FLAG_S, r & 0x8000 != 0);
    lemma_flag_bits(f2, FLAG_S, FLAG_Z, false);
    lemma_flag_bits(f2, FLAG_S, FLAG_S, false);
}

/// The shifts and byte operations on the source register `s`, into the
/// destination: LSR ($03) halves it; ROL ($04) doubles it modulo 2^16 and
/// brings the carry into bit 0; SWAP ($4D) exchanges its bytes; NOT ($4F)
/// complements it; SEX ($95) sign-extends its low byte; ASR ($96) halves
/// it keeping the sign (DIV2, with ALT1, takes -1 to 0); ROR ($97) halves
/// it and brings the carry into bit 15; LOB ($9E) and HIB ($C0) keep its
/// low or high byte. The shifts put the bit shifted out into the carry. No
/// other register changes.
pub proof fn lemma_shift_byte_ops(v: SuperFXView, instr: u8)
    requires
        v.wf(),
        v.dst != 15,
        instr == 0x03 || instr == 0x04 || instr == 0x4D || instr == 0x4F || instr == 0x95 || instr == 0x96
            || instr == 0x97 || instr == 0x9E || instr == 0xC0,
    ensures
        ({
            let s = v.regs[v.src as int] as int;
            let cy = v.flags & FLAG_CY != 0;
            let r: int = if instr == 0x03 {
                s / 2
            } else if instr == 0x04 {
                (s * 2) % 0x10000 + if cy { 1int } else { 0 }
            } else if instr == 0x4D {
                (s % 256) * 256 + s / 256
            } else if instr == 0x4F {
                0xFFFF - s
            } else if instr == 0x95 {
                if s % 256 >= 0x80 { 0xFF00 + s % 256 } else { s % 256 }
            } else if instr == 0x96 {
                if v.flags & FLAG_ALT1 != 0 && s == 0xFFFF { 0 } else if s >= 0x8000 { s / 2 + 0x8000 } else { s / 2 }
            } else if instr == 0x97 {
                s / 2 + if cy { 0x8000int } else { 0 }
            } else if instr == 0x9E {
                s % 256
            } else {
                s / 256
            };
            let (w, st) = exec_spec(v, instr);
            &&& st == FXState::Ready
            &&& w.regs == v.regs.update(v.dst as int, r as u16)
            &&& (instr == 0x03 || instr == 0x96 || instr == 0x97) ==> ((w.flags & FLAG_CY != 0) == (s % 2 == 1))
            &&& instr == 0x04 ==> ((w.flags & FLAG_CY != 0) == (s >= 0x8000))
        }),
{
    let s = v.regs[v.src as int];
    lemma_alt_and_sign(v.flags, s);
    let f0 = v.flags;
    if instr == 0x03 {
        let result = s >> 1;
        let f1 = set_flag(f0, FLAG_Z, result == 0);
        let f2 = set_flag(f1, FLAG_CY, s & 1 != 0);
        let f3 = set_flag(f2, FLAG_S, false);
        lemma_flag_bits(f1, FLAG_CY, FLAG_CY, s & 1 != 0);
        lemma_flag_bits(f2, FLAG_S, FLAG_CY, false);
        lemma_flag_bits(f3, FLAG_S, FLAG_CY, false);
    } else if instr == 0x04 {
        let result = ((s as int * 2) % 0x10000 + if f0 & FLAG_CY != 0 { 1int } else { 0 }) as u16;
        let f2 = zs_flags(f0, result);
        let f3 = set_flag(f2, FLAG_CY, s & 0x8000 != 0);
        lemma_flag_bits(f2, FLAG_CY, FLAG_CY, s & 0x8000 != 0);
        lemma_flag_bits(f3, FLAG_S, FLAG_CY, false);
    } else if instr == 0x96 || instr == 0x97 {
        let result = if instr == 0x96 {
            if f0 & FLAG_ALT1 != 0 && s == 0xFFFF { 0u16 } else if s >= 0x8000 { (s / 2 + 0x8000) as u16 } else { s / 2 }
        } else {
            ((s / 2) + if f0 & FLAG_CY != 0 { 0x8000int } else { 0 }) as u16
        };
        let f2 = zs_flags(f0, result);
        let f3 = set_flag(f2, FLAG_CY, s & 1 != 0);
        lemma_flag_bits(f2, FLAG_CY, FLAG_CY, s & 1 != 0);
        lemma_flag_bits(f3, FLAG_S, FLAG_CY, false);
    }
}

/// A branch ($05-$0F) whose offset has come: BRA always jumps; BGE and
/// BLT jump when S equals, or differs from, OV; BNE and BEQ on Z clear or
/// set; BPL and BMI on S; BCC and BCS on CY; BVC and BVS on OV. A branch
/// taken goes to the program counter plus the sign-extended offset, modulo
/// 2^16, through the cache as any jump; either way the stored immediate is
/// used up and nothing else changes.
pub proof fn lemma_branch(v: SuperFXView, off: u8, cond: u8)
    requires
        5 <= cond <= 15,
    ensures
        ({
            let s = v.flags & 0x08 != 0;
            let ov = v.flags & 0x10 != 0;
            let z = v.flags & 0x02 != 0;
            let cy = v.flags & 0x04 != 0;
            let taken = if cond == 5 {
                true
            } else if cond == 6 || cond == 7 {
                (s == ov) == (cond == 6)
            } else if cond == 8 || cond == 9 {
                z == (cond == 9)
            } else if cond == 10 || cond == 11 {
                s == (cond == 11)
            } else if cond == 12 || cond == 13 {
                cy == (cond == 13)
            } else {
                ov == (cond == 15)
            };
            let target = ((v.regs[PC_REG as int] + if off >= 0x80 { off + 0xFF00 } else { off as int }) % 0x10000) as u16;
            &&& taken ==> v.branch_step(off, cond) == (SuperFXView { immediate: None, ..set_pc_spec(v, target).0 }, set_pc_spec(v, target).1)
            &&& !taken ==> v.branch_step(off, cond) == (SuperFXView { immediate: None, ..v }, FXState::Ready)
        }),
{
}

/// MULT and UMULT ($80-$8F), once their operands are ready: the
/// destination gets the low byte of the source times the low byte of
/// register `n` (with ALT2, the number `n`), as signed bytes, or as
/// unsigned ones with ALT1, the product taken modulo 2^16.
pub proof fn lemma_mult_byte(v: SuperFXView, instr: u8)
    requires
        v.wf(),
        0x80 <= instr <= 0x8F,
        v.dst != 15,
        !(v.mult_clock == 0 && (v.cfg & CFG_MS0 == 0 || v.clock_select)),
    ensures
        ({
            let n = instr % 16;
            let a: int = v.regs[v.src as int] as int % 256;
            let b: int = if v.flags & FLAG_ALT2 != 0 { n as int } else { v.regs[n as int] as int % 256 };
            let sa: int = if a >= 128 { a - 256 } else { a };
            let sb: int = if b >= 128 { b - 256 } else { b };
            let r: int = if v.flags & FLAG_ALT1 != 0 { a * b } else { (sa * sb + 0x10000) % 0x10000 };
            let (w, st) = exec_spec(v, instr);
            &&& st == FXState::Ready
            &&& w.regs == v.regs.update(v.dst as int, r as u16)
            &&& w.mult_clock == 0
        }),
{
    lemma_alt_and_sign(v.flags, 0);
}

} // verus!
