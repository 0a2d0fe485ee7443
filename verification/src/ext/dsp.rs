//! NEC uPD77C25, the DSP co-processor found on some cartridges.
//!
//! The processor executes 24-bit instructions from a 2048-word program ROM,
//! reads constants from a 1024-word data ROM and works on 256 words of RAM.
//! Its behaviour is specified by `spec_step`, a functional model of one
//! instruction, and every executable helper is proved against the matching
//! piece of that model.
use vstd::prelude::*;
use crate::constants::MASTER_HZ;
use crate::bits::{lemma_u16_low_masks, lemma_u8_low_masks, make16, lo16, hi16, set_lo16, set_hi16, lo32, hi32};

verus! {

/// Size in bytes of the program ROM (2048 instructions of 3 bytes).
pub const PROG_ROM_SIZE: usize = 6144;
/// Size in bytes of the data ROM (1024 words).
pub const DATA_ROM_SIZE: usize = 2048;
/// Size in bytes of the data RAM (256 words).
pub const DATA_RAM_SIZE: usize = 512;

// Status register bits.
pub const SR_RQM: u16 = 0x8000;
pub const SR_USF1: u16 = 0x4000;
pub const SR_USF0: u16 = 0x2000;
pub const SR_DRS: u16 = 0x1000;
pub const SR_DMA: u16 = 0x0800;
pub const SR_DRC: u16 = 0x0400;
pub const SR_SOC: u16 = 0x0200;
pub const SR_SIC: u16 = 0x0100;
pub const SR_EI: u16 = 0x0080;
pub const SR_P1: u16 = 0x0002;
pub const SR_P0: u16 = 0x0001;
/// All bits of the status register that exist.
pub const SR_VALID: u16 = 0xFF83;

/// Flags of one accumulator.
#[derive(Clone, Copy)]
pub struct AccFlags {
    pub s0: bool,   // Sign
    pub z: bool,    // Zero
    pub c: bool,    // Carry
    pub ov0: bool,  // Overflow
    pub s1: bool,   // Direction of overflow
    pub ov1: bool,  // Number of overflows (parity)
}

/// The value of a 16-bit word read as a two's complement number.
pub open spec fn signed16(x: u16) -> int {
    if x < 0x8000 { x as int } else { x - 0x10000 }
}

/// True when `v` does not fit in a signed 16-bit word.
pub open spec fn out_of_i16(v: int) -> bool {
    v < -0x8000 || v > 0x7FFF
}

/// Flags with sign and zero taken from `result`.
pub open spec fn flags_sz(f: AccFlags, result: u16) -> AccFlags {
    AccFlags { s0: result >= 0x8000, z: result == 0, ..f }
}

/// Overflow bookkeeping: OV0 records whether the last operation overflowed;
/// on overflow S1 takes the current sign and OV1 flips.
pub open spec fn flags_ovf(f: AccFlags, overflow: bool) -> AccFlags {
    if overflow {
        AccFlags { ov0: true, s1: f.s0, ov1: !f.ov1, ..f }
    } else {
        AccFlags { ov0: false, ..f }
    }
}

/// Flags after a logic operation: sign and zero from the result, overflow
/// and carry cleared.
pub open spec fn flags_logic(f: AccFlags, result: u16) -> AccFlags {
    AccFlags { ov0: false, ov1: false, c: false, ..flags_sz(f, result) }
}

/// Flags after a shift that sets carry to `c`: overflow flags cleared.
pub open spec fn flags_shift(f: AccFlags, result: u16, c: bool) -> AccFlags {
    AccFlags { ov0: false, ov1: false, c: c, ..flags_sz(f, result) }
}

/// The default (all clear) flags.
pub open spec fn flags_clear() -> AccFlags {
    AccFlags { s0: false, z: false, c: false, ov0: false, s1: false, ov1: false }
}

proof fn lemma_ovf_bits(a: u16, b: u16, r: u16)
    by (bit_vector)
    ensures
        ((!(a ^ b) & (a ^ r)) & 0x8000 != 0) == (((a >= 0x8000) == (b >= 0x8000)) && ((r
            >= 0x8000) != (a >= 0x8000))),
        (((a ^ b) & (a ^ r)) & 0x8000 != 0) == (((a >= 0x8000) != (b >= 0x8000)) && ((r
            >= 0x8000) != (a >= 0x8000))),
{
}

impl AccFlags {
    pub fn new() -> (r: Self)
        ensures
            r == flags_clear(),
    {
        AccFlags { s0: false, z: false, c: false, ov0: false, s1: false, ov1: false }
    }

    fn set_sz(&mut self, result: u16)
        ensures
            *final(self) == flags_sz(*old(self), result),
    {
        self.s0 = result & 0x8000 != 0;
        self.z = result == 0;
        proof {
            lemma_u16_low_masks(result);
        }
    }

    /// Record the overflow of an addition `in_1 + in_2 (+ carry)` whose
    /// 16-bit result is `result`.
    fn set_add_ovf(&mut self, in_1: u16, in_2: u16, result: u16)
        ensures
            *final(self) == flags_ovf(
                *old(self),
                ((in_1 >= 0x8000) == (in_2 >= 0x8000)) && ((result >= 0x8000) != (in_1 >= 0x8000)),
            ),
    {
        let set_ov0 = (!(in_1 ^ in_2) & (in_1 ^ result)) & 0x8000 != 0;
        proof {
            lemma_ovf_bits(in_1, in_2, result);
        }
        self.ov0 = set_ov0;
        if set_ov0 {
            self.s1 = self.s0;
            self.ov1 = !self.ov1;
        }
    }

    /// Record the overflow of a subtraction `in_1 - in_2 (- borrow)` whose
    /// 16-bit result is `result`.
    fn set_sub_ovf(&mut self, in_1: u16, in_2: u16, result: u16)
        ensures
            *final(self) == flags_ovf(
                *old(self),
                ((in_1 >= 0x8000) != (in_2 >= 0x8000)) && ((result >= 0x8000) != (in_1 >= 0x8000)),
            ),
    {
        let set_ov0 = ((in_1 ^ in_2) & (in_1 ^ result)) & 0x8000 != 0;
        proof {
            lemma_ovf_bits(in_1, in_2, result);
        }
        self.ov0 = set_ov0;
        if set_ov0 {
            self.s1 = self.s0;
            self.ov1 = !self.ov1;
        }
    }

    fn clear_ovf(&mut self)
        ensures
            *final(self) == (AccFlags { ov0: false, ov1: false, ..*old(self) }),
    {
        self.ov0 = false;
        self.ov1 = false;
    }

    fn clear_ovf_and_carry(&mut self)
        ensures
            *final(self) == (AccFlags { ov0: false, ov1: false, c: false, ..*old(self) }),
    {
        self.ov0 = false;
        self.ov1 = false;
        self.c = false;
    }

    fn carry(self) -> (r: u32)
        ensures
            r == (if self.c { 1u32 } else { 0u32 }),
    {
        if self.c {
            1
        } else {
            0
        }
    }
}

/// Signed overflow of `a + b + c` is what the sign-bit rule detects.
proof fn lemma_add_overflow(a: u16, b: u16, c: int)
    requires
        0 <= c <= 1,
    ensures
        ({
            let r = ((a + b + c) % 0x10000) as u16;
            (((a >= 0x8000) == (b >= 0x8000)) && ((r >= 0x8000) != (a >= 0x8000))) == out_of_i16(
                signed16(a) + signed16(b) + c,
            )
        }),
{
}

/// Signed overflow of `a - b - c` is what the sign-bit rule detects.
proof fn lemma_sub_overflow(a: u16, b: u16, c: int)
    requires
        0 <= c <= 1,
    ensures
        ({
            let r = ((signed16(a) - signed16(b) - c) % 0x10000) as u16;
            (((a >= 0x8000) != (b >= 0x8000)) && ((r >= 0x8000) != (a >= 0x8000))) == out_of_i16(
                signed16(a) - signed16(b) - c,
            )
        }),
{
}

/// `a - b - c` with both words read as signed numbers.
fn signed_diff(a: u16, b: u16, c: u32) -> (r: i32)
    requires
        c <= 1,
    ensures
        r == signed16(a) - signed16(b) - c,
{
    let sa: i32 = if a < 0x8000 {
        a as i32
    } else {
        a as i32 - 0x10000
    };
    let sb: i32 = if b < 0x8000 {
        b as i32
    } else {
        b as i32 - 0x10000
    };
    sa - sb - (c as i32)
}

/// The 16-bit two's complement pattern of `d`.
fn wrap16(d: i32) -> (r: u16)
    requires
        -0x10000 <= d < 0x10000,
    ensures
        r == (d % 0x10000) as u16,
{
    proof {
        vstd::arithmetic::div_mod::lemma_mod_add_multiples_vanish(d as int, 0x10000);
    }
    ((d + 0x10000) % 0x10000) as u16
}

// ---------------------------------------------------------------------------
// Instruction fields.
// ---------------------------------------------------------------------------

/// Bit 23 clear: an ALU instruction.
pub open spec fn instr_is_alu(i: u32) -> bool {
    i & 0x80_0000 == 0
}

/// Bit 22 clear (when not ALU): a jump instruction. Otherwise a load.
pub open spec fn instr_is_jp(i: u32) -> bool {
    i & 0x40_0000 == 0
}

/// ALU: return after the instruction (bit 22).
pub open spec fn instr_rt(i: u32) -> bool {
    i & 0x40_0000 != 0
}

/// ALU: P select, bits 21-20.
pub open spec fn instr_p(i: u32) -> u32 {
    (i & 0x30_0000) >> 20
}

/// ALU: opcode, bits 19-16.
pub open spec fn instr_opcode(i: u32) -> u32 {
    (i & 0xF_0000) >> 16
}

/// ALU: bit 15 selects accumulator B.
pub open spec fn instr_acc_b(i: u32) -> bool {
    i & 0x8000 != 0
}

/// ALU: DP low modifier, bits 14-13.
pub open spec fn instr_dpl(i: u32) -> u32 {
    (i & 0x6000) >> 13
}

/// ALU: DP high XOR value, bits 12-9.
pub open spec fn instr_dph(i: u32) -> u32 {
    (i & 0x1E00) >> 9
}

/// ALU: decrement RP (bit 8).
pub open spec fn instr_rp_dec(i: u32) -> bool {
    i & 0x100 != 0
}

/// ALU: source of the internal data bus, bits 7-4.
pub open spec fn instr_src(i: u32) -> u32 {
    (i & 0xF0) >> 4
}

/// ALU and LD: destination of the internal data bus, bits 3-0.
pub open spec fn instr_dst(i: u32) -> u32 {
    i & 0xF
}

/// LD: 16-bit immediate, bits 21-6.
pub open spec fn instr_imm(i: u32) -> u32 {
    (i & 0x3F_FFC0) >> 6
}

/// JP: branch condition, bits 21-13.
pub open spec fn instr_brch(i: u32) -> u32 {
    (i & 0x3F_E000) >> 13
}

/// JP: next address (word), bits 12-2.
pub open spec fn instr_na(i: u32) -> u32 {
    (i & 0x1FFC) >> 2
}

proof fn lemma_instr_fields(i: u32)
    by (bit_vector)
    ensures
        (i & 0x30_0000) >> 20 < 4,
        (i & 0xF_0000) >> 16 < 16,
        (i & 0x6000) >> 13 < 4,
        (i & 0x1E00) >> 9 < 16,
        (i & 0xF0) >> 4 < 16,
        i & 0xF < 16,
        (i & 0x3F_FFC0) >> 6 < 0x10000,
        (i & 0x3F_E000) >> 13 < 0x200,
        (i & 0x1FFC) >> 2 < 0x800,
        (i & 0x1E00) >> 5 == ((i & 0x1E00) >> 9) * 16,
{
}

/// The DP register after an ALU instruction: the low nybble is kept,
/// incremented, decremented (both modulo 16) or cleared; the high nybble is
/// XORed with the DPH field.
pub open spec fn dp_adjust_spec(i: u32, dp: u8) -> u8 {
    let lo: int = if instr_dpl(i) == 0 {
        (dp % 16) as int
    } else if instr_dpl(i) == 1 {
        (dp + 1) % 16
    } else if instr_dpl(i) == 2 {
        (dp + 15) % 16
    } else {
        0
    };
    (((((dp / 16) as u8) ^ (instr_dph(i) as u8)) as int) * 16 + lo) as u8
}

/// Which accumulator, if any, the data move wrote.
pub enum MovedToAcc {
    No,
    AccA,
    AccB,
}

/// Whether the ALU operation runs: it is skipped when the move wrote the
/// accumulator the operation would use.
pub open spec fn alu_runs(i: u32, moved: MovedToAcc) -> bool {
    match moved {
        MovedToAcc::No => true,
        MovedToAcc::AccA => instr_acc_b(i),
        MovedToAcc::AccB => !instr_acc_b(i),
    }
}

fn is_alu(instr: u32) -> (r: bool)
    ensures
        r == instr_is_alu(instr),
{
    instr & 0x80_0000 == 0
}

fn is_jp(instr: u32) -> (r: bool)
    ensures
        r == instr_is_jp(instr),
{
    instr & 0x40_0000 == 0
}

fn alu_opcode(instr: u32) -> (r: u32)
    ensures
        r == instr_opcode(instr),
        r < 16,
{
    proof {
        lemma_instr_fields(instr);
    }
    (instr & 0xF_0000) >> 16
}

fn use_acc_b(instr: u32) -> (r: bool)
    ensures
        r == instr_acc_b(instr),
{
    instr & 0x8000 != 0
}

fn should_do_alu_op(instr: u32, acc_affected: MovedToAcc) -> (r: bool)
    ensures
        r == alu_runs(instr, acc_affected),
{
    match acc_affected {
        MovedToAcc::No => true,
        MovedToAcc::AccA => use_acc_b(instr),
        MovedToAcc::AccB => !use_acc_b(instr),
    }
}

fn p_select(instr: u32) -> (r: u32)
    ensures
        r == instr_p(instr),
        r < 4,
{
    proof {
        lemma_instr_fields(instr);
    }
    (instr & 0x30_0000) >> 20
}

fn should_return(instr: u32) -> (r: bool)
    ensures
        r == instr_rt(instr),
{
    instr & 0x40_0000 != 0
}

/// The new data pointer after an ALU instruction.
pub fn dp_adjust(instr: u32, dp: u8) -> (r: u8)
    ensures
        r == dp_adjust_spec(instr, dp),
{
    proof {
        lemma_instr_fields(instr);
        lemma_u8_low_masks(dp);
    }
    let dpl = (instr & 0x6000) >> 13;
    let dp_lo: u8 = if dpl == 0 {
        dp & 0xF
    } else if dpl == 1 {
        ((dp as u16 + 1) % 16) as u8
    } else if dpl == 2 {
        ((dp as u16 + 15) % 16) as u8
    } else {
        0
    };
    let dp_hi_xor = (instr & 0x1E00) >> 5;
    let dp_hi = (dp_hi_xor as u8) ^ dp;
    proof {
        let d = instr_dph(instr) as u8;
        assert(dp_hi_xor as u8 == d * 16);
        lemma_dp_adjust_bits(dp, d, dp_lo);
    }
    (dp_hi & 0xF0) | dp_lo
}

proof fn lemma_dp_adjust_bits(dp: u8, d: u8, lo: u8)
    by (bit_vector)
    requires
        d < 16,
        lo < 16,
    ensures
        (((d * 16) as u8 ^ dp) & 0xF0) | lo == ((((dp / 16) as u8 ^ d) as int) * 16 + lo) as u8,
{
}

fn should_dec_rp(instr: u32) -> (r: bool)
    ensures
        r == instr_rp_dec(instr),
{
    instr & 0x100 != 0
}

fn imm_value(instr: u32) -> (r: u16)
    ensures
        r == instr_imm(instr),
{
    proof {
        lemma_instr_fields(instr);
    }
    ((instr & 0x3F_FFC0) >> 6) as u16
}

fn jump_condition(instr: u32) -> (r: u32)
    ensures
        r == instr_brch(instr),
        r < 0x200,
{
    proof {
        lemma_instr_fields(instr);
    }
    (instr & 0x3F_E000) >> 13
}

fn jump_destination(instr: u32) -> (r: u16)
    ensures
        r == instr_na(instr),
        r < 0x800,
{
    proof {
        lemma_instr_fields(instr);
    }
    ((instr & 0x1FFC) >> 2) as u16
}

fn src_field(instr: u32) -> (r: u32)
    ensures
        r == instr_src(instr),
        r < 16,
{
    proof {
        lemma_instr_fields(instr);
    }
    (instr & 0xF0) >> 4
}

fn dst_field(instr: u32) -> (r: u32)
    ensures
        r == instr_dst(instr),
        r < 16,
{
    proof {
        lemma_instr_fields(instr);
    }
    instr & 0xF
}

// ---------------------------------------------------------------------------
// The processor.
// ---------------------------------------------------------------------------

/// The abstract state of the DSP: its registers and memories.
#[verifier::ext_equal]
pub struct DSPView {
    pub dp: u8,
    pub rp: u16,
    /// Byte offset in program ROM of the next instruction.
    pub pc: u16,
    /// Saved program counters, a ring of four.
    pub stack: Seq<u16>,
    pub sp: u8,
    pub k: u16,
    pub l: u16,
    pub m: u32,
    pub acc_a: u16,
    pub acc_b: u16,
    pub flag_a: AccFlags,
    pub flag_b: AccFlags,
    pub tr: u16,
    pub trb: u16,
    pub sr: u16,
    pub dr: u16,
    pub prog_rom: Seq<u8>,
    pub data_rom: Seq<u8>,
    pub ram: Seq<u8>,
    /// DSP cycles owed but not yet run, scaled by the master clock rate:
    /// each master cycle adds `DSP_CLOCK_RATE`, each instruction run takes
    /// `MASTER_HZ`.
    pub cycle_fill: u64,
}

pub struct DSP {
    dp: u8,
    rp: u16,
    pc: u16,
    stack: Vec<u16>,
    sp: u8,
    k: u16,
    l: u16,
    m: u32,
    acc_a: u16,
    acc_b: u16,
    flag_a: AccFlags,
    flag_b: AccFlags,
    tr: u16,
    trb: u16,
    sr: u16,
    dr: u16,
    prog_rom: Vec<u8>,
    data_rom: Vec<u8>,
    ram: Vec<u8>,
    cycle_fill: u64,
}

/// Well-formedness of a DSP state: memory sizes, a program counter (and
/// saved counters) at the start of one of the 2048 three-byte
/// instructions, 2-bit stack pointer, 10-bit ROM pointer.
pub open spec fn dsp_wf(v: DSPView) -> bool {
    &&& v.prog_rom.len() == PROG_ROM_SIZE
    &&& v.data_rom.len() == DATA_ROM_SIZE
    &&& v.ram.len() == DATA_RAM_SIZE
    &&& v.stack.len() == 4
    &&& v.pc < PROG_ROM_SIZE
    &&& v.pc % 3 == 0
    &&& forall|i: int| 0 <= i < 4 ==> #[trigger] v.stack[i] < PROG_ROM_SIZE && v.stack[i] % 3 == 0
    &&& v.sp < 4
    &&& v.rp < 0x400
    &&& v.cycle_fill <= MASTER_HZ
}

// ----- Spec model of memory and bus access -----

pub open spec fn ram_word(v: DSPView, addr: u8) -> u16 {
    (v.ram[addr * 2 + 1] * 256 + v.ram[addr * 2]) as u16
}

pub open spec fn rom_word(v: DSPView) -> u16 {
    (v.data_rom[v.rp * 2 + 1] * 256 + v.data_rom[v.rp * 2]) as u16
}

pub open spec fn store_ram_spec(v: DSPView, data: u16) -> DSPView {
    DSPView {
        ram: v.ram.update(v.dp * 2, (data % 256) as u8).update(v.dp * 2 + 1, (data / 256) as u8),
        ..v
    }
}

pub open spec fn sr_has(sr: u16, bit: u16) -> bool {
    sr & bit != 0
}

/// Reading DR from the internal bus: unless `nf`, RQM is raised. In 8-bit
/// mode only the low byte is seen.
pub open spec fn load_dr_spec(v: DSPView, nf: bool) -> (u16, DSPView) {
    let v2 = if !nf { DSPView { sr: v.sr | SR_RQM, ..v } } else { v };
    (if sr_has(v2.sr, SR_DRC) { v2.dr % 256 } else { v2.dr } as u16, v2)
}

/// Writing DR from the internal bus raises RQM.
pub open spec fn store_dr_spec(v: DSPView, data: u16) -> DSPView {
    let sr = v.sr | SR_RQM;
    DSPView { sr: sr, dr: if sr_has(sr, SR_DRC) { data % 256 } else { data } as u16, ..v }
}

/// Writing SR keeps RQM and DRS and drops the bits that do not exist.
pub open spec fn store_sr_spec(v: DSPView, data: u16) -> DSPView {
    DSPView { sr: (data & (SR_VALID & !(SR_RQM | SR_DRS))) | (v.sr & (SR_RQM | SR_DRS)), ..v }
}

/// The value put on the internal data bus by source `src`, and the state
/// after reading it.
#[verifier::opaque]
pub open spec fn load_idb_spec(v: DSPView, src: u32) -> (u16, DSPView) {
    if src == 0 {
        (v.trb, v)
    } else if src == 1 {
        (v.acc_a, v)
    } else if src == 2 {
        (v.acc_b, v)
    } else if src == 3 {
        (v.tr, v)
    } else if src == 4 {
        (v.dp as u16, v)
    } else if src == 5 {
        (v.rp, v)
    } else if src == 6 {
        (rom_word(v), v)
    } else if src == 7 {
        (0, v)
    } else if src == 8 {
        load_dr_spec(v, false)
    } else if src == 9 {
        load_dr_spec(v, true)
    } else if src == 10 {
        (v.sr, v)
    } else if src == 11 || src == 12 {
        (0, v)
    } else if src == 13 {
        (v.k, v)
    } else if src == 14 {
        (v.l, v)
    } else {
        (ram_word(v, v.dp), v)
    }
}

/// The state after writing `data` to destination `dst` of the internal
/// data bus, and which accumulator was written.
#[verifier::opaque]
pub open spec fn store_idb_spec(v: DSPView, dst: u32, data: u16) -> (DSPView, MovedToAcc) {
    if dst == 1 {
        (DSPView { acc_a: data, ..v }, MovedToAcc::AccA)
    } else if dst == 2 {
        (DSPView { acc_b: data, ..v }, MovedToAcc::AccB)
    } else {
        (
            if dst == 3 {
                DSPView { tr: data, ..v }
            } else if dst == 4 {
                DSPView { dp: (data % 256) as u8, ..v }
            } else if dst == 5 {
                DSPView { rp: (data % 0x400) as u16, ..v }
            } else if dst == 6 {
                store_dr_spec(v, data)
            } else if dst == 7 {
                store_sr_spec(v, data)
            } else if dst == 10 {
                DSPView { k: data, ..v }
            } else if dst == 11 {
                DSPView { k: data, l: rom_word(v), ..v }
            } else if dst == 12 {
                DSPView { l: data, k: ram_word(v, v.dp | 0x40), ..v }
            } else if dst == 13 {
                DSPView { l: data, ..v }
            } else if dst == 14 {
                DSPView { trb: data, ..v }
            } else if dst == 15 {
                store_ram_spec(v, data)
            } else {
                v
            },
            MovedToAcc::No,
        )
    }
}

// ----- Spec model of the ALU -----

pub open spec fn acc(v: DSPView, b: bool) -> u16 {
    if b { v.acc_b } else { v.acc_a }
}

pub open spec fn flags(v: DSPView, b: bool) -> AccFlags {
    if b { v.flag_b } else { v.flag_a }
}

/// Carry of the other accumulator, used as carry-in by ADC, SBB and RCL.
pub open spec fn other_carry(v: DSPView, b: bool) -> int {
    if flags(v, !b).c { 1 } else { 0 }
}

pub open spec fn with_acc(v: DSPView, b: bool, a: u16, f: AccFlags) -> DSPView {
    if b { DSPView { acc_b: a, flag_b: f, ..v } } else { DSPView { acc_a: a, flag_a: f, ..v } }
}

/// Addition of `p` and a carry-in to an accumulator.
pub open spec fn add_spec(v: DSPView, b: bool, p: u16, c: int) -> DSPView {
    let a = acc(v, b);
    let r = ((a + p + c) % 0x10000) as u16;
    let f = AccFlags { c: a + p + c > 0xFFFF, ..flags_sz(flags(v, b), r) };
    with_acc(v, b, r, flags_ovf(f, out_of_i16(signed16(a) + signed16(p) + c)))
}

/// Subtraction of `p` and a borrow from an accumulator. The carry flag is
/// set when the signed difference is negative.
pub open spec fn sub_spec(v: DSPView, b: bool, p: u16, c: int) -> DSPView {
    let a = acc(v, b);
    let d = signed16(a) - signed16(p) - c;
    let r = (d % 0x10000) as u16;
    let f = AccFlags { c: d < 0, ..flags_sz(flags(v, b), r) };
    with_acc(v, b, r, flags_ovf(f, out_of_i16(d)))
}

pub open spec fn logic_spec(v: DSPView, b: bool, r: u16) -> DSPView {
    with_acc(v, b, r, flags_logic(flags(v, b), r))
}

/// The effect of ALU opcode `op` on accumulator `b` with operand `p`.
#[verifier::opaque]
pub open spec fn alu_op_spec(v: DSPView, op: u32, b: bool, p: u16) -> DSPView {
    let a = acc(v, b);
    if op == 0 {
        v
    } else if op == 1 {
        logic_spec(v, b, a | p)
    } else if op == 2 {
        logic_spec(v, b, a & p)
    } else if op == 3 {
        logic_spec(v, b, a ^ p)
    } else if op == 4 {
        sub_spec(v, b, p, 0)
    } else if op == 5 {
        add_spec(v, b, p, 0)
    } else if op == 6 {
        sub_spec(v, b, p, other_carry(v, b))
    } else if op == 7 {
        add_spec(v, b, p, other_carry(v, b))
    } else if op == 8 {
        sub_spec(v, b, 1, 0)
    } else if op == 9 {
        add_spec(v, b, 1, 0)
    } else if op == 10 {
        logic_spec(v, b, (0xFFFF - a) as u16)
    } else if op == 11 {
        // Arithmetic shift right.
        let r = (a / 2 + if a >= 0x8000 { 0x8000int } else { 0 }) as u16;
        with_acc(v, b, r, flags_shift(flags(v, b), r, a % 2 == 1))
    } else if op == 12 {
        // Rotate left through the other accumulator's carry.
        let r = ((a * 2) % 0x10000 + other_carry(v, b)) as u16;
        with_acc(v, b, r, flags_shift(flags(v, b), r, a >= 0x8000))
    } else if op == 13 {
        logic_spec(v, b, ((a * 4) % 0x10000 + 3) as u16)
    } else if op == 14 {
        logic_spec(v, b, ((a * 16) % 0x10000 + 15) as u16)
    } else {
        logic_spec(v, b, ((a % 256) * 256 + a / 256) as u16)
    }
}

/// The product register value `k * l * 2`, modulo 2^32.
pub open spec fn mul_spec(v: DSPView) -> u32 {
    ((v.k * v.l * 2) % 0x1_0000_0000) as u32
}

// ----- Spec model of control flow -----

pub open spec fn call_spec(v: DSPView, dest: u16) -> DSPView {
    DSPView {
        stack: v.stack.update(v.sp as int, v.pc),
        sp: ((v.sp + 1) % 4) as u8,
        pc: (dest * 3) as u16,
        ..v
    }
}

pub open spec fn ret_spec(v: DSPView) -> DSPView {
    let sp = ((v.sp + 3) % 4) as u8;
    DSPView { sp: sp, pc: v.stack[sp as int], ..v }
}

/// A subroutine call followed by a return comes back to the instruction
/// after the call: the program counter and the stack pointer are restored,
/// and the only other change is the stack slot that the call wrote.
pub proof fn lemma_call_ret(v: DSPView, dest: u16)
    requires
        dsp_wf(v),
    ensures
        ret_spec(call_spec(v, dest)).pc == v.pc,
        ret_spec(call_spec(v, dest)).sp == v.sp,
        ret_spec(call_spec(v, dest)) == (DSPView { stack: v.stack.update(v.sp as int, v.pc), ..v }),
{
}

pub open spec fn jump_spec(v: DSPView, i: u32) -> DSPView {
    DSPView { pc: (instr_na(i) * 3) as u16, ..v }
}

/// The branch conditions that use the serial interface, which is not
/// emulated: executing one of them is a fault.
pub open spec fn jp_faults(v: DSPView, i: u32) -> bool {
    let cond = instr_brch(i);
    (cond == 0x0B4 && v.dp % 16 == 0xF) || cond == 0x0B6 || cond == 0x0B8 || cond == 0x0BA
}

/// Whether a conditional jump with condition `cond` is taken.
pub open spec fn jp_taken(v: DSPView, cond: u32) -> bool {
    ||| cond == 0x100
    ||| (cond == 0x080 && !v.flag_a.c)
    ||| (cond == 0x082 && v.flag_a.c)
    ||| (cond == 0x084 && !v.flag_b.c)
    ||| (cond == 0x086 && v.flag_b.c)
    ||| (cond == 0x088 && !v.flag_a.z)
    ||| (cond == 0x08A && v.flag_a.z)
    ||| (cond == 0x08C && !v.flag_b.z)
    ||| (cond == 0x08E && v.flag_b.z)
    ||| (cond == 0x090 && !v.flag_a.ov0)
    ||| (cond == 0x092 && v.flag_a.ov0)
    ||| (cond == 0x094 && !v.flag_b.ov0)
    ||| (cond == 0x096 && v.flag_b.ov0)
    ||| (cond == 0x098 && !v.flag_a.ov1)
    ||| (cond == 0x09A && v.flag_a.ov1)
    ||| (cond == 0x09C && !v.flag_b.ov1)
    ||| (cond == 0x09E && v.flag_b.ov1)
    ||| (cond == 0x0A0 && !v.flag_a.s0)
    ||| (cond == 0x0A2 && v.flag_a.s0)
    ||| (cond == 0x0A4 && !v.flag_b.s0)
    ||| (cond == 0x0A6 && v.flag_b.s0)
    ||| (cond == 0x0A8 && !v.flag_a.s1)
    ||| (cond == 0x0AA && v.flag_a.s1)
    ||| (cond == 0x0AC && !v.flag_b.s1)
    ||| (cond == 0x0AE && v.flag_b.s1)
    ||| (cond == 0x0B1 && v.dp % 16 == 0)
    ||| (cond == 0x0B2 && v.dp % 16 != 0)
    ||| (cond == 0x0B3 && v.dp % 16 == 0xF)
    ||| (cond == 0x0B4 && v.dp % 16 != 0xF)
    ||| (cond == 0x0BC && !sr_has(v.sr, SR_RQM))
    ||| (cond == 0x0BE && sr_has(v.sr, SR_RQM))
}

/// A jump instruction: call, conditional or unconditional jump, or no-op.
pub open spec fn jp_spec(v: DSPView, i: u32) -> DSPView {
    if instr_brch(i) == 0x140 {
        call_spec(v, instr_na(i) as u16)
    } else if jp_taken(v, instr_brch(i)) {
        jump_spec(v, i)
    } else {
        v
    }
}

/// A jump instruction word at the program counter, with condition `cond`
/// (bits 21-13) and destination instruction `dest` (bits 12-2): JMP always
/// jumps; each conditional jump tests one flag of accumulator A or B (carry,
/// zero, overflow 0 and 1, sign 0 and 1), the low nybble of DP, or the
/// host request bit, jumping to instruction `dest` when it holds and
/// otherwise going on with the next instruction; a CALL pushes the next
/// instruction; undefined conditions do nothing. Nothing else changes.
#[verifier::rlimit(100)]
pub proof fn lemma_jump_instruction(v: DSPView, cond: u32, dest: u32, low: u32)
    requires
        dsp_wf(v),
        cond < 0x200,
        dest < 0x800,
        low < 4,
        v.prog_rom[v.pc + 2] * 65536 + v.prog_rom[v.pc + 1] * 256 + v.prog_rom[v.pc as int] == 0x80_0000 + cond * 0x2000 + dest * 4 + low,
        !(cond == 0x0B4 && v.dp % 16 == 15),
        cond != 0x0B6 && cond != 0x0B8 && cond != 0x0BA,
    ensures
        cond == 0x100 ==> spec_step(v) == (DSPView { pc: (dest * 3) as u16, ..v }),
        cond == 0x140 ==> spec_step(v) == (DSPView {
            stack: v.stack.update(v.sp as int, ((v.pc + 3) % 6144) as u16),
            sp: ((v.sp + 1) % 4) as u8,
            pc: (dest * 3) as u16,
            ..v
        }),
        cond == 0x080 && (!v.flag_a.c) ==> spec_step(v) == (DSPView { pc: (dest * 3) as u16, ..v }),
        cond == 0x080 && !(!v.flag_a.c) ==> spec_step(v) == (DSPView { pc: ((v.pc + 3) % 6144) as u16, ..v }),
        cond == 0x082 && (v.flag_a.c) ==> spec_step(v) == (DSPView { pc: (dest * 3) as u16, ..v }),
        cond == 0x082 && !(v.flag_a.c) ==> spec_step(v) == (DSPView { pc: ((v.pc + 3) % 6144) as u16, ..v }),
        cond == 0x084 && (!v.flag_b.c) ==> spec_step(v) == (DSPView { pc: (dest * 3) as u16, ..v }),
        cond == 0x084 && !(!v.flag_b.c) ==> spec_step(v) == (DSPView { pc: ((v.pc + 3) % 6144) as u16, ..v }),
        cond == 0x086 && (v.flag_b.c) ==> spec_step(v) == (DSPView { pc: (dest * 3) as u16, ..v }),
        cond == 0x086 && !(v.flag_b.c) ==> spec_step(v) == (DSPView { pc: ((v.pc + 3) % 6144) as u16, ..v }),
        cond == 0x088 && (!v.flag_a.z) ==> spec_step(v) == (DSPView { pc: (dest * 3) as u16, ..v }),
        cond == 0x088 && !(!v.flag_a.z) ==> spec_step(v) == (DSPView { pc: ((v.pc + 3) % 6144) as u16, ..v }),
        cond == 0x08A && (v.flag_a.z) ==> spec_step(v) == (DSPView { pc: (dest * 3) as u16, ..v }),
        cond == 0x08A && !(v.flag_a.z) ==> spec_step(v) == (DSPView { pc: ((v.pc + 3) % 6144) as u16, ..v }),
        cond == 0x08C && (!v.flag_b.z) ==> spec_step(v) == (DSPView { pc: (dest * 3) as u16, ..v }),
        cond == 0x08C && !(!v.flag_b.z) ==> spec_step(v) == (DSPView { pc: ((v.pc + 3) % 6144) as u16, ..v }),
        cond == 0x08E && (v.flag_b.z) ==> spec_step(v) == (DSPView { pc: (dest * 3) as u16, ..v }),
        cond == 0x08E && !(v.flag_b.z) ==> spec_step(v) == (DSPView { pc: ((v.pc + 3) % 6144) as u16, ..v }),
        cond == 0x090 && (!v.flag_a.ov0) ==> spec_step(v) == (DSPView { pc: (dest * 3) as u16, ..v }),
        cond == 0x090 && !(!v.flag_a.ov0) ==> spec_step(v) == (DSPView { pc: ((v.pc + 3) % 6144) as u16, ..v }),
        cond == 0x092 && (v.flag_a.ov0) ==> spec_step(v) == (DSPView { pc: (dest * 3) as u16, ..v }),
        cond == 0x092 && !(v.flag_a.ov0) ==> spec_step(v) == (DSPView { pc: ((v.pc + 3) % 6144) as u16, ..v }),
        cond == 0x094 && (!v.flag_b.ov0) ==> spec_step(v) == (DSPView { pc: (dest * 3) as u16, ..v }),
        cond == 0x094 && !(!v.flag_b.ov0) ==> spec_step(v) == (DSPView { pc: ((v.pc + 3) % 6144) as u16, ..v }),
        cond == 0x096 && (v.flag_b.ov0) ==> spec_step(v) == (DSPView { pc: (dest * 3) as u16, ..v }),
        cond == 0x096 && !(v.flag_b.ov0) ==> spec_step(v) == (DSPView { pc: ((v.pc + 3) % 6144) as u16, ..v }),
        cond == 0x098 && (!v.flag_a.ov1) ==> spec_step(v) == (DSPView { pc: (dest * 3) as u16, ..v }),
        cond == 0x098 && !(!v.flag_a.ov1) ==> spec_step(v) == (DSPView { pc: ((v.pc + 3) % 6144) as u16, ..v }),
        cond == 0x09A && (v.flag_a.ov1) ==> spec_step(v) == (DSPView { pc: (dest * 3) as u16, ..v }),
        cond == 0x09A && !(v.flag_a.ov1) ==> spec_step(v) == (DSPView { pc: ((v.pc + 3) % 6144) as u16, ..v }),
        cond == 0x09C && (!v.flag_b.ov1) ==> spec_step(v) == (DSPView { pc: (dest * 3) as u16, ..v }),
        cond == 0x09C && !(!v.flag_b.ov1) ==> spec_step(v) == (DSPView { pc: ((v.pc + 3) % 6144) as u16, ..v }),
        cond == 0x09E && (v.flag_b.ov1) ==> spec_step(v) == (DSPView { pc: (dest * 3) as u16, ..v }),
        cond == 0x09E && !(v.flag_b.ov1) ==> spec_step(v) == (DSPView { pc: ((v.pc + 3) % 6144) as u16, ..v }),
        cond == 0x0A0 && (!v.flag_a.s0) ==> spec_step(v) == (DSPView { pc: (dest * 3) as u16, ..v }),
        cond == 0x0A0 && !(!v.flag_a.s0) ==> spec_step(v) == (DSPView { pc: ((v.pc + 3) % 6144) as u16, ..v }),
        cond == 0x0A2 && (v.flag_a.s0) ==> spec_step(v) == (DSPView { pc: (dest * 3) as u16, ..v }),
        cond == 0x0A2 && !(v.flag_a.s0) ==> spec_step(v) == (DSPView { pc: ((v.pc + 3) % 6144) as u16, ..v }),
        cond == 0x0A4 && (!v.flag_b.s0) ==> spec_step(v) == (DSPView { pc: (dest * 3) as u16, ..v }),
        cond == 0x0A4 && !(!v.flag_b.s0) ==> spec_step(v) == (DSPView { pc: ((v.pc + 3) % 6144) as u16, ..v }),
        cond == 0x0A6 && (v.flag_b.s0) ==> spec_step(v) == (DSPView { pc: (dest * 3) as u16, ..v }),
        cond == 0x0A6 && !(v.flag_b.s0) ==> spec_step(v) == (DSPView { pc: ((v.pc + 3) % 6144) as u16, ..v }),
        cond == 0x0A8 && (!v.flag_a.s1) ==> spec_step(v) == (DSPView { pc: (dest * 3) as u16, ..v }),
        cond == 0x0A8 && !(!v.flag_a.s1) ==> spec_step(v) == (DSPView { pc: ((v.pc + 3) % 6144) as u16, ..v }),
        cond == 0x0AA && (v.flag_a.s1) ==> spec_step(v) == (DSPView { pc: (dest * 3) as u16, ..v }),
        cond == 0x0AA && !(v.flag_a.s1) ==> spec_step(v) == (DSPView { pc: ((v.pc + 3) % 6144) as u16, ..v }),
        cond == 0x0AC && (!v.flag_b.s1) ==> spec_step(v) == (DSPView { pc: (dest * 3) as u16, ..v }),
        cond == 0x0AC && !(!v.flag_b.s1) ==> spec_step(v) == (DSPView { pc: ((v.pc + 3) % 6144) as u16, ..v }),
        cond == 0x0AE && (v.flag_b.s1) ==> spec_step(v) == (DSPView { pc: (dest * 3) as u16, ..v }),
        cond == 0x0AE && !(v.flag_b.s1) ==> spec_step(v) == (DSPView { pc: ((v.pc + 3) % 6144) as u16, ..v }),
        cond == 0x0B1 && (v.dp % 16 == 0) ==> spec_step(v) == (DSPView { pc: (dest * 3) as u16, ..v }),
        cond == 0x0B1 && !(v.dp % 16 == 0) ==> spec_step(v) == (DSPView { pc: ((v.pc + 3) % 6144) as u16, ..v }),
        cond == 0x0B2 && (v.dp % 16 != 0) ==> spec_step(v) == (DSPView { pc: (dest * 3) as u16, ..v }),
        cond == 0x0B2 && !(v.dp % 16 != 0) ==> spec_step(v) == (DSPView { pc: ((v.pc + 3) % 6144) as u16, ..v }),
        cond == 0x0B3 && (v.dp % 16 == 15) ==> spec_step(v) == (DSPView { pc: (dest * 3) as u16, ..v }),
        cond == 0x0B3 && !(v.dp % 16 == 15) ==> spec_step(v) == (DSPView { pc: ((v.pc + 3) % 6144) as u16, ..v }),
        cond == 0x0B4 && (v.dp % 16 != 15) ==> spec_step(v) == (DSPView { pc: (dest * 3) as u16, ..v }),
        cond == 0x0B4 && !(v.dp % 16 != 15) ==> spec_step(v) == (DSPView { pc: ((v.pc + 3) % 6144) as u16, ..v }),
        cond == 0x0BC && (v.sr & 0x8000 == 0) ==> spec_step(v) == (DSPView { pc: (dest * 3) as u16, ..v }),
        cond == 0x0BC && !(v.sr & 0x8000 == 0) ==> spec_step(v) == (DSPView { pc: ((v.pc + 3) % 6144) as u16, ..v }),
        cond == 0x0BE && (v.sr & 0x8000 != 0) ==> spec_step(v) == (DSPView { pc: (dest * 3) as u16, ..v }),
        cond == 0x0BE && !(v.sr & 0x8000 != 0) ==> spec_step(v) == (DSPView { pc: ((v.pc + 3) % 6144) as u16, ..v }),
        cond != 0x080 && cond != 0x082 && cond != 0x084 && cond != 0x086 && cond != 0x088 && cond != 0x08A && cond != 0x08C && cond != 0x08E && cond != 0x090 && cond != 0x092 && cond != 0x094 && cond != 0x096 && cond != 0x098 && cond != 0x09A && cond != 0x09C && cond != 0x09E && cond != 0x0A0 && cond != 0x0A2 && cond != 0x0A4 && cond != 0x0A6 && cond != 0x0A8 && cond != 0x0AA && cond != 0x0AC && cond != 0x0AE && cond != 0x0B1 && cond != 0x0B2 && cond != 0x0B3 && cond != 0x0B4 && cond != 0x0B6 && cond != 0x0B8 && cond != 0x0BA && cond != 0x0BC && cond != 0x0BE && cond != 0x100 && cond != 0x140 ==> spec_step(v) == (DSPView { pc: ((v.pc + 3) % 6144) as u16, ..v }),
{
    let i = (0x80_0000 + cond * 0x2000 + dest * 4 + low) as u32;
    lemma_jump_word_fields(i, cond, dest, low);
    let fall = DSPView { pc: ((v.pc + 3) % 6144) as u16, ..v };
    assert(fetch_spec(v) == (i, ((v.pc + 3) % 6144) as u16));
    assert(spec_step(v) == jp_spec(fall, i));
    assert(instr_brch(i) == cond && instr_na(i) == dest);
}

proof fn lemma_jump_word_fields(i: u32, cond: u32, dest: u32, low: u32)
    by (bit_vector)
    requires
        cond < 0x200,
        dest < 0x800,
        low < 4,
        i == 0x80_0000 + cond * 0x2000 + dest * 4 + low,
    ensures
        i & 0x80_0000 != 0,
        i & 0x40_0000 == 0,
        (i & 0x3F_E000) >> 13 == cond,
        (i & 0x1FFC) >> 2 == dest,
{
}

/// The P operand of an ALU operation: a RAM word, the bus value, or the
/// high or low half of the product register.
pub open spec fn alu_operand(v: DSPView, i: u32, src_data: u16) -> u16 {
    if instr_p(i) == 0 {
        ram_word(v, v.dp)
    } else if instr_p(i) == 1 {
        src_data
    } else if instr_p(i) == 2 {
        (v.m / 0x10000) as u16
    } else {
        (v.m % 0x10000) as u16
    }
}

/// An ALU instruction: move on the internal bus, the ALU operation,
/// pointer updates, the multiplier, and an optional return.
pub open spec fn alu_spec(v: DSPView, i: u32) -> DSPView {
    let (src_data, v1) = load_idb_spec(v, instr_src(i));
    let (v2, moved) = store_idb_spec(v1, instr_dst(i), src_data);
    let new_m = mul_spec(v2);
    let v3 = if alu_runs(i, moved) {
        alu_op_spec(v2, instr_opcode(i), instr_acc_b(i), alu_operand(v2, i, src_data))
    } else {
        v2
    };
    alu_finish_spec(v3, i, mul_spec(v2))
}

/// The end of an ALU instruction: data pointer and ROM pointer updates,
/// the new product, and the optional return.
pub open spec fn alu_finish_spec(v: DSPView, i: u32, new_m: u32) -> DSPView {
    let v4 = DSPView {
        dp: dp_adjust_spec(i, v.dp),
        rp: if instr_rp_dec(i) { ((v.rp + 0x3FF) % 0x400) as u16 } else { v.rp },
        m: new_m,
        ..v
    };
    if instr_rt(i) { ret_spec(v4) } else { v4 }
}

/// The ALU leaves everything but the accumulators and their flags alone.
proof fn lemma_alu_op_frame(v: DSPView, op: u32, b: bool, p: u16)
    ensures
        ({
            let r = alu_op_spec(v, op, b, p);
            r == (DSPView { acc_a: r.acc_a, acc_b: r.acc_b, flag_a: r.flag_a, flag_b: r.flag_b, ..v })
        }),
{
    reveal(alu_op_spec);
}

/// A load-immediate instruction.
pub open spec fn ld_spec(v: DSPView, i: u32) -> DSPView {
    let v1 = store_idb_spec(v, instr_dst(i), instr_imm(i) as u16).0;
    DSPView { m: mul_spec(v1), ..v1 }
}

/// The instruction word at the program counter, its three bytes low
/// first, and the program counter of the next instruction: the counter
/// steps by one instruction, modulo the 2048 instructions of program ROM.
pub open spec fn fetch_spec(v: DSPView) -> (u32, u16) {
    let pc = v.pc as int;
    (
        (v.prog_rom[pc + 2] * 65536 + v.prog_rom[pc + 1] * 256 + v.prog_rom[pc]) as u32,
        ((pc + 3) % (PROG_ROM_SIZE as int)) as u16,
    )
}

/// Whether executing the next instruction faults.
pub open spec fn step_faults(v: DSPView) -> bool {
    let (i, pc) = fetch_spec(v);
    !instr_is_alu(i) && instr_is_jp(i) && jp_faults(DSPView { pc: pc, ..v }, i)
}

/// One instruction of the DSP.
pub open spec fn spec_step(v: DSPView) -> DSPView {
    let (i, pc) = fetch_spec(v);
    let v1 = DSPView { pc: pc, ..v };
    if instr_is_alu(i) {
        alu_spec(v1, i)
    } else if instr_is_jp(i) {
        jp_spec(v1, i)
    } else {
        ld_spec(v1, i)
    }
}

impl View for DSP {
    type V = DSPView;

    closed spec fn view(&self) -> DSPView {
        DSPView {
            dp: self.dp,
            rp: self.rp,
            pc: self.pc,
            stack: self.stack@,
            sp: self.sp,
            k: self.k,
            l: self.l,
            m: self.m,
            acc_a: self.acc_a,
            acc_b: self.acc_b,
            flag_a: self.flag_a,
            flag_b: self.flag_b,
            tr: self.tr,
            trb: self.trb,
            sr: self.sr,
            dr: self.dr,
            prog_rom: self.prog_rom@,
            data_rom: self.data_rom@,
            ram: self.ram@,
            cycle_fill: self.cycle_fill,
        }
    }
}

/// The state after power-on with the given ROM image: program ROM first,
/// then data ROM.
pub open spec fn new_spec(rom: Seq<u8>) -> DSPView {
    DSPView {
        dp: 0,
        rp: 0x3FF,
        pc: 0,
        stack: seq![0u16, 0u16, 0u16, 0u16],
        sp: 0,
        k: 0,
        l: 0,
        m: 0,
        acc_a: 0,
        acc_b: 0,
        flag_a: flags_clear(),
        flag_b: flags_clear(),
        tr: 0,
        trb: 0,
        sr: 0,
        dr: 0,
        prog_rom: rom.subrange(0, PROG_ROM_SIZE as int),
        data_rom: rom.subrange(PROG_ROM_SIZE as int, (PROG_ROM_SIZE + DATA_ROM_SIZE) as int),
        ram: Seq::new(DATA_RAM_SIZE as nat, |i: int| 0u8),
        cycle_fill: 0,
    }
}

/// Reading the data register from the host. In 8-bit mode the low byte is
/// read and RQM drops. In 16-bit mode the low byte is read first, then the
/// high byte (which drops RQM); DRS tracks which byte is next.
pub open spec fn read_dr_spec(v: DSPView) -> (u8, DSPView) {
    if sr_has(v.sr, SR_DRC) {
        ((v.dr % 256) as u8, DSPView { sr: v.sr & !SR_RQM, ..v })
    } else if !sr_has(v.sr, SR_DRS) {
        ((v.dr % 256) as u8, DSPView { sr: v.sr ^ SR_DRS, ..v })
    } else {
        ((v.dr / 256) as u8, DSPView { sr: (v.sr & !SR_RQM) ^ SR_DRS, ..v })
    }
}

/// Writing the data register from the host, byte by byte as for reading.
pub open spec fn write_dr_spec(v: DSPView, data: u8) -> DSPView {
    if sr_has(v.sr, SR_DRC) {
        DSPView { sr: v.sr & !SR_RQM, dr: ((v.dr / 256) * 256 + data) as u16, ..v }
    } else if !sr_has(v.sr, SR_DRS) {
        DSPView { sr: v.sr ^ SR_DRS, dr: ((v.dr / 256) * 256 + data) as u16, ..v }
    } else {
        DSPView { sr: (v.sr & !SR_RQM) ^ SR_DRS, dr: (data * 256 + v.dr % 256) as u16, ..v }
    }
}

/// The RST pin.
pub open spec fn reset_spec(v: DSPView) -> DSPView {
    DSPView { pc: 0, flag_a: flags_clear(), flag_b: flags_clear(), sr: 0, dr: 0, rp: 0x3FF, ..v }
}

/// The INT pin: a call to the interrupt vector when interrupts are enabled.
pub open spec fn int_spec(v: DSPView) -> DSPView {
    if sr_has(v.sr, SR_EI) { call_spec(v, 0x100) } else { v }
}

impl DSP {
    /// A DSP with the given ROM image: 6144 bytes of program ROM followed by
    /// 2048 bytes of data ROM.
    pub fn new(rom_data: &[u8]) -> (r: Self)
        requires
            rom_data@.len() >= PROG_ROM_SIZE + DATA_ROM_SIZE,
        ensures
            dsp_wf(r@),
            r@ == new_spec(rom_data@),
    {
        let mut prog_rom: Vec<u8> = Vec::new();
        let mut i: usize = 0;
        while i < PROG_ROM_SIZE
            invariant
                i <= PROG_ROM_SIZE,
                rom_data@.len() >= PROG_ROM_SIZE + DATA_ROM_SIZE,
                prog_rom@ == rom_data@.subrange(0, i as int),
            decreases PROG_ROM_SIZE - i,
        {
            prog_rom.push(rom_data[i]);
            i = i + 1;
        }
        let mut data_rom: Vec<u8> = Vec::new();
        let mut j: usize = 0;
        while j < DATA_ROM_SIZE
            invariant
                j <= DATA_ROM_SIZE,
                rom_data@.len() >= PROG_ROM_SIZE + DATA_ROM_SIZE,
                data_rom@ == rom_data@.subrange(PROG_ROM_SIZE as int, PROG_ROM_SIZE + j),
            decreases DATA_ROM_SIZE - j,
        {
            data_rom.push(rom_data[PROG_ROM_SIZE + j]);
            j = j + 1;
        }
        let ram: Vec<u8> = vec![0; DATA_RAM_SIZE];
        let stack: Vec<u16> = vec![0; 4];
        let r = DSP {
            dp: 0,
            rp: 0x3FF,
            pc: 0,
            stack: stack,
            sp: 0,
            k: 0,
            l: 0,
            m: 0,
            acc_a: 0,
            acc_b: 0,
            flag_a: AccFlags::new(),
            flag_b: AccFlags::new(),
            tr: 0,
            trb: 0,
            sr: 0,
            dr: 0,
            prog_rom: prog_rom,
            data_rom: data_rom,
            ram: ram,
            cycle_fill: 0,
        };
        assert(r@.ram =~= new_spec(rom_data@).ram);
        assert(r@.stack =~= new_spec(rom_data@).stack);
        r
    }

    /// Execute one instruction.
    pub fn step(&mut self)
        requires
            dsp_wf(old(self)@),
            !step_faults(old(self)@),
        ensures
            dsp_wf(final(self)@),
            final(self)@ == spec_step(old(self)@),
    {
        let instr = self.fetch_instr();
        if is_alu(instr) {
            self.alu_instr(instr);
        } else {
            if is_jp(instr) {
                self.jp_instr(instr);
            } else {
                self.ld_instr(instr);
            }
        }
    }

    /// Set the RST pin.
    pub fn trigger_reset(&mut self)
        requires
            dsp_wf(old(self)@),
        ensures
            dsp_wf(final(self)@),
            final(self)@ == reset_spec(old(self)@),
    {
        self.pc = 0;
        self.flag_a = AccFlags::new();
        self.flag_b = AccFlags::new();
        self.sr = 0;
        self.dr = 0;
        self.rp = 0x3FF;
    }

    /// Set the INT pin.
    pub fn trigger_int(&mut self)
        requires
            dsp_wf(old(self)@),
        ensures
            dsp_wf(final(self)@),
            final(self)@ == int_spec(old(self)@),
    {
        if self.sr & SR_EI != 0 {
            self.call(0x100);
        }
    }

    /// Read the data register (host side).
    pub fn read_dr(&mut self) -> (r: u8)
        requires
            dsp_wf(old(self)@),
        ensures
            dsp_wf(final(self)@),
            (r, final(self)@) == read_dr_spec(old(self)@),
    {
        if self.sr & SR_DRC != 0 {
            self.sr = self.sr & !SR_RQM;
            lo16(self.dr)
        } else {
            let data = if self.sr & SR_DRS == 0 {
                lo16(self.dr)
            } else {
                self.sr = self.sr & !SR_RQM;
                hi16(self.dr)
            };
            self.sr = self.sr ^ SR_DRS;
            data
        }
    }

    /// Write the data register (host side).
    pub fn write_dr(&mut self, data: u8)
        requires
            dsp_wf(old(self)@),
        ensures
            dsp_wf(final(self)@),
            final(self)@ == write_dr_spec(old(self)@, data),
    {
        if self.sr & SR_DRC != 0 {
            self.sr = self.sr & !SR_RQM;
            self.dr = set_lo16(self.dr, data);
        } else {
            self.dr = if self.sr & SR_DRS == 0 {
                set_lo16(self.dr, data)
            } else {
                self.sr = self.sr & !SR_RQM;
                set_hi16(self.dr, data)
            };
            self.sr = self.sr ^ SR_DRS;
        }
    }

    /// Read the status register (host side): its high byte.
    pub fn read_sr(&mut self) -> (r: u8)
        requires
            dsp_wf(old(self)@),
        ensures
            dsp_wf(final(self)@),
            r == old(self)@.sr / 256,
            final(self)@ == old(self)@,
    {
        hi16(self.sr)
    }

    /// Write the status register (host side): its high byte, keeping RQM
    /// and DRS.
    pub fn write_sr(&mut self, data: u8)
        requires
            dsp_wf(old(self)@),
        ensures
            dsp_wf(final(self)@),
            final(self)@ == store_sr_spec(old(self)@, (data * 256 + old(self)@.sr % 256) as u16),
    {
        let new_sr = set_hi16(self.sr, data);
        self.store_sr(new_sr);
    }
}

// Instruction execution.
impl DSP {
    fn alu_instr(&mut self, instr: u32)
        requires
            dsp_wf(old(self)@),
        ensures
            dsp_wf(final(self)@),
            final(self)@ == alu_spec(old(self)@, instr),
    {
        // Do move.
        let src_data = self.load_idb(instr);
        let acc_affected = self.store_idb(instr, src_data);
        // Do multiply.
        let new_m = self.product();
        let ghost v2 = self@;
        if should_do_alu_op(instr, acc_affected) {
            let p = self.alu_operand(instr, src_data);
            self.alu_dispatch(alu_opcode(instr), use_acc_b(instr), p);
        }
        self.alu_finish(instr, new_m);
    }

    fn alu_finish(&mut self, instr: u32, new_m: u32)
        requires
            dsp_wf(old(self)@),
        ensures
            dsp_wf(final(self)@),
            final(self)@ == alu_finish_spec(old(self)@, instr, new_m),
    {
        // Modify data pointers.
        self.dp = dp_adjust(instr, self.dp);
        if should_dec_rp(instr) {
            let dec: u16 = if self.rp == 0 {
                0xFFFF
            } else {
                self.rp - 1
            };
            proof {
                lemma_u16_low_masks(dec);
            }
            self.rp = dec & 0x3FF;
        }
        // Write back multiply result.
        self.m = new_m;
        if should_return(instr) {
            self.ret();
        }
    }

    fn alu_operand(&self, instr: u32, src_data: u16) -> (r: u16)
        requires
            dsp_wf(self@),
        ensures
            r == alu_operand(self@, instr, src_data),
    {
        let psel = p_select(instr);
        proof {
            lemma_u8_low_masks(self.dp);
        }
        if psel == 0 {
            self.load_ram(0)
        } else if psel == 1 {
            src_data
        } else if psel == 2 {
            hi32(self.m)
        } else {
            lo32(self.m)
        }
    }

    fn alu_dispatch(&mut self, op: u32, use_b: bool, p: u16)
        requires
            op < 16,
            dsp_wf(old(self)@),
        ensures
            dsp_wf(final(self)@),
            final(self)@ == alu_op_spec(old(self)@, op, use_b, p),
    {
        reveal(alu_op_spec);
        proof {
            lemma_alu_op_frame(self@, op, use_b, p);
        }
        if op == 0x0 {
        } else if op == 0x1 {
            self.or(use_b, p);
        } else if op == 0x2 {
            self.and(use_b, p);
        } else if op == 0x3 {
            self.xor(use_b, p);
        } else if op == 0x4 {
            self.sub(use_b, p);
        } else if op == 0x5 {
            self.add(use_b, p);
        } else if op == 0x6 {
            self.sbb(use_b, p);
        } else if op == 0x7 {
            self.adc(use_b, p);
        } else if op == 0x8 {
            self.sub(use_b, 1);
        } else if op == 0x9 {
            self.add(use_b, 1);
        } else if op == 0xA {
            self.not(use_b);
        } else if op == 0xB {
            self.sar(use_b);
        } else if op == 0xC {
            self.rcl(use_b);
        } else if op == 0xD {
            self.sll2(use_b);
        } else if op == 0xE {
            self.sll4(use_b);
        } else {
            self.xchg(use_b);
        }
    }

    fn jp_instr(&mut self, instr: u32)
        requires
            dsp_wf(old(self)@),
            !jp_faults(old(self)@, instr),
        ensures
            dsp_wf(final(self)@),
            final(self)@ == jp_spec(old(self)@, instr),
    {
        let cond = jump_condition(instr);
        let dp_lo = self.dp & 0xF;
        proof {
            lemma_u8_low_masks(self.dp);
            lemma_u16_low_masks(self.sr);
        }
        if cond == 0x140 {
            self.call(jump_destination(instr));
        } else if cond == 0x100
            || (cond == 0x080 && !self.flag_a.c)
            || (cond == 0x082 && self.flag_a.c)
            || (cond == 0x084 && !self.flag_b.c)
            || (cond == 0x086 && self.flag_b.c)
            || (cond == 0x088 && !self.flag_a.z)
            || (cond == 0x08A && self.flag_a.z)
            || (cond == 0x08C && !self.flag_b.z)
            || (cond == 0x08E && self.flag_b.z)
            || (cond == 0x090 && !self.flag_a.ov0)
            || (cond == 0x092 && self.flag_a.ov0)
            || (cond == 0x094 && !self.flag_b.ov0)
            || (cond == 0x096 && self.flag_b.ov0)
            || (cond == 0x098 && !self.flag_a.ov1)
            || (cond == 0x09A && self.flag_a.ov1)
            || (cond == 0x09C && !self.flag_b.ov1)
            || (cond == 0x09E && self.flag_b.ov1)
            || (cond == 0x0A0 && !self.flag_a.s0)
            || (cond == 0x0A2 && self.flag_a.s0)
            || (cond == 0x0A4 && !self.flag_b.s0)
            || (cond == 0x0A6 && self.flag_b.s0)
            || (cond == 0x0A8 && !self.flag_a.s1)
            || (cond == 0x0AA && self.flag_a.s1)
            || (cond == 0x0AC && !self.flag_b.s1)
            || (cond == 0x0AE && self.flag_b.s1)
            || (cond == 0x0B1 && dp_lo == 0x0)
            || (cond == 0x0B2 && dp_lo != 0x0)
            || (cond == 0x0B3 && dp_lo == 0xF)
            || (cond == 0x0B4 && dp_lo != 0xF)
            || (cond == 0x0BC && self.sr & SR_RQM == 0)
            || (cond == 0x0BE && self.sr & SR_RQM != 0) {
            self.jump(instr);
        }
    }

    fn ld_instr(&mut self, instr: u32)
        requires
            dsp_wf(old(self)@),
        ensures
            dsp_wf(final(self)@),
            final(self)@ == ld_spec(old(self)@, instr),
    {
        let imm = imm_value(instr);
        self.store_idb(instr, imm);
        self.m = self.product();
    }

    fn product(&self) -> (r: u32)
        ensures
            r == mul_spec(self@),
    {
        let k = self.k as u64;
        let l = self.l as u64;
        assert(k * l <= 0xFFFF * 0xFFFF) by (nonlinear_arith)
            requires
                k <= 0xFFFF,
                l <= 0xFFFF,
        ;
        ((k * l * 2) % 0x1_0000_0000) as u32
    }
}

// ALU instructions.
impl DSP {
    fn or(&mut self, use_acc_b: bool, p: u16)
        ensures
            final(self)@ == logic_spec(old(self)@, use_acc_b, acc(old(self)@, use_acc_b) | p),
    {
        if use_acc_b {
            self.acc_b = self.acc_b | p;
            self.flag_b.set_sz(self.acc_b);
            self.flag_b.clear_ovf_and_carry();
        } else {
            self.acc_a = self.acc_a | p;
            self.flag_a.set_sz(self.acc_a);
            self.flag_a.clear_ovf_and_carry();
        }
    }

    fn and(&mut self, use_acc_b: bool, p: u16)
        ensures
            final(self)@ == logic_spec(old(self)@, use_acc_b, acc(old(self)@, use_acc_b) & p),
    {
        if use_acc_b {
            self.acc_b = self.acc_b & p;
            self.flag_b.set_sz(self.acc_b);
            self.flag_b.clear_ovf_and_carry();
        } else {
            self.acc_a = self.acc_a & p;
            self.flag_a.set_sz(self.acc_a);
            self.flag_a.clear_ovf_and_carry();
        }
    }

    fn xor(&mut self, use_acc_b: bool, p: u16)
        ensures
            final(self)@ == logic_spec(old(self)@, use_acc_b, acc(old(self)@, use_acc_b) ^ p),
    {
        if use_acc_b {
            self.acc_b = self.acc_b ^ p;
            self.flag_b.set_sz(self.acc_b);
            self.flag_b.clear_ovf_and_carry();
        } else {
            self.acc_a = self.acc_a ^ p;
            self.flag_a.set_sz(self.acc_a);
            self.flag_a.clear_ovf_and_carry();
        }
    }

    fn not(&mut self, use_acc_b: bool)
        ensures
            forall|p: u16| final(self)@ == #[trigger] alu_op_spec(old(self)@, 10, use_acc_b, p),
    {
        reveal(alu_op_spec);
        if use_acc_b {
            self.acc_b = 0xFFFF - self.acc_b;
            self.flag_b.set_sz(self.acc_b);
            self.flag_b.clear_ovf_and_carry();
        } else {
            self.acc_a = 0xFFFF - self.acc_a;
            self.flag_a.set_sz(self.acc_a);
            self.flag_a.clear_ovf_and_carry();
        }
    }

    fn add(&mut self, use_acc_b: bool, p: u16)
        ensures
            final(self)@ == add_spec(old(self)@, use_acc_b, p, 0),
    {
        self.add_with_carry(use_acc_b, p, 0);
    }

    fn adc(&mut self, use_acc_b: bool, p: u16)
        ensures
            final(self)@ == add_spec(old(self)@, use_acc_b, p, other_carry(old(self)@, use_acc_b)),
    {
        let c = if use_acc_b {
            self.flag_a.carry()
        } else {
            self.flag_b.carry()
        };
        self.add_with_carry(use_acc_b, p, c);
    }

    fn add_with_carry(&mut self, use_acc_b: bool, p: u16, c: u32)
        requires
            c <= 1,
        ensures
            final(self)@ == add_spec(old(self)@, use_acc_b, p, c as int),
    {
        if use_acc_b {
            let result = (self.acc_b as u32) + (p as u32) + c;
            let result16 = lo32(result);
            proof {
                lemma_add_overflow(self.acc_b, p, c as int);
            }
            self.flag_b.set_sz(result16);
            self.flag_b.c = result > 0xFFFF;
            self.flag_b.set_add_ovf(self.acc_b, p, result16);
            self.acc_b = result16;
        } else {
            let result = (self.acc_a as u32) + (p as u32) + c;
            let result16 = lo32(result);
            proof {
                lemma_add_overflow(self.acc_a, p, c as int);
            }
            self.flag_a.set_sz(result16);
            self.flag_a.c = result > 0xFFFF;
            self.flag_a.set_add_ovf(self.acc_a, p, result16);
            self.acc_a = result16;
        }
    }

    fn sub(&mut self, use_acc_b: bool, p: u16)
        ensures
            final(self)@ == sub_spec(old(self)@, use_acc_b, p, 0),
    {
        self.sub_with_borrow(use_acc_b, p, 0);
    }

    fn sbb(&mut self, use_acc_b: bool, p: u16)
        ensures
            final(self)@ == sub_spec(old(self)@, use_acc_b, p, other_carry(old(self)@, use_acc_b)),
    {
        let c = if use_acc_b {
            self.flag_a.carry()
        } else {
            self.flag_b.carry()
        };
        self.sub_with_borrow(use_acc_b, p, c);
    }

    fn sub_with_borrow(&mut self, use_acc_b: bool, p: u16, c: u32)
        requires
            c <= 1,
        ensures
            final(self)@ == sub_spec(old(self)@, use_acc_b, p, c as int),
    {
        let a = if use_acc_b {
            self.acc_b
        } else {
            self.acc_a
        };
        let result = signed_diff(a, p, c);
        let result16 = wrap16(result);
        proof {
            lemma_sub_overflow(a, p, c as int);
        }
        if use_acc_b {
            self.flag_b.set_sz(result16);
            self.flag_b.c = result < 0;
            self.flag_b.set_sub_ovf(self.acc_b, p, result16);
            self.acc_b = result16;
        } else {
            self.flag_a.set_sz(result16);
            self.flag_a.c = result < 0;
            self.flag_a.set_sub_ovf(self.acc_a, p, result16);
            self.acc_a = result16;
        }
    }

    fn sar(&mut self, use_acc_b: bool)
        ensures
            forall|p: u16| final(self)@ == #[trigger] alu_op_spec(old(self)@, 11, use_acc_b, p),
    {
        reveal(alu_op_spec);
        if use_acc_b {
            let a = self.acc_b;
            self.flag_b.c = a % 2 == 1;
            self.acc_b = a / 2 + if a >= 0x8000 {
                0x8000
            } else {
                0
            };
            self.flag_b.set_sz(self.acc_b);
            self.flag_b.clear_ovf();
        } else {
            let a = self.acc_a;
            self.flag_a.c = a % 2 == 1;
            self.acc_a = a / 2 + if a >= 0x8000 {
                0x8000
            } else {
                0
            };
            self.flag_a.set_sz(self.acc_a);
            self.flag_a.clear_ovf();
        }
    }

    fn rcl(&mut self, use_acc_b: bool)
        ensures
            forall|p: u16| final(self)@ == #[trigger] alu_op_spec(old(self)@, 12, use_acc_b, p),
    {
        reveal(alu_op_spec);
        if use_acc_b {
            let a = self.acc_b;
            let c = self.flag_a.carry();
            self.flag_b.c = a >= 0x8000;
            self.acc_b = (((a as u32) * 2) % 0x10000 + c) as u16;
            self.flag_b.set_sz(self.acc_b);
            self.flag_b.clear_ovf();
        } else {
            let a = self.acc_a;
            let c = self.flag_b.carry();
            self.flag_a.c = a >= 0x8000;
            self.acc_a = (((a as u32) * 2) % 0x10000 + c) as u16;
            self.flag_a.set_sz(self.acc_a);
            self.flag_a.clear_ovf();
        }
    }

    fn sll2(&mut self, use_acc_b: bool)
        ensures
            forall|p: u16| final(self)@ == #[trigger] alu_op_spec(old(self)@, 13, use_acc_b, p),
    {
        reveal(alu_op_spec);
        if use_acc_b {
            self.acc_b = (((self.acc_b as u32) * 4) % 0x10000 + 3) as u16;
            self.flag_b.set_sz(self.acc_b);
            self.flag_b.clear_ovf_and_carry();
        } else {
            self.acc_a = (((self.acc_a as u32) * 4) % 0x10000 + 3) as u16;
            self.flag_a.set_sz(self.acc_a);
            self.flag_a.clear_ovf_and_carry();
        }
    }

    fn sll4(&mut self, use_acc_b: bool)
        ensures
            forall|p: u16| final(self)@ == #[trigger] alu_op_spec(old(self)@, 14, use_acc_b, p),
    {
        reveal(alu_op_spec);
        if use_acc_b {
            self.acc_b = (((self.acc_b as u32) * 16) % 0x10000 + 15) as u16;
            self.flag_b.set_sz(self.acc_b);
            self.flag_b.clear_ovf_and_carry();
        } else {
            self.acc_a = (((self.acc_a as u32) * 16) % 0x10000 + 15) as u16;
            self.flag_a.set_sz(self.acc_a);
            self.flag_a.clear_ovf_and_carry();
        }
    }

    fn xchg(&mut self, use_acc_b: bool)
        ensures
            forall|p: u16| final(self)@ == #[trigger] alu_op_spec(old(self)@, 15, use_acc_b, p),
    {
        reveal(alu_op_spec);
        if use_acc_b {
            self.acc_b = make16(lo16(self.acc_b), hi16(self.acc_b));
            self.flag_b.set_sz(self.acc_b);
            self.flag_b.clear_ovf_and_carry();
        } else {
            self.acc_a = make16(lo16(self.acc_a), hi16(self.acc_a));
            self.flag_a.set_sz(self.acc_a);
            self.flag_a.clear_ovf_and_carry();
        }
    }
}

// Jump
impl DSP {
    fn jump(&mut self, instr: u32)
        requires
            dsp_wf(old(self)@),
        ensures
            dsp_wf(final(self)@),
            final(self)@ == jump_spec(old(self)@, instr),
    {
        self.pc = jump_destination(instr) * 3;
    }

    fn call(&mut self, dest: u16)
        requires
            dsp_wf(old(self)@),
            dest < 0x800,
        ensures
            dsp_wf(final(self)@),
            final(self)@ == call_spec(old(self)@, dest),
    {
        proof {
            lemma_u8_low_masks((self.sp + 1) as u8);
        }
        self.stack.set(self.sp as usize, self.pc);
        self.sp = (self.sp + 1) & 0x3;
        self.pc = dest * 3;
    }

    fn ret(&mut self)
        requires
            dsp_wf(old(self)@),
        ensures
            dsp_wf(final(self)@),
            final(self)@ == ret_spec(old(self)@),
    {
        proof {
            lemma_u8_low_masks((self.sp + 3) as u8);
        }
        // The 2-bit stack pointer wraps around.
        self.sp = (self.sp + 3) & 0x3;
        self.pc = self.stack[self.sp as usize];
    }
}

// Helpers
impl DSP {
    /// Get byte `offset` of the instruction at the program counter.
    fn fetch_prog_byte(&self, offset: u16) -> (r: u8)
        requires
            dsp_wf(self@),
            offset < 3,
        ensures
            r == self@.prog_rom[self@.pc + offset],
    {
        self.prog_rom[(self.pc + offset) as usize]
    }

    /// Get an instruction from program memory, and step the program
    /// counter to the next one.
    fn fetch_instr(&mut self) -> (r: u32)
        requires
            dsp_wf(old(self)@),
        ensures
            dsp_wf(final(self)@),
            r == fetch_spec(old(self)@).0,
            r < 0x100_0000,
            final(self)@ == (DSPView { pc: fetch_spec(old(self)@).1, ..old(self)@ }),
    {
        let lo = self.fetch_prog_byte(0);
        let mid = self.fetch_prog_byte(1);
        let hi = self.fetch_prog_byte(2);
        let next = self.pc + 3;
        self.pc = if next as usize == PROG_ROM_SIZE {
            0
        } else {
            next
        };
        (hi as u32) * 65536 + (mid as u32) * 256 + (lo as u32)
    }

    /// Load a word from RAM at `dp | or`.
    fn load_ram(&self, or: u8) -> (r: u16)
        requires
            dsp_wf(self@),
        ensures
            r == ram_word(self@, self.dp | or),
    {
        let byte_pointer = ((self.dp | or) as usize) * 2;
        let lo = self.ram[byte_pointer];
        let hi = self.ram[byte_pointer + 1];
        make16(hi, lo)
    }

    /// Store a word to RAM at `dp`.
    fn store_ram(&mut self, data: u16)
        requires
            dsp_wf(old(self)@),
        ensures
            dsp_wf(final(self)@),
            final(self)@ == store_ram_spec(old(self)@, data),
    {
        let byte_pointer = (self.dp as usize) * 2;
        self.ram.set(byte_pointer, lo16(data));
        self.ram.set(byte_pointer + 1, hi16(data));
    }

    /// Load a word from data ROM at `rp`.
    fn load_rom(&self) -> (r: u16)
        requires
            dsp_wf(self@),
        ensures
            r == rom_word(self@),
    {
        let byte_pointer = (self.rp as usize) * 2;
        let lo = self.data_rom[byte_pointer];
        let hi = self.data_rom[byte_pointer + 1];
        make16(hi, lo)
    }

    /// Load data from the internal bus.
    fn load_idb(&mut self, instr: u32) -> (r: u16)
        requires
            dsp_wf(old(self)@),
        ensures
            dsp_wf(final(self)@),
            (r, final(self)@) == load_idb_spec(old(self)@, instr_src(instr)),
    {
        let src = src_field(instr);
        proof {
            reveal(load_idb_spec);
            lemma_u8_low_masks(self.dp);
        }
        if src == 0x0 {
            self.trb
        } else if src == 0x1 {
            self.acc_a
        } else if src == 0x2 {
            self.acc_b
        } else if src == 0x3 {
            self.tr
        } else if src == 0x4 {
            self.dp as u16
        } else if src == 0x5 {
            self.rp
        } else if src == 0x6 {
            self.load_rom()
        } else if src == 0x7 {
            0
        } else if src == 0x8 {
            self.load_dr(false)
        } else if src == 0x9 {
            self.load_dr(true)
        } else if src == 0xA {
            self.sr
        } else if src == 0xB {
            self.load_s_msb()
        } else if src == 0xC {
            self.load_s_lsb()
        } else if src == 0xD {
            self.k
        } else if src == 0xE {
            self.l
        } else {
            self.load_ram(0)
        }
    }

    /// Store data to the internal bus.
    fn store_idb(&mut self, instr: u32, data: u16) -> (r: MovedToAcc)
        requires
            dsp_wf(old(self)@),
        ensures
            dsp_wf(final(self)@),
            (final(self)@, r) == store_idb_spec(old(self)@, instr_dst(instr), data),
    {
        let dst = dst_field(instr);
        proof {
            reveal(store_idb_spec);
        }
        if dst == 0x1 {
            self.acc_a = data;
            return MovedToAcc::AccA;
        } else if dst == 0x2 {
            self.acc_b = data;
            return MovedToAcc::AccB;
        } else if dst == 0x3 {
            self.tr = data;
        } else if dst == 0x4 {
            self.dp = lo16(data);
        } else if dst == 0x5 {
            proof {
                lemma_u16_low_masks(data);
            }
            self.rp = data & 0x3FF;
        } else if dst == 0x6 {
            self.store_dr(data);
        } else if dst == 0x7 {
            self.store_sr(data);
        } else if dst == 0x8 {
            self.store_s_lsb(data);
        } else if dst == 0x9 {
            self.store_s_msb(data);
        } else if dst == 0xA {
            self.k = data;
        } else if dst == 0xB {
            self.k = data;
            self.l = self.load_rom();
        } else if dst == 0xC {
            self.l = data;
            self.k = self.load_ram(0x40);
        } else if dst == 0xD {
            self.l = data;
        } else if dst == 0xE {
            self.trb = data;
        } else if dst == 0xF {
            self.store_ram(data);
        }
        MovedToAcc::No
    }

    /// Read from the parallel I/O port.
    fn load_dr(&mut self, nf: bool) -> (r: u16)
        requires
            dsp_wf(old(self)@),
        ensures
            dsp_wf(final(self)@),
            (r, final(self)@) == load_dr_spec(old(self)@, nf),
    {
        if !nf {
            self.sr = self.sr | SR_RQM;
        }
        if self.sr & SR_DRC != 0 {
            make16(0, lo16(self.dr))
        } else {
            self.dr
        }
    }

    /// Write to the parallel I/O port.
    fn store_dr(&mut self, data: u16)
        requires
            dsp_wf(old(self)@),
        ensures
            dsp_wf(final(self)@),
            final(self)@ == store_dr_spec(old(self)@, data),
    {
        self.sr = self.sr | SR_RQM;
        if self.sr & SR_DRC != 0 {
            self.dr = lo16(data) as u16;
        } else {
            self.dr = data;
        }
    }

    /// Write to the status register.
    fn store_sr(&mut self, data: u16)
        requires
            dsp_wf(old(self)@),
        ensures
            dsp_wf(final(self)@),
            final(self)@ == store_sr_spec(old(self)@, data),
    {
        let old_sr = self.sr;
        let rqm = self.sr & SR_RQM != 0;
        let drs = self.sr & SR_DRS != 0;
        let mut sr = data & SR_VALID;
        sr = if rqm {
            sr | SR_RQM
        } else {
            sr & !SR_RQM
        };
        sr = if drs {
            sr | SR_DRS
        } else {
            sr & !SR_DRS
        };
        proof {
            let d1 = data & SR_VALID;
            let d2 = if rqm { d1 | SR_RQM } else { d1 & !SR_RQM };
            assert(sr == (data & (SR_VALID & !(SR_RQM | SR_DRS))) | (old_sr & (SR_RQM | SR_DRS)))
                by (bit_vector)
                requires
                    rqm == (old_sr & 0x8000 != 0),
                    drs == (old_sr & 0x1000 != 0),
                    d1 == data & 0xFF83,
                    d2 == if rqm { d1 | 0x8000 } else { d1 & !0x8000u16 },
                    sr == if drs { d2 | 0x1000 } else { d2 & !0x1000u16 },
            ;
        }
        self.sr = sr;
    }

    /// Serial input is not connected: reads as zero.
    fn load_s_msb(&mut self) -> (r: u16)
        ensures
            r == 0,
            final(self)@ == old(self)@,
    {
        0
    }

    /// Serial input is not connected: reads as zero.
    fn load_s_lsb(&mut self) -> (r: u16)
        ensures
            r == 0,
            final(self)@ == old(self)@,
    {
        0
    }

    /// Serial output is not connected: writes are dropped.
    fn store_s_msb(&mut self, _data: u16)
        ensures
            final(self)@ == old(self)@,
    {
    }

    /// Serial output is not connected: writes are dropped.
    fn store_s_lsb(&mut self, _data: u16)
        ensures
            final(self)@ == old(self)@,
    {
    }
}

// Running the DSP from the master clock.

/// The DSP clock rate, in Hz.
pub const DSP_CLOCK_RATE: u64 = 8_192_000;

/// The scaled cycles owed after `cycles` more master cycles.
pub open spec fn clock_total(v: DSPView, cycles: usize) -> int {
    v.cycle_fill + cycles * DSP_CLOCK_RATE
}

/// How many instructions `cycles` master cycles run: one each time more
/// than a whole DSP cycle is owed.
pub open spec fn clock_steps(v: DSPView, cycles: usize) -> nat {
    let t = clock_total(v, cycles);
    if t <= MASTER_HZ {
        0
    } else {
        ((t - 1) / (MASTER_HZ as int)) as nat
    }
}

/// The state after `n` instructions.
pub open spec fn run_steps(v: DSPView, n: nat) -> DSPView
    decreases n,
{
    if n == 0 {
        v
    } else {
        run_steps(spec_step(v), (n - 1) as nat)
    }
}

/// Whether one of the next `n` instructions faults.
pub open spec fn steps_fault(v: DSPView, n: nat) -> bool
    decreases n,
{
    n > 0 && (step_faults(v) || steps_fault(spec_step(v), (n - 1) as nat))
}

/// The state after clocking with `cycles` master cycles.
pub open spec fn clock_spec(v: DSPView, cycles: usize) -> DSPView {
    let k = clock_steps(v, cycles);
    DSPView { cycle_fill: (clock_total(v, cycles) - k * MASTER_HZ) as u64, ..run_steps(v, k) }
}

proof fn lemma_run_steps_succ(v: DSPView, n: nat)
    ensures
        run_steps(v, n + 1) == spec_step(run_steps(v, n)),
    decreases n,
{
    reveal_with_fuel(run_steps, 2);
    if n > 0 {
        lemma_run_steps_succ(spec_step(v), (n - 1) as nat);
    }
}

proof fn lemma_no_fault_prefix(v: DSPView, n: nat, i: nat)
    requires
        !steps_fault(v, n),
        i < n,
    ensures
        !step_faults(run_steps(v, i)),
    decreases i,
{
    if i > 0 {
        lemma_no_fault_prefix(spec_step(v), (n - 1) as nat, (i - 1) as nat);
    }
}

impl DSP {
    /// Whether executing the next instruction faults.
    pub fn next_faults(&self) -> (r: bool)
        requires
            dsp_wf(self@),
        ensures
            r == step_faults(self@),
    {
        let instr = (self.fetch_prog_byte(2) as u32) * 65536
            + (self.fetch_prog_byte(1) as u32) * 256
            + (self.fetch_prog_byte(0) as u32);
        if is_alu(instr) || !is_jp(instr) {
            false
        } else {
            proof {
                lemma_instr_fields(instr);
                lemma_u8_low_masks(self.dp);
            }
            let cond = (instr & 0x3F_E000) >> 13;
            (cond == 0x0B4 && self.dp & 0xF == 0xF) || cond == 0x0B6 || cond == 0x0B8 || cond == 0x0BA
        }
    }

    /// Run the DSP for `cycles` master cycles.
    pub fn run_master_cycles(&mut self, cycles: usize)
        requires
            dsp_wf(old(self)@),
            cycles <= u32::MAX,
            !steps_fault(old(self)@, clock_steps(old(self)@, cycles)),
        ensures
            dsp_wf(final(self)@),
            final(self)@ == clock_spec(old(self)@, cycles),
    {
        let ghost v0 = self@;
        let ghost k = clock_steps(v0, cycles);
        let mut fill: u64 = self.cycle_fill + (cycles as u64) * DSP_CLOCK_RATE;
        let ghost mut count: nat = 0;
        proof {
            if clock_total(v0, cycles) > MASTER_HZ {
                assert(k * MASTER_HZ < clock_total(v0, cycles) <= (k + 1) * MASTER_HZ) by (nonlinear_arith)
                    requires
                        k == (clock_total(v0, cycles) - 1) / (MASTER_HZ as int),
                        clock_total(v0, cycles) > MASTER_HZ,
                ;
            }
        }
        while fill > MASTER_HZ
            invariant
                dsp_wf(self@),
                fill + count * MASTER_HZ == clock_total(v0, cycles),
                self@ == run_steps(v0, count),
                count <= k,
                k == clock_steps(v0, cycles),
                clock_total(v0, cycles) > MASTER_HZ ==> k * MASTER_HZ < clock_total(v0, cycles)
                    <= (k + 1) * MASTER_HZ,
                !steps_fault(v0, k),
            decreases fill,
        {
            proof {
                assert(count < k) by (nonlinear_arith)
                    requires
                        fill + count * MASTER_HZ == clock_total(v0, cycles),
                        fill > MASTER_HZ,
                        clock_total(v0, cycles) > MASTER_HZ ==> k * MASTER_HZ < clock_total(v0, cycles)
                            <= (k + 1) * MASTER_HZ,
                        count <= k,
                ;
                lemma_no_fault_prefix(v0, k, count);
                lemma_run_steps_succ(v0, count);
            }
            fill = fill - MASTER_HZ;
            self.step();
            proof {
                count = count + 1;
            }
        }
        proof {
            assert(count == k) by (nonlinear_arith)
                requires
                    fill + count * MASTER_HZ == clock_total(v0, cycles),
                    fill <= MASTER_HZ,
                    clock_total(v0, cycles) > MASTER_HZ ==> k * MASTER_HZ < clock_total(v0, cycles)
                        <= (k + 1) * MASTER_HZ,
                    clock_total(v0, cycles) <= MASTER_HZ ==> k == 0,
                    count <= k,
            ;
        }
        self.cycle_fill = fill;
    }
}

// Laws of the host interface.

proof fn lemma_sr_bits(sr: u16)
    by (bit_vector)
    ensures
        (sr ^ 0x1000u16) & 0x0400u16 == sr & 0x0400u16,
        ((sr ^ 0x1000u16) & 0x1000u16 != 0) == (sr & 0x1000u16 == 0),
        (sr & !0x8000u16) & 0x0400u16 == sr & 0x0400u16,
        (sr & !0x8000u16) & 0x1000u16 == sr & 0x1000u16,
        ((sr & !0x8000u16) ^ 0x1000u16) & 0x0400u16 == sr & 0x0400u16,
        (((sr & !0x8000u16) ^ 0x1000u16) & 0x1000u16 != 0) == (sr & 0x1000u16 == 0),
        ((sr & !0x8000u16) ^ 0x1000u16) & 0x8000u16 == 0,
{
}

/// In 8-bit mode, a byte the host writes to the data register reads back.
pub proof fn lemma_dr_write_read_8bit(v: DSPView, data: u8)
    requires
        sr_has(v.sr, SR_DRC),
    ensures
        read_dr_spec(write_dr_spec(v, data)).0 == data,
{
    lemma_sr_bits(v.sr);
}

/// In 16-bit mode, with the low byte due next, two bytes the host writes
/// to the data register read back in the same order; the low byte is due
/// next again and the DSP no longer requests the host.
pub proof fn lemma_dr_write_read_16bit(v: DSPView, lo: u8, hi: u8)
    requires
        !sr_has(v.sr, SR_DRC),
        !sr_has(v.sr, SR_DRS),
    ensures
        ({
            let w = write_dr_spec(write_dr_spec(v, lo), hi);
            let (r0, w1) = read_dr_spec(w);
            let (r1, w2) = read_dr_spec(w1);
            &&& r0 == lo
            &&& r1 == hi
            &&& !sr_has(w2.sr, SR_DRS)
            &&& !sr_has(w2.sr, SR_DRC)
            &&& !sr_has(w2.sr, SR_RQM)
        }),
{
    let w0 = write_dr_spec(v, lo);
    lemma_sr_bits(v.sr);
    lemma_sr_bits(w0.sr);
    let w = write_dr_spec(w0, hi);
    lemma_sr_bits(w.sr);
    let w1 = read_dr_spec(w).1;
    lemma_sr_bits(w1.sr);
    assert(w.dr == hi * 256 + lo);
}

/// The DSP state with a different clock fill.
pub open spec fn with_fill(v: DSPView, f: u64) -> DSPView {
    DSPView { cycle_fill: f, ..v }
}

#[verifier::rlimit(50)]
proof fn lemma_alu_op_fields(v: DSPView, w: DSPView, op: u32, b: bool, p: u16)
    requires
        v.acc_a == w.acc_a,
        v.acc_b == w.acc_b,
        v.flag_a == w.flag_a,
        v.flag_b == w.flag_b,
    ensures
        alu_op_spec(v, op, b, p).acc_a == alu_op_spec(w, op, b, p).acc_a,
        alu_op_spec(v, op, b, p).acc_b == alu_op_spec(w, op, b, p).acc_b,
        alu_op_spec(v, op, b, p).flag_a == alu_op_spec(w, op, b, p).flag_a,
        alu_op_spec(v, op, b, p).flag_b == alu_op_spec(w, op, b, p).flag_b,
{
    reveal(alu_op_spec);
    assert(acc(v, b) == acc(w, b));
    assert(flags(v, b) == flags(w, b));
    assert(other_carry(v, b) == other_carry(w, b));
    let rv = alu_op_spec(v, op, b, p);
    let rw = alu_op_spec(w, op, b, p);
    if op == 0 {
    } else if op == 1 {
    } else if op == 2 {
    } else if op == 3 {
    } else if op == 4 {
    } else if op == 5 {
    } else if op == 6 {
    } else if op == 7 {
    } else if op == 8 {
    } else if op == 9 {
    } else if op == 10 {
    } else if op == 11 {
    } else if op == 12 {
    } else if op == 13 {
    } else if op == 14 {
    } else {
    }
}

proof fn lemma_alu_op_ignores_fill(v: DSPView, f: u64, op: u32, b: bool, p: u16)
    ensures
        alu_op_spec(with_fill(v, f), op, b, p) == with_fill(alu_op_spec(v, op, b, p), f),
{
    lemma_alu_op_frame(v, op, b, p);
    lemma_alu_op_frame(with_fill(v, f), op, b, p);
    lemma_alu_op_fields(v, with_fill(v, f), op, b, p);
    assert(alu_op_spec(with_fill(v, f), op, b, p) =~= with_fill(alu_op_spec(v, op, b, p), f));
}

proof fn lemma_load_ignores_fill(v: DSPView, f: u64, src: u32)
    ensures
        load_idb_spec(with_fill(v, f), src) == (load_idb_spec(v, src).0, with_fill(load_idb_spec(v, src).1, f)),
{
    reveal(load_idb_spec);
    assert(load_idb_spec(with_fill(v, f), src).1 =~= with_fill(load_idb_spec(v, src).1, f));
}

#[verifier::rlimit(40)]
proof fn lemma_store_ignores_fill(v: DSPView, f: u64, dst: u32, data: u16)
    ensures
        store_idb_spec(with_fill(v, f), dst, data) == (
            with_fill(store_idb_spec(v, dst, data).0, f),
            store_idb_spec(v, dst, data).1,
        ),
{
    reveal(store_idb_spec);
    let w = with_fill(v, f);
    let rv = store_idb_spec(v, dst, data);
    let rw = store_idb_spec(w, dst, data);
    if dst <= 5 {
        assert(rw.0 =~= with_fill(rv.0, f));
    } else if dst == 6 {
        assert(rw.0 =~= with_fill(rv.0, f));
    } else if dst == 7 {
        assert(rw.0 =~= with_fill(rv.0, f));
    } else if dst == 11 {
        assert(rom_word(w) == rom_word(v));
        assert(rw.0 =~= with_fill(rv.0, f));
    } else if dst == 12 {
        assert(ram_word(w, v.dp | 0x40) == ram_word(v, v.dp | 0x40));
        assert(rw.0 =~= with_fill(rv.0, f));
    } else if dst == 15 {
        assert(rw.0 =~= with_fill(rv.0, f));
    } else {
        assert(rw.0 =~= with_fill(rv.0, f));
    }
}

#[verifier::rlimit(60)]
proof fn lemma_alu_ignores_fill(v: DSPView, f: u64, i: u32)
    ensures
        alu_spec(with_fill(v, f), i) == with_fill(alu_spec(v, i), f),
{
    let w = with_fill(v, f);
    lemma_load_ignores_fill(v, f, instr_src(i));
    let (src_data, u1) = load_idb_spec(v, instr_src(i));
    lemma_store_ignores_fill(u1, f, instr_dst(i), src_data);
    let (u2, moved) = store_idb_spec(u1, instr_dst(i), src_data);
    let w2 = with_fill(u2, f);
    assert(store_idb_spec(load_idb_spec(w, instr_src(i)).1, instr_dst(i), src_data) == (w2, moved));
    assert(mul_spec(w2) == mul_spec(u2));
    assert(alu_operand(w2, i, src_data) == alu_operand(u2, i, src_data));
    let p = alu_operand(u2, i, src_data);
    lemma_alu_op_ignores_fill(u2, f, instr_opcode(i), instr_acc_b(i), p);
    let u3 = if alu_runs(i, moved) {
        alu_op_spec(u2, instr_opcode(i), instr_acc_b(i), p)
    } else {
        u2
    };
    let w3 = if alu_runs(i, moved) {
        alu_op_spec(w2, instr_opcode(i), instr_acc_b(i), p)
    } else {
        w2
    };
    assert(w3 == with_fill(u3, f));
    assert(alu_finish_spec(w3, i, mul_spec(u2)) =~= with_fill(alu_finish_spec(u3, i, mul_spec(u2)), f));
}

#[verifier::rlimit(60)]
proof fn lemma_step_ignores_fill(v: DSPView, f: u64)
    ensures
        spec_step(with_fill(v, f)) == with_fill(spec_step(v), f),
{
    let (i, pc) = fetch_spec(v);
    let v1 = DSPView { pc: pc, ..v };
    let w1 = DSPView { pc: pc, ..with_fill(v, f) };
    assert(fetch_spec(with_fill(v, f)) == (i, pc));
    assert(w1 =~= with_fill(v1, f));
    if instr_is_alu(i) {
        lemma_alu_ignores_fill(v1, f, i);
    } else if instr_is_jp(i) {
        assert(jp_taken(w1, instr_brch(i)) == jp_taken(v1, instr_brch(i)));
        assert(jp_spec(w1, i) =~= with_fill(jp_spec(v1, i), f));
    } else {
        lemma_store_ignores_fill(v1, f, instr_dst(i), instr_imm(i) as u16);
        assert(ld_spec(w1, i) =~= with_fill(ld_spec(v1, i), f));
    }
}

proof fn lemma_run_steps_fill(v: DSPView, f: u64, n: nat)
    ensures
        run_steps(with_fill(v, f), n) == with_fill(run_steps(v, n), f),
    decreases n,
{
    if n > 0 {
        lemma_step_ignores_fill(v, f);
        lemma_run_steps_fill(spec_step(v), f, (n - 1) as nat);
    }
}

proof fn lemma_run_steps_add(v: DSPView, m: nat, n: nat)
    ensures
        run_steps(run_steps(v, m), n) == run_steps(v, m + n),
    decreases m,
{
    if m > 0 {
        lemma_run_steps_add(spec_step(v), (m - 1) as nat, n);
        assert(run_steps(v, m + n) == run_steps(spec_step(v), (m + n - 1) as nat));
    }
}

/// Steps taken for a scaled total `t`, as `clock_steps` counts them.
spec fn steps_for(t: int) -> int {
    if t <= MASTER_HZ { 0 } else { (t - 1) / (MASTER_HZ as int) }
}

proof fn lemma_steps_split(ta: int, t: int)
    requires
        0 <= ta <= t,
    ensures
        ({
            let k1 = steps_for(ta);
            let f1 = ta - k1 * MASTER_HZ;
            let k2 = steps_for(f1 + (t - ta));
            &&& k1 + k2 == steps_for(t)
            &&& f1 + (t - ta) - k2 * MASTER_HZ == t - steps_for(t) * MASTER_HZ
            &&& 0 <= f1
        }),
{
    let m = MASTER_HZ as int;
    if ta > m {
        let k1 = (ta - 1) / m;
        assert(1 <= ta - k1 * m <= m);
        let x = t - 1 - k1 * m;
        assert(x >= 0);
        vstd::arithmetic::div_mod::lemma_hoist_over_denominator(x, k1, m as nat);
        assert((t - 1) / m == x / m + k1) by (nonlinear_arith)
            requires
                x / m + k1 == (x + k1 * m) / m,
                x == t - 1 - k1 * m,
        ;
    }
}

/// Running the DSP for `a` master cycles and then for `b` leaves it as
/// running it for `a + b` at once: the fractional cycles owed carry over.
#[verifier::rlimit(60)]
pub proof fn lemma_clock_additive(v: DSPView, a: usize, b: usize)
    requires
        dsp_wf(v),
        a <= u32::MAX,
        b <= u32::MAX,
        a + b <= usize::MAX,
    ensures
        clock_spec(clock_spec(v, a), b) == clock_spec(v, (a + b) as usize),
{
    let ta = clock_total(v, a);
    let t = clock_total(v, (a + b) as usize);
    assert(t - ta == b * DSP_CLOCK_RATE) by (nonlinear_arith)
        requires
            ta == v.cycle_fill + a * DSP_CLOCK_RATE,
            t == v.cycle_fill + (a + b) * DSP_CLOCK_RATE,
    ;
    assert(t <= MASTER_HZ + 0x2_0000_0000 * DSP_CLOCK_RATE) by (nonlinear_arith)
        requires
            t == v.cycle_fill + (a + b) * DSP_CLOCK_RATE,
            v.cycle_fill <= MASTER_HZ,
            a <= u32::MAX,
            b <= u32::MAX,
    ;
    lemma_steps_split(ta, t);
    let k1 = clock_steps(v, a);
    assert(k1 == steps_for(ta));
    let f1 = (ta - k1 * MASTER_HZ) as u64;
    let u = clock_spec(v, a);
    assert(u == with_fill(run_steps(v, k1), f1));
    assert(u.cycle_fill == ta - k1 * MASTER_HZ);
    let k2 = clock_steps(u, b);
    assert(k2 == steps_for(f1 + (t - ta)));
    lemma_run_steps_fill(run_steps(v, k1), f1, k2);
    lemma_run_steps_add(v, k1, k2);
    assert(clock_spec(u, b) =~= clock_spec(v, (a + b) as usize));
}

} // verus!
