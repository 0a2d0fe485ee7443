//! Byte and word helpers shared by every device: splitting words into bytes,
//! assembling them again and replacing one byte of a word.
use vstd::prelude::*;

verus! {

/// Low byte of a 16-bit word.
pub fn lo16(x: u16) -> (r: u8)
    ensures
        r == x % 256,
{
    (x % 256) as u8
}

/// High byte of a 16-bit word.
pub fn hi16(x: u16) -> (r: u8)
    ensures
        r == x / 256,
{
    (x / 256) as u8
}

/// A 16-bit word from its high and low bytes.
pub fn make16(hi: u8, lo: u8) -> (r: u16)
    ensures
        r == hi * 256 + lo,
{
    (hi as u16) * 256 + (lo as u16)
}

/// Replace the low byte of a word.
pub fn set_lo16(x: u16, lo: u8) -> (r: u16)
    ensures
        r == (x / 256) * 256 + lo,
        r / 256 == x / 256,
        r % 256 == lo,
{
    (x / 256) * 256 + (lo as u16)
}

/// Replace the high byte of a word.
pub fn set_hi16(x: u16, hi: u8) -> (r: u16)
    ensures
        r == hi * 256 + x % 256,
        r / 256 == hi,
        r % 256 == x % 256,
{
    (hi as u16) * 256 + (x % 256)
}

/// A 24-bit address from a bank byte and a 16-bit offset.
pub fn make24(bank: u8, offset: u16) -> (r: u32)
    ensures
        r == bank * 65536 + offset,
        r < 0x100_0000,
{
    (bank as u32) * 65536 + (offset as u32)
}

/// Low 16 bits of a 32-bit value.
pub fn lo32(x: u32) -> (r: u16)
    ensures
        r == x % 65536,
{
    (x % 65536) as u16
}

/// High 16 bits of a 32-bit value.
pub fn hi32(x: u32) -> (r: u16)
    ensures
        r == x / 65536,
{
    (x / 65536) as u16
}

/// Replace bits 0-7 of a 24-bit value.
pub fn set_lo24(x: u32, data: u8) -> (r: u32)
    requires
        x < 0x100_0000,
    ensures
        r == (x / 256) * 256 + data,
        r < 0x100_0000,
{
    (x / 256) * 256 + (data as u32)
}

/// Replace bits 8-15 of a 24-bit value.
pub fn set_mid24(x: u32, data: u8) -> (r: u32)
    requires
        x < 0x100_0000,
    ensures
        r == (x / 65536) * 65536 + data * 256 + x % 256,
        r < 0x100_0000,
{
    (x / 65536) * 65536 + (data as u32) * 256 + (x % 256)
}

/// Replace bits 16-23 of a 24-bit value.
pub fn set_hi24(x: u32, data: u8) -> (r: u32)
    requires
        x < 0x100_0000,
    ensures
        r == data * 65536 + x % 65536,
        r < 0x100_0000,
{
    (data as u32) * 65536 + (x % 65536)
}

/// Masking a byte with a run of low bits keeps its remainder.
pub proof fn lemma_u8_low_masks(x: u8)
    by (bit_vector)
    ensures
        x & 0x1 == x % 2,
        x & 0x3 == x % 4,
        x & 0x7 == x % 8,
        x & 0xF == x % 16,
        x & 0x1F == x % 32,
        x & 0x3F == x % 64,
        x & 0x7F == x % 128,
        x & 0xFF == x,
        x & 0xF0 == x - x % 16,
        x >> 4 == x / 16,
        x >> 1 == x / 2,
        x >> 2 == x / 4,
        x >> 3 == x / 8,
        x >> 5 == x / 32,
        x >> 6 == x / 64,
        x >> 7 == x / 128,
        (x & 0x80 != 0) == (x >= 0x80),
        (x & 0xF0 == 0) == (x < 16),
        x | 0 == x,
        (x & 0x02 != 0) == ((x / 2) % 2 == 1),
        x & 0x30 == ((x / 16) % 4) * 16,
        x & 0x0E == ((x / 2) % 8) * 2,
        x & 0xFC == (x / 4) * 4,
        (x & 0x0C) >> 2 == (x / 4) % 4,
        (x & 0x18) >> 3 == (x / 8) % 4,
        (x & 0xF0) >> 4 == x / 16,
        (x >> 0u8) & 3 == x % 4,
        (x >> 2u8) & 3 == (x / 4) % 4,
        (x >> 4u8) & 3 == (x / 16) % 4,
        (x >> 6u8) & 3 == (x / 64) % 4,
{
}

/// 2 to the power `k`, for bit positions of a byte.
pub open spec fn p2(k: int) -> int {
    if k <= 0 {
        1
    } else if k == 1 {
        2
    } else if k == 2 {
        4
    } else if k == 3 {
        8
    } else if k == 4 {
        16
    } else if k == 5 {
        32
    } else if k == 6 {
        64
    } else if k == 7 {
        128
    } else {
        256
    }
}

pub proof fn lemma_p2_double(k: int)
    requires
        0 <= k < 8,
    ensures
        p2(k + 1) == 2 * p2(k),
        p2(k) > 0,
{
}

/// Bit `k` (0-7) of a byte.
pub open spec fn bit8(x: u8, k: int) -> bool {
    (x as int / p2(k)) % 2 == 1
}

/// Testing a single bit with a mask is reading that bit.
pub proof fn lemma_u8_bits(x: u8)
    ensures
        (x & 0x01 != 0) == bit8(x, 0),
        (x & 0x02 != 0) == bit8(x, 1),
        (x & 0x04 != 0) == bit8(x, 2),
        (x & 0x08 != 0) == bit8(x, 3),
        (x & 0x10 != 0) == bit8(x, 4),
        (x & 0x20 != 0) == bit8(x, 5),
        (x & 0x40 != 0) == bit8(x, 6),
        (x & 0x80 != 0) == bit8(x, 7),
        (x & 0x03) == x % 4,
        (x & 0x0C) >> 2 == (x / 4) % 4,
        (x & 0x30) >> 4 == (x / 16) % 4,
        (x & 0xC0) >> 6 == x / 64,
{
    lemma_u8_bits_raw(x);
}

proof fn lemma_u8_bits_raw(x: u8)
    by (bit_vector)
    ensures
        (x & 0x01 != 0) == (x % 2 == 1),
        (x & 0x02 != 0) == ((x / 2) % 2 == 1),
        (x & 0x04 != 0) == ((x / 4) % 2 == 1),
        (x & 0x08 != 0) == ((x / 8) % 2 == 1),
        (x & 0x10 != 0) == ((x / 16) % 2 == 1),
        (x & 0x20 != 0) == ((x / 32) % 2 == 1),
        (x & 0x40 != 0) == ((x / 64) % 2 == 1),
        (x & 0x80 != 0) == ((x / 128) % 2 == 1),
        (x & 0x03) == x % 4,
        (x & 0x0C) >> 2 == (x / 4) % 4,
        (x & 0x30) >> 4 == (x / 16) % 4,
        (x & 0xC0) >> 6 == x / 64,
{
}

/// Bit `k` (0-7) of a byte, as 0 or 1.
pub fn bit_of(x: u8, k: u8) -> (r: u8)
    requires
        k < 8,
    ensures
        r == (x as int / p2(k as int)) % 2,
        r < 2,
{
    proof {
        lemma_u8_shift_bits(x);
    }
    (x >> k) & 1
}

proof fn lemma_u8_shift_bits(x: u8)
    by (bit_vector)
    ensures
        (x >> 0u8) & 1 == x % 2,
        (x >> 1u8) & 1 == (x / 2) % 2,
        (x >> 2u8) & 1 == (x / 4) % 2,
        (x >> 3u8) & 1 == (x / 8) % 2,
        (x >> 4u8) & 1 == (x / 16) % 2,
        (x >> 5u8) & 1 == (x / 32) % 2,
        (x >> 6u8) & 1 == (x / 64) % 2,
        (x >> 7u8) & 1 == (x / 128) % 2,
{
}

/// Shifting 1kB left by `n` multiplies it by 2^n while the result fits in
/// 32 bits.
pub proof fn lemma_shl_1k(n: usize)
    requires
        n <= 20,
    ensures
        (0x400usize << n) == 0x400 * vstd::arithmetic::power2::pow2(n as nat),
{
    vstd::arithmetic::power2::lemma2_to64();
    if n < 20 {
        vstd::arithmetic::power2::lemma_pow2_strictly_increases(n as nat, 20);
    }
    vstd::bits::lemma_usize_shl_is_mul(0x400, n);
}

/// Masking a word with a run of low bits keeps its remainder.
pub proof fn lemma_u16_low_masks(x: u16)
    by (bit_vector)
    ensures
        x & 0x1 == x % 2,
        x & 0x3 == x % 4,
        x & 0x7 == x % 8,
        x & 0xF == x % 16,
        x & 0xFF == x % 256,
        x & 0x3FF == x % 1024,
        x & 0xFFF == x % 4096,
        x & 0x8000 == (if x >= 0x8000 { 0x8000u16 } else { 0u16 }),
        x >> 8 == x / 256,
{
}

} // verus!
