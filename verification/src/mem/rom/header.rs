//! ROM header: metadata about the cartridge, 40 bytes at $7FC0 (LoROM) or
//! $FFC0 (HiROM) of the ROM image.
use vstd::prelude::*;
use vstd::utf8::{valid_utf8, decode_utf8};
use vstd::arithmetic::power2::pow2;
use crate::bits::{lemma_u8_low_masks, lemma_shl_1k};

verus! {

pub const HEADER_SIZE: usize = 40;
pub const LO_ROM_HEADER_START: usize = 0x7FC0;
pub const HI_ROM_HEADER_START: usize = 0xFFC0;
const ROM_MAPPING_MASK: u8 = 0xE9;
const LO_ROM: u8 = 0x20;
const HI_ROM: u8 = 0x21;

/// `String::from_utf8`: the bytes as a string when they are valid UTF-8.
#[verifier::external_body]
fn string_from_utf8(bytes: Vec<u8>) -> (r: Option<String>)
    ensures
        r is Some <==> valid_utf8(bytes@),
        r matches Some(s) ==> s@ == decode_utf8(bytes@),
{
    match String::from_utf8(bytes) {
        Ok(s) => Some(s),
        Err(_) => None,
    }
}

pub struct ROMHeader {
    data: [u8; 40],
}

impl View for ROMHeader {
    type V = Seq<u8>;

    closed spec fn view(&self) -> Seq<u8> {
        self.data@
    }
}

/// The mapping byte selects LoROM when its masked value is $20, HiROM when
/// it is $21.
/// The save RAM size that size byte `n` gives: 1kB times two to the power
/// of `n`, at most 512kB.
pub open spec fn sram_bytes(n: u8) -> usize {
    if n >= 9 {
        0x80000
    } else {
        (0x400 * pow2(n as nat)) as usize
    }
}

pub open spec fn is_lo_mapping(mapping: u8) -> bool {
    mapping & 0xE9 == 0x20
}

pub open spec fn is_hi_mapping(mapping: u8) -> bool {
    mapping & 0xE9 == 0x21
}

impl ROMHeader {
    pub fn new() -> (r: Self)
        ensures
            r@ == Seq::new(HEADER_SIZE as nat, |i: int| 0u8),
    {
        let r = Self { data: [0; 40] };
        assert(r@ =~= Seq::new(HEADER_SIZE as nat, |i: int| 0u8));
        r
    }

    /// Load the header from `rom` at `start`.
    fn load(&mut self, rom: &[u8], start: usize)
        requires
            start + HEADER_SIZE <= rom@.len(),
        ensures
            final(self)@ == rom@.subrange(start as int, start + HEADER_SIZE),
    {
        let mut i: usize = 0;
        while i < HEADER_SIZE
            invariant
                0 <= i <= HEADER_SIZE,
                start + HEADER_SIZE <= rom@.len(),
                rom@.len() == rom.len(),
                rom.len() <= usize::MAX,
                self@.len() == HEADER_SIZE,
                forall|j: int| 0 <= j < i ==> #[trigger] self@[j] == rom@[start + j],
            decreases HEADER_SIZE - i,
        {
            self.data[i] = rom[start + i];
            i = i + 1;
        }
        assert(self@ =~= rom@.subrange(start as int, start + HEADER_SIZE));
    }

    /// Load the header from the LoROM position of the image, and check if
    /// it is a LoROM header.
    pub fn try_lo(&mut self, rom: &[u8]) -> (r: bool)
        requires
            LO_ROM_HEADER_START + HEADER_SIZE <= rom@.len(),
        ensures
            final(self)@ == rom@.subrange(LO_ROM_HEADER_START as int, LO_ROM_HEADER_START + HEADER_SIZE),
            r == is_lo_mapping(final(self)@[0x15]),
    {
        self.load(rom, LO_ROM_HEADER_START);
        (self.rom_mapping() & ROM_MAPPING_MASK) == LO_ROM
    }

    /// Load the header from the HiROM position of the image, and check if
    /// it is a HiROM header.
    pub fn try_hi(&mut self, rom: &[u8]) -> (r: bool)
        requires
            HI_ROM_HEADER_START + HEADER_SIZE <= rom@.len(),
        ensures
            final(self)@ == rom@.subrange(HI_ROM_HEADER_START as int, HI_ROM_HEADER_START + HEADER_SIZE),
            r == is_hi_mapping(final(self)@[0x15]),
    {
        self.load(rom, HI_ROM_HEADER_START);
        (self.rom_mapping() & ROM_MAPPING_MASK) == HI_ROM
    }

    /// Name of the game: the first 21 bytes, which must be UTF-8.
    pub fn rom_name(&self) -> (r: String)
        requires
            valid_utf8(self@.subrange(0, 21)),
        ensures
            r@ == decode_utf8(self@.subrange(0, 21)),
    {
        match self.try_rom_name() {
            Some(s) => s,
            None => String::new(),
        }
    }

    /// Name of the game, or None when the 21 name bytes are not UTF-8.
    pub fn try_rom_name(&self) -> (r: Option<String>)
        ensures
            r is Some <==> valid_utf8(self@.subrange(0, 21)),
            r matches Some(s) ==> s@ == decode_utf8(self@.subrange(0, 21)),
    {
        let mut bytes: Vec<u8> = Vec::new();
        let mut i: usize = 0;
        while i < 21
            invariant
                0 <= i <= 21,
                self@.len() == HEADER_SIZE,
                bytes@ == self@.subrange(0, i as int),
            decreases 21 - i,
        {
            bytes.push(self.data[i]);
            i = i + 1;
        }
        string_from_utf8(bytes)
    }

    /// Mapping type.
    pub fn rom_mapping(&self) -> (r: u8)
        ensures
            r == self@[0x15],
    {
        self.data[0x15]
    }

    /// ROM type.
    pub fn rom_type(&self) -> (r: ROMType)
        ensures
            r.rom_type == self@[0x16],
    {
        ROMType::from_byte(self.data[0x16])
    }

    /// ROM size in bytes: 1kB shifted left by byte $17.
    pub fn rom_size(&self) -> (r: usize)
        requires
            (self@[0x17] as u32) < usize::BITS,
        ensures
            r == (0x400usize << self@[0x17]),
            self@[0x17] <= 20 ==> r == 0x400 * pow2(self@[0x17] as nat),
    {
        let b = self.data[0x17];
            let shift = b as usize;
        if shift <= 20 {
            proof {
                lemma_shl_1k(shift);
            }
        }
        assert((0x400usize << shift) == (0x400usize << b)) by (bit_vector)
            requires
                shift == b as usize,
        ;
        0x400usize << shift
    }

    /// SRAM size in bytes: 1kB times two to the power of byte $18, at most
    /// 512kB, or zero when the cartridge has no SRAM.
    pub fn sram_size(&self) -> (r: usize)
        ensures
            r == if self.rom_type_has_sram() {
                sram_bytes(self@[0x18])
            } else {
                0
            },
            r <= 0x80000,
    {
        if self.rom_type().has_sram() {
            let b = self.data[0x18];
            if b >= 9 {
                1024 * 512
            } else {
                let shift = b as usize;
                proof {
                    lemma_shl_1k(shift);
                    vstd::arithmetic::power2::lemma2_to64();
                    vstd::arithmetic::power2::lemma_pow2_strictly_increases(shift as nat, 9);
                }
                0x400usize << shift
            }
        } else {
            0
        }
    }

    /// Whether the ROM size, 1kB shifted left by byte $17, fits in a
    /// `usize`.
    pub fn rom_size_fits(&self) -> (r: bool)
        ensures
            r == ((self@[0x17] as u32) < usize::BITS),
    {
        (self.data[0x17] as u32) < usize::BITS
    }

    pub open spec fn rom_type_has_sram(&self) -> bool {
        ROMType { rom_type: self@[0x16] }.spec_has_sram()
    }

    /// Fast ROM: both bits $30 of the mapping byte set.
    pub fn fast_rom(&self) -> (r: bool)
        ensures
            r == (self@[0x15] & 0x30 == 0x30),
    {
        (self.rom_mapping() & 0x30) == 0x30
    }
}

#[derive(Debug, Clone, Copy, PartialEq, Eq, Structural)]
pub enum EnhancementChip {
    DSP,
    SuperFX,
    OBC1,
    SA1,
    Other,
    Custom,
    Unknown,
}

#[derive(Clone, Copy)]
pub struct ROMType {
    pub rom_type: u8,
}

impl ROMType {
    pub fn from_byte(val: u8) -> (r: Self)
        ensures
            r.rom_type == val,
    {
        Self { rom_type: val }
    }

    /// Cartridges whose type has low nybble 2, 5 or 6 hold SRAM.
    pub open spec fn spec_has_sram(self) -> bool {
        let n = self.rom_type % 16;
        n == 2 || n == 5 || n == 6
    }

    /// The chip named by the high nybble, for types whose low nybble is
    /// above 2.
    pub open spec fn spec_chip(self) -> Option<EnhancementChip> {
        if self.rom_type % 16 > 2 {
            let h = self.rom_type / 16;
            Some(
                if h == 0 {
                    EnhancementChip::DSP
                } else if h == 1 {
                    EnhancementChip::SuperFX
                } else if h == 2 {
                    EnhancementChip::OBC1
                } else if h == 3 {
                    EnhancementChip::SA1
                } else if h == 0xE {
                    EnhancementChip::Other
                } else if h == 0xF {
                    EnhancementChip::Custom
                } else {
                    EnhancementChip::Unknown
                },
            )
        } else {
            None
        }
    }

    pub fn has_sram(self) -> (r: bool)
        ensures
            r == self.spec_has_sram(),
    {
        proof {
            lemma_u8_low_masks(self.rom_type);
        }
        let lower_nybble = self.rom_type & 0xF;
        lower_nybble == 2 || lower_nybble == 5 || lower_nybble == 6
    }

    pub fn enhancement_chip(self) -> (r: Option<EnhancementChip>)
        ensures
            r == self.spec_chip(),
    {
        proof {
            lemma_u8_low_masks(self.rom_type);
        }
        if self.rom_type & 0xF > 2 {
            let h = self.rom_type >> 4;
            Some(
                if h == 0x0 {
                    EnhancementChip::DSP
                } else if h == 0x1 {
                    EnhancementChip::SuperFX
                } else if h == 0x2 {
                    EnhancementChip::OBC1
                } else if h == 0x3 {
                    EnhancementChip::SA1
                } else if h == 0xE {
                    EnhancementChip::Other
                } else if h == 0xF {
                    EnhancementChip::Custom
                } else {
                    EnhancementChip::Unknown
                },
            )
        } else {
            None
        }
    }
}

} // verus!
