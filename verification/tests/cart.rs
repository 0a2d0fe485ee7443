use lib::mem::rom::{create_cart, CartError, Cart};
use lib::mem::rom::header::{ROMHeader, EnhancementChip, ROMType};
use lib::mem::rom::sram::{create_sram, EmptySRAM, SaveRAM};

const LO: usize = 0x7FC0;
const HI: usize = 0xFFC0;

/// A ROM image of `size` bytes whose byte `i` is `i / 0x100 + i`, with a
/// header at `start`.
fn image(size: usize, start: usize, mapping: u8, rom_type: u8, rom_size: u8, sram_size: u8) -> Vec<u8> {
    let mut rom: Vec<u8> = (0..size).map(|i| ((i >> 8) as u8).wrapping_add(i as u8)).collect();
    let name = b"TEST GAME            ";
    rom[start..start + 21].copy_from_slice(name);
    rom[start + 0x15] = mapping;
    rom[start + 0x16] = rom_type;
    rom[start + 0x17] = rom_size;
    rom[start + 0x18] = sram_size;
    rom
}

fn lorom_with_sram() -> Vec<u8> {
    // 512kB ROM, 8kB SRAM (type 2: ROM + RAM + battery).
    image(0x80000, LO, 0x20, 0x02, 9, 3)
}

#[test]
fn lorom_reads_rom_banks() {
    let rom = lorom_with_sram();
    let expected = rom.clone();
    let mut cart = create_cart(rom, None, None).unwrap();
    assert_eq!(cart.name(), "TEST GAME            ");
    assert_eq!(cart.read(0x00, 0x8000), (expected[0], 8));
    assert_eq!(cart.read(0x01, 0x8123), (expected[0x8123], 8));
    // Bank $80 mirrors bank $00.
    assert_eq!(cart.read(0x80, 0x8123), (expected[0x123], 8));
    // Banks $40-$6F mirror the first $40 banks, low half included.
    assert_eq!(cart.read(0x41, 0x0005), (expected[0x8005], 8));
    assert_eq!(cart.read(0x41, 0x8005), (expected[0x8005], 8));
    // Below $8000 in banks $00-$3F nothing answers.
    assert_eq!(cart.read(0x00, 0x1000), (0, 8));
}

#[test]
fn lorom_sram_write_reads_back() {
    let mut cart = create_cart(lorom_with_sram(), None, None).unwrap();
    assert_eq!(cart.read(0x70, 0x0010), (0, 8));
    assert_eq!(cart.write(0x70, 0x0010, 0xAB), 8);
    assert_eq!(cart.read(0x70, 0x0010), (0xAB, 8));
    // 8kB of SRAM: addresses wrap at $2000.
    assert_eq!(cart.read(0x70, 0x2010), (0xAB, 8));
    assert_eq!(cart.read(0xF0, 0x0010), (0xAB, 8));
    // Writes never change ROM.
    let before = cart.read(0x00, 0x8000);
    cart.write(0x00, 0x8000, 0x55);
    assert_eq!(cart.read(0x00, 0x8000), before);
}

#[test]
fn sram_flush_hands_back_changes_once() {
    let mut cart = create_cart(lorom_with_sram(), None, None).unwrap();
    assert_eq!(cart.flush(), None);
    cart.write(0x70, 0x0003, 0x42);
    let saved = cart.flush().unwrap();
    assert_eq!(saved.len(), 0x2000);
    assert_eq!(saved[3], 0x42);
    assert_eq!(cart.flush(), None);
}

#[test]
fn save_file_fills_sram() {
    let mut save = vec![0u8; 0x2000];
    save[0x100] = 0x77;
    let mut cart = create_cart(lorom_with_sram(), Some(save), None).unwrap();
    assert_eq!(cart.read(0x70, 0x0100), (0x77, 8));
    assert_eq!(cart.save_data().len(), 0x2000);
}

#[test]
fn short_save_file_is_refused() {
    let r = create_cart(lorom_with_sram(), Some(vec![0u8; 0x100]), None);
    assert!(matches!(r, Err(CartError::SaveFileShort)));
}

#[test]
fn cart_without_sram_reads_zero() {
    // Type 0: ROM only.
    let mut cart = create_cart(image(0x80000, LO, 0x20, 0x00, 9, 3), None, None).unwrap();
    cart.write(0x70, 0x0010, 0xAB);
    assert_eq!(cart.read(0x70, 0x0010), (0, 8));
    assert_eq!(cart.flush(), None);
    assert!(cart.save_data().is_empty());
}

#[test]
fn rom_speed_follows_memsel_on_fast_carts() {
    let mut slow = create_cart(lorom_with_sram(), None, None).unwrap();
    slow.set_rom_speed(1);
    assert_eq!(slow.read(0x00, 0x8000).1, 8);
    // Mapping $30: fast LoROM.
    let mut fast = create_cart(image(0x80000, LO, 0x30, 0x02, 9, 3), None, None).unwrap();
    fast.set_rom_speed(1);
    assert_eq!(fast.read(0x00, 0x8000).1, 6);
    assert_eq!(fast.read(0x70, 0x0000).1, 8);
    fast.set_rom_speed(0);
    assert_eq!(fast.read(0x00, 0x8000).1, 8);
}

#[test]
fn large_lorom_does_not_mirror() {
    // 4MB: byte $17 = 12.
    let rom = image(0x400000, LO, 0x20, 0x00, 12, 0);
    let expected = rom.clone();
    let mut cart = create_cart(rom, None, None).unwrap();
    assert_eq!(cart.read(0x41, 0x0005), (expected[0x41 * 0x8000 + 5], 8));
}

#[test]
fn hirom_maps_64k_banks() {
    let rom = image(0x20000, HI, 0x21, 0x02, 7, 1);
    let expected = rom.clone();
    let mut cart = create_cart(rom, None, None).unwrap();
    assert_eq!(cart.read(0x00, 0x8000), (expected[0x8000], 8));
    assert_eq!(cart.read(0x01, 0x9000), (expected[0x19000], 8));
    assert_eq!(cart.read(0x40, 0x0001), (expected[0x0001], 8));
    assert_eq!(cart.read(0xC1, 0x0001), (expected[0x10001], 8));
    // Save RAM at $6000 of banks $20-$3F (2kB: wraps at $800).
    cart.write(0x20, 0x6001, 0x99);
    assert_eq!(cart.read(0x20, 0x6001), (0x99, 8));
    assert_eq!(cart.read(0x20, 0x6801), (0x99, 8));
}

#[test]
fn dsp_cart_maps_data_register() {
    // Type $03: DSP.
    let rom = image(0x80000, LO, 0x20, 0x03, 9, 0);
    let mut cart = create_cart(rom, None, Some(vec![0u8; 0x2000])).unwrap();
    // 16-bit data register: low byte then high byte.
    cart.write(0x30, 0x8000, 0x34);
    cart.write(0x30, 0x8000, 0x12);
    assert_eq!(cart.read(0x30, 0x8000).0, 0x34);
    assert_eq!(cart.read(0x30, 0x8000).0, 0x12);
    // Status register from $C000: DRS is back to the low byte and RQM
    // was never raised.
    assert_eq!(cart.read(0x30, 0xC000).0, 0);
    cart.clock(100);
}

#[test]
fn hirom_dsp_cart_maps_after_rom() {
    let rom = image(0x20000, HI, 0x21, 0x03, 7, 0);
    let expected = rom.clone();
    let mut cart = create_cart(rom, None, Some(vec![0u8; 0x2000])).unwrap();
    assert_eq!(cart.read(0x00, 0x8000), (expected[0x8000], 8));
    cart.write(0x00, 0x6000, 0x21);
    cart.write(0x00, 0x6000, 0x43);
    assert_eq!(cart.read(0x00, 0x6000), (0x21, 8));
    assert_eq!(cart.read(0x00, 0x6000), (0x43, 8));
}

#[test]
fn create_cart_errors() {
    assert!(matches!(create_cart(vec![0u8; 0x100], None, None), Err(CartError::HeaderUnreadable)));
    // Neither header valid, image too short for the HiROM header.
    assert!(matches!(create_cart(vec![0u8; 0x8000], None, None), Err(CartError::HeaderUnreadable)));
    let r = create_cart(image(0x10000, HI, 0x00, 0, 7, 0), None, None);
    assert!(matches!(r, Err(CartError::Unrecognised(0x00))));
    let mut bad_name = lorom_with_sram();
    bad_name[LO] = 0xFF;
    assert!(matches!(create_cart(bad_name, None, None), Err(CartError::BadName)));
    let dsp = image(0x80000, LO, 0x20, 0x03, 9, 0);
    assert!(matches!(create_cart(dsp.clone(), None, None), Err(CartError::NoDSPROM)));
    assert!(matches!(create_cart(dsp, None, Some(vec![0u8; 0x100])), Err(CartError::DSPROMShort)));
    let fx = image(0x80000, LO, 0x20, 0x13, 9, 0);
    assert!(matches!(create_cart(fx, None, None), Err(CartError::UnsupportedChip(EnhancementChip::SuperFX))));
    let huge = image(0x80000, LO, 0x20, 0x00, 200, 0);
    assert!(matches!(create_cart(huge, None, None), Err(CartError::SizeOverflow)));
}

#[test]
fn header_fields() {
    let rom = lorom_with_sram();
    let mut header = ROMHeader::new();
    assert!(header.try_lo(&rom));
    assert!(!header.try_hi(&image(0x10000, LO, 0x20, 0, 0, 0)));
    assert!(header.try_lo(&rom));
    assert_eq!(header.rom_mapping(), 0x20);
    assert_eq!(header.rom_size(), 0x80000);
    assert_eq!(header.sram_size(), 0x2000);
    assert!(!header.fast_rom());
    assert_eq!(header.rom_name(), "TEST GAME            ");
    // SRAM is capped at 512kB.
    let big = image(0x80000, LO, 0x20, 0x02, 9, 12);
    assert!(header.try_lo(&big));
    assert_eq!(header.sram_size(), 0x80000);
    // Size bytes at or beyond the word width are capped too.
    let wide = image(0x80000, LO, 0x20, 0x02, 9, 54);
    assert!(header.try_lo(&wide));
    assert_eq!(header.sram_size(), 0x80000);
    let small = image(0x80000, LO, 0x20, 0x02, 9, 8);
    assert!(header.try_lo(&small));
    assert_eq!(header.sram_size(), 0x40000);
    let none = image(0x80000, LO, 0x20, 0x00, 9, 54);
    assert!(header.try_lo(&none));
    assert_eq!(header.sram_size(), 0);
}

#[test]
fn rom_type_decoding() {
    assert!(ROMType::from_byte(0x02).has_sram());
    assert!(ROMType::from_byte(0x35).has_sram());
    assert!(ROMType::from_byte(0x16).has_sram());
    assert!(!ROMType::from_byte(0x03).has_sram());
    assert!(ROMType::from_byte(0x02).enhancement_chip().is_none());
    assert!(matches!(ROMType::from_byte(0x03).enhancement_chip(), Some(EnhancementChip::DSP)));
    assert!(matches!(ROMType::from_byte(0x15).enhancement_chip(), Some(EnhancementChip::SuperFX)));
    assert!(matches!(ROMType::from_byte(0x25).enhancement_chip(), Some(EnhancementChip::OBC1)));
    assert!(matches!(ROMType::from_byte(0x35).enhancement_chip(), Some(EnhancementChip::SA1)));
    assert!(matches!(ROMType::from_byte(0xE3).enhancement_chip(), Some(EnhancementChip::Other)));
    assert!(matches!(ROMType::from_byte(0xF3).enhancement_chip(), Some(EnhancementChip::Custom)));
    assert!(matches!(ROMType::from_byte(0x53).enhancement_chip(), Some(EnhancementChip::Unknown)));
}

#[test]
fn sram_sizes() {
    let empty = create_sram(0, None).unwrap();
    assert!(empty.save_data().is_empty());
    let sized = create_sram(0x800, None).unwrap();
    assert_eq!(sized.save_data(), vec![0u8; 0x800]);
    let filled = create_sram(4, Some(vec![1, 2, 3, 4, 5])).unwrap();
    assert_eq!(filled.save_data(), vec![1, 2, 3, 4]);
    assert_eq!(create_sram(4, Some(vec![1])).err().unwrap(), "failed to fill whole buffer");
}

#[test]
fn builder_mappings() {
    let rom: Vec<u8> = (0..0x10000u32).map(|i| i as u8).collect();
    let cart: Cart = Cart::new_lorom(rom, SaveRAM::Empty(EmptySRAM::new())).named("X".to_string()).fast_rom(true).build();
    let mut cart = cart;
    assert_eq!(cart.name(), "X");
    cart.set_rom_speed(1);
    assert_eq!(cart.read(0x01, 0x8001), (0x01, 6));
}
