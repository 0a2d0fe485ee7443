use lib::video::{PPU, PPUSignal};
use lib::common::Interrupt;
use lib::video::render::palette::{col15_to_col888, PaletteMem};
use lib::video::render::bgcache::BGCache;
use lib::video::ram::bgregs::BGReg;
use lib::video::ram::VideoMem;
use lib::video::render::patternmem::{BitsPerPixel, PatternMem, Tile};

#[test]
fn vram_word_reads_back() {
    let mut mem = VideoMem::new();
    // Increment after the high byte.
    mem.write(0x15, 0x80);
    mem.write(0x16, 0x34);
    mem.write(0x17, 0x12);
    mem.write(0x18, 0xAA);
    mem.write(0x19, 0xBB);
    mem.write(0x18, 0xCC);
    mem.write(0x19, 0xDD);
    mem.write(0x16, 0x34);
    mem.write(0x17, 0x12);
    assert_eq!(mem.read(0x39), 0xAA);
    assert_eq!(mem.read(0x3A), 0xBB);
    assert_eq!(mem.read(0x39), 0xCC);
    assert_eq!(mem.read(0x3A), 0xDD);
    let vram = mem.get_vram();
    assert_eq!(vram[0x2468], 0xAA);
    assert_eq!(vram[0x2469], 0xBB);
}

#[test]
fn cgram_colour_reads_back() {
    let mut mem = VideoMem::new();
    mem.write(0x21, 0x10);
    mem.write(0x22, 0x1F);
    mem.write(0x22, 0x7C);
    mem.write(0x21, 0x10);
    assert_eq!(mem.read(0x3B), 0x1F);
    assert_eq!(mem.read(0x3B), 0x7C);
    assert_eq!(mem.get_cgram()[0x20], 0x1F);
    assert_eq!(mem.get_cgram()[0x21], 0x7C);
    assert!(mem.is_cgram_dirty());
}

#[test]
fn palette_decoding() {
    let white = col15_to_col888(0x7FFF);
    assert_eq!((white.r, white.g, white.b), (255, 255, 255));
    let red = col15_to_col888(0x001F);
    assert_eq!((red.r, red.g, red.b), (255, 0, 0));
    let mid = col15_to_col888(0x0010 | (0x08 << 5) | (0x01 << 10));
    assert_eq!((mid.r, mid.g, mid.b), (132, 66, 8));

    let mut mem = VideoMem::new();
    mem.write(0x21, 0x00);
    mem.write(0x22, 0x1F);
    mem.write(0x22, 0x00);
    mem.write(0x21, 0x80);
    mem.write(0x22, 0x00);
    mem.write(0x22, 0x7C);
    let mut palette = PaletteMem::new();
    palette.make_bg_palette(&mem);
    let c = palette.get_bg_colour(0);
    assert_eq!((c.r, c.g, c.b), (255, 0, 0));
    let o = palette.get_obj_colour(0);
    assert_eq!((o.r, o.g, o.b), (0, 0, 0));
    palette.make_obj_palette(&mem);
    let o = palette.get_obj_colour(0);
    assert_eq!((o.r, o.g, o.b), (0, 0, 255));
}

#[test]
fn ppu_frame_signals() {
    let mut ppu = PPU::new();
    ppu.set_int_enable(0x80);
    // Leaving V-blank at line 0 starts the frame.
    assert!(ppu.clock(4) == PPUSignal::FrameStart);
    assert_eq!(ppu.get_status() & 0xC0, 0);
    let mut nmis = 0;
    let mut frame_starts = 0;
    let mut hblanks = 0;
    for _ in 0..(262 * 1364 / 4) {
        let s = ppu.clock(4);
        if s == PPUSignal::Int(Interrupt::NMI) {
            nmis += 1;
            assert_eq!(ppu.get_status() & 0x80, 0x80);
            assert_eq!(ppu.get_nmi_flag(), 0x80);
            assert_eq!(ppu.get_nmi_flag(), 0);
        } else if s == PPUSignal::FrameStart {
            frame_starts += 1;
        } else if s == PPUSignal::HBlank {
            hblanks += 1;
        }
        if ppu.take_draw_request().is_some() {
            assert!(ppu.take_draw_request().is_none());
        }
    }
    assert_eq!(nmis, 1);
    assert_eq!(frame_starts, 1);
    assert_eq!(hblanks, 225);
}

#[test]
fn ppu_v_timer_irq() {
    let mut ppu = PPU::new();
    ppu.set_v_timer_lo(10);
    ppu.set_int_enable(0x20);
    let mut irqs = 0;
    for _ in 0..(262 * 1364 / 4) {
        if ppu.clock(4) == PPUSignal::Int(Interrupt::IRQ) {
            irqs += 1;
            assert_eq!(ppu.get_irq_flag(), 0x80);
            assert_eq!(ppu.get_irq_flag(), 0);
        }
    }
    assert_eq!(irqs, 1);
}

#[test]
fn ppu_hv_latch() {
    let mut ppu = PPU::new();
    ppu.clock(40);
    assert_eq!(ppu.latch_hv(), 0);
    assert_eq!(ppu.read_mem(0x3C), 10);
    assert_eq!(ppu.read_mem(0x3C), 0);
    assert_eq!(ppu.read_mem(0x3D), 0);
}

#[test]
fn bg_cache_sizes() {
    let small = BGCache::new(BGReg { bits: 0x00 }, false);
    assert_eq!(small.mask_x(), 255);
    assert_eq!(small.mask_y(), 255);
    let wide = BGCache::new(BGReg { bits: 0x01 }, true);
    assert_eq!(wide.mask_x(), 1023);
    assert_eq!(wide.mask_y(), 511);
    let tall = BGCache::new(BGReg { bits: 0xFE }, false);
    assert_eq!(tall.mask_x(), 255);
    assert_eq!(tall.mask_y(), 511);
    assert_eq!(tall.get_data(255, 511).texel, 0);
    assert!(tall.check_if_valid(BGReg { bits: 0xFE }, false));
    assert!(!tall.check_if_valid(BGReg { bits: 0xFE }, true));
    assert!(!tall.check_if_valid(BGReg { bits: 0xFC }, false));
}

#[test]
fn pattern_tiles_decode_bitplanes() {
    let mut vram = vec![0u8; 0x10000];
    // 2bpp tile 0 at $1000: row 0 has plane 0 = 0b1000_0001, plane 1 = 0b1000_0000.
    vram[0x1000] = 0x81;
    vram[0x1001] = 0x80;
    // Tile 1, row 7: plane 1 only in pixel 6.
    vram[0x1000 + 16 + 14] = 0x00;
    vram[0x1000 + 16 + 15] = 0x02;
    let mut mem = PatternMem::new(BitsPerPixel::_2);
    mem.set_addr(0x1000, 2);
    assert_eq!(mem.get_start_addr(), 0x1000);
    assert!(mem.get_bits_per_pixel() == BitsPerPixel::_2);
    mem.make_tiles(&vram);
    let t0 = mem.ref_tile(0);
    assert_eq!(t0.get_texel(0, 0), 3);
    assert_eq!(t0.get_texel(7, 0), 1);
    assert_eq!(t0.get_texel(1, 0), 0);
    let t1 = mem.ref_tile(1);
    assert_eq!(t1.get_texel(6, 7), 2);
    // Tile numbers wrap around the 32 tiles.
    assert_eq!(mem.ref_tile(32).get_texel(0, 0), 3);

    // 4bpp: planes 2 and 3 come 16 bytes after planes 0 and 1.
    let mut vram4 = vec![0u8; 0x10000];
    vram4[0x2000 + 16] = 0x80;
    vram4[0x2000 + 17] = 0x80;
    let mut mem4 = PatternMem::new(BitsPerPixel::_4);
    mem4.set_addr_obj(0x2000);
    mem4.make_tiles(&vram4);
    assert_eq!(mem4.ref_tile(0).get_texel(0, 0), 0b1100);

    let mut t = Tile::new();
    assert_eq!(t.get_texel(3, 3), 0);
    t.clear();
    assert_eq!(t.get_texel(7, 7), 0);
}

#[test]
fn vram_low_byte_increment_reads_back() {
    let mut mem = VideoMem::new();
    // Increment after the low byte, by one word.
    mem.write(0x15, 0x00);
    mem.write(0x16, 0x34);
    mem.write(0x17, 0x12);
    mem.write(0x18, 0xAA);
    mem.write(0x19, 0xBB);
    mem.write(0x16, 0x34);
    mem.write(0x17, 0x12);
    assert_eq!(mem.read(0x39), 0xAA);
    assert_eq!(mem.read(0x3A), 0xBB);
    let vram = mem.get_vram();
    assert_eq!(vram[0x2468], 0xAA);
    assert_eq!(vram[0x2469], 0x00);
    assert_eq!(vram[0x246B], 0xBB);
}

#[test]
fn oam_bytes_read_back() {
    let mut mem = VideoMem::new();
    mem.write(0x02, 0x10);
    mem.write(0x03, 0x00);
    mem.write(0x04, 0x21);
    mem.write(0x04, 0x43);
    mem.write(0x02, 0x10);
    mem.write(0x03, 0x00);
    assert_eq!(mem.read(0x38), 0x21);
    assert_eq!(mem.read(0x38), 0x43);
}

#[test]
fn vram_remapped_word_reads_back() {
    let mut mem = VideoMem::new();
    // Remap mode 1, increment after the low byte by 32 words.
    mem.write(0x15, 0x05);
    mem.write(0x16, 0x47);
    mem.write(0x17, 0x03);
    mem.write(0x18, 0x11);
    mem.write(0x19, 0x22);
    mem.write(0x16, 0x47);
    mem.write(0x17, 0x03);
    assert_eq!(mem.read(0x39), 0x11);
    assert_eq!(mem.read(0x3A), 0x22);
}

#[test]
fn oam_high_table_reads_back() {
    let mut mem = VideoMem::new();
    mem.write(0x02, 0x05);
    mem.write(0x03, 0x02);
    mem.write(0x04, 0xE4);
    mem.write(0x02, 0x05);
    mem.write(0x03, 0x02);
    assert_eq!(mem.read(0x38), 0xE4);
    let objects = mem.get_oam();
    // Byte 5 of the high table holds objects 20-23; object 21 gets bits 0b01.
    assert!(!objects[20].large);
    assert_eq!(objects[21].x, -256);
    assert!(objects[23].large);
}

#[test]
fn background_map_decodes_into_cache() {
    let mut mem = VideoMem::new();
    // Increment after the high byte.
    mem.write(0x15, 0x80);
    // Map entries at word 0: tile 1, and tile 1 flipped horizontally.
    mem.write(0x16, 0x00);
    mem.write(0x17, 0x00);
    mem.write(0x18, 0x01);
    mem.write(0x19, 0x00);
    mem.write(0x18, 0x01);
    mem.write(0x19, 0x40);
    // Tile 1 of the pattern data at $4000: pixel (0, 0) has colour 1.
    mem.write(0x16, 0x08);
    mem.write(0x17, 0x20);
    mem.write(0x18, 0x80);
    mem.write(0x19, 0x00);
    let mut tiles = PatternMem::new(BitsPerPixel::_2);
    tiles.set_addr(0x4000, 1);
    tiles.make_tiles(mem.get_vram());
    let mut cache = BGCache::new(BGReg { bits: 0x00 }, false);
    cache.construct(&tiles, &mem, true);
    assert_eq!(cache.get_data(0, 0).texel, 1);
    assert_eq!(cache.get_data(1, 0).texel, 0);
    assert_eq!(cache.get_data(15, 0).texel, 1);
    assert_eq!(cache.get_data(8, 0).texel, 0);
    assert_eq!(cache.get_data(15, 0).attrs.bits, 0x40);
    // Entry 2 is tile 0, which is blank.
    assert_eq!(cache.get_data(16, 0).texel, 0);
    // Nothing is decoded when neither the tiles nor VRAM changed.
    let mut fresh = BGCache::new(BGReg { bits: 0x00 }, false);
    fresh.construct(&tiles, &mem, false);
    assert_eq!(fresh.get_data(0, 0).texel, 0);
}

#[test]
fn vram_borders_hold_tables() {
    let mut regs = lib::video::ram::bgregs::Registers::new();
    regs.set_object_settings(0x01);
    regs.set_bg_mode(0x00);
    regs.set_bg1_settings(0x2B);
    let borders = regs.get_vram_borders();
    assert!(borders.windows(2).all(|w| w[0] < w[1]));
    assert!(borders.contains(&regs.obj0_pattern_addr()));
    assert!(borders.contains(&regs.objn_pattern_addr()));
    let map = regs.bg_map_addr(0);
    for k in 0..4u16 {
        assert!(borders.contains(&map.wrapping_add(k * 0x800)));
    }
}
