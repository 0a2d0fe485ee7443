use lib::expansion::sa1::timer::Timer;
use lib::expansion::sa1::varproc::VarLengthProc;
use lib::expansion::superfx::cache::{Cache, CacheResult};
use lib::expansion::superfx::romcache::ROMCache;
use lib::expansion::superfx::pixelcache::PixelCache;

#[test]
fn sa1_timer_hv_mode() {
    let mut timer = Timer::new();
    timer.write_control(0x01);
    assert!(!timer.clock(4 * 340));
    assert!(timer.clock(4));
    assert_eq!(timer.read_h_lo(), 0);
    assert_eq!(timer.read_v_lo(), 1);
    timer.write_h_lo(0x34);
    timer.write_h_hi(0x03);
    assert_eq!(timer.read_h_lo(), 0x34);
    assert_eq!(timer.read_h_hi(), 0x01);
    timer.restart();
    assert_eq!(timer.read_h_lo(), 0);
    assert_eq!(timer.read_v_hi(), 0);
}

#[test]
fn sa1_timer_linear_mode() {
    let mut timer = Timer::new();
    // Linear, interrupt on V wrap.
    timer.write_control(0x82);
    timer.write_v_lo(0xFF);
    timer.write_v_hi(0x01);
    timer.write_h_lo(0xFF);
    timer.write_h_hi(0x01);
    // H: 511 -> 512 wraps, V: 511 -> 512 wraps.
    assert!(timer.clock(4));
    assert_eq!(timer.read_h_lo(), 0);
    assert_eq!(timer.read_v_lo(), 0);
    assert_eq!(timer.read_v_hi(), 0);
}

#[test]
fn sa1_varproc_settings() {
    let mut vp = VarLengthProc::new();
    vp.write_vbd(0x80);
    vp.write_addr_lo(0x12);
    vp.write_addr_mid(0x34);
    vp.write_addr_hi(0x56);
}

#[test]
fn superfx_code_cache() {
    let mut cache = Cache::new();
    cache.set_cbr(0x1000);
    assert_eq!(cache.get_cbr(), 0x1000);
    assert!(matches!(cache.try_read(0x1005), CacheResult::Request));
    for i in 0..16u16 {
        cache.fill(0x1000 + i, (i as u8) + 1);
    }
    assert!(matches!(cache.try_read(0x1005), CacheResult::InCache(6)));
    assert!(matches!(cache.try_read(0x0FFF), CacheResult::OutsideCache));
    assert!(matches!(cache.try_read(0x1200), CacheResult::OutsideCache));
    assert_eq!(cache.read(5), 6);
    cache.write(0x1FF, 9);
    assert_eq!(cache.read(0x1FF), 9);
    // Moving the base unloads every line.
    cache.set_cbr(0x1000);
    assert!(matches!(cache.try_read(0x1005), CacheResult::Request));
}

#[test]
fn superfx_rom_buffer() {
    let mut rc = ROMCache::new();
    assert_eq!(rc.try_read(0, 0), Some(0));
    assert_eq!(rc.try_read(1, 0x10), None);
    assert_eq!(rc.get_bank(), 1);
    assert_eq!(rc.get_addr(), 0x10);
    assert_eq!(rc.try_read(1, 0x10), None);
    assert!(!rc.clock());
    assert!(rc.clock());
    assert!(!rc.clock());
    rc.load_data(0x77);
    assert_eq!(rc.try_read(1, 0x10), Some(0x77));
    rc.start_loading(2, 0);
    assert_eq!(rc.try_read(2, 0), None);
}

#[test]
fn superfx_pixel_cache_addressing() {
    let mut pc = PixelCache::new();
    assert_eq!(pc.bpp(), 2);
    assert_eq!(pc.flush_bitplane_pairs(), 1);
    assert!(!pc.set_screen_mode(0x01));
    assert_eq!(pc.bpp(), 4);
    assert_eq!(pc.flush_bitplane_pairs(), 2);
    pc.set_screen_base(0x02);
    assert_eq!(pc.calc_tile_addr(8, 9), 0x70_0A22);
    assert!(pc.set_screen_mode(0x13));
    assert_eq!(pc.bpp(), 8);
    assert!(!pc.needs_flush());
    let mut buffer = [[0u8; 2]; 4];
    assert_eq!(pc.flush(&mut buffer), 0);
}

#[test]
fn sa1_timer_latch_survives_clocking() {
    let mut timer = Timer::new();
    timer.write_h_lo(0x10);
    timer.write_h_hi(0x01);
    timer.write_v_lo(0x22);
    assert_eq!(timer.read_h_lo(), 0x10);
    timer.clock(400);
    timer.write_v_lo(0x33);
    assert_eq!(timer.read_h_hi(), 0x01);
    assert_eq!(timer.read_v_lo(), 0x22);
    assert_eq!(timer.read_v_hi(), 0x00);
}
