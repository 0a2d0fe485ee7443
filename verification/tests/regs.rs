use lib::video::ram::bgregs::Registers;
use lib::video::ram::windowregs::WindowRegisters;

#[test]
fn bg_registers() {
    let mut regs = Registers::new();
    regs.set_bg1_scroll_x(0x34);
    regs.set_bg1_scroll_x(0x12);
    assert_eq!(regs.get_bg_scroll_x(0), 0x234);
    regs.set_bg2_scroll_y(0xFF);
    regs.set_bg2_scroll_y(0x00);
    assert_eq!(regs.get_bg_scroll_y(1), 0xFF);
    regs.set_bg1_settings(0x7C);
    assert_eq!(regs.get_bg_settings(0).bits, 0x7C);
    assert_eq!(regs.bg_map_addr(0), 0xF800);
    regs.set_bg_mode(0x13);
    assert_eq!(regs.get_mode(), 3);
    assert!(regs.bg_large_tiles(0));
    assert!(!regs.bg_large_tiles(1));
    assert!(!regs.get_bg3_priority());
    regs.set_mosaic(0x31);
    assert!(regs.bg_mosaic_enabled(0));
    assert!(!regs.bg_mosaic_enabled(1));
    assert_eq!(regs.bg_mosaic_mask(), 4);
    regs.set_screen_display(0x80);
    assert!(regs.in_fblank());
    regs.set_object_settings(0x03);
    assert_eq!(regs.get_object_settings(), 0x03);
    assert_eq!(regs.obj0_pattern_addr(), 0xC000);
    let borders = regs.get_vram_borders();
    assert!(borders.windows(2).all(|w| w[0] < w[1]));
}

#[test]
fn window_masks() {
    let mut w = WindowRegisters::new();
    w.set_main_screen_desg(0x01);
    assert!(w.show_bg_pixel_main(0, 10));
    assert!(!w.show_bg_pixel_main(1, 10));
    w.set_main_mask_desg(0x01);
    w.set_window_1_left(20);
    w.set_window_1_right(40);
    // Window 1 enabled for BG1: pixels inside it show.
    w.set_mask_bg1_2(0x02);
    assert!(!w.show_bg_pixel_main(0, 10));
    assert!(w.show_bg_pixel_main(0, 30));
    // Inverted.
    w.set_mask_bg1_2(0x03);
    assert!(w.show_bg_pixel_main(0, 10));
    assert!(!w.show_bg_pixel_main(0, 30));
    // Both windows, combined with AND.
    w.set_window_2_left(35);
    w.set_window_2_right(50);
    w.set_mask_bg1_2(0x0A);
    w.set_mask_logic_bg(0x01);
    assert!(w.show_bg_pixel_main(0, 38));
    assert!(!w.show_bg_pixel_main(0, 30));
    // Sprites on the sub screen, unmasked.
    w.set_sub_screen_desg(0x10);
    assert!(w.show_obj_pixel_sub(5));
    assert!(!w.show_obj_pixel_main(5));
    assert!(!w.show_bg_pixel_sub(0, 5));
}

#[test]
fn fixed_colour() {
    let mut w = WindowRegisters::new();
    w.set_fixed_colour(0x3F);
    w.set_fixed_colour(0xC1);
    let c = w.get_fixed_colour();
    assert_eq!((c.r, c.g, c.b), (255, 8, 8));
}
