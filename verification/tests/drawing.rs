use lib::video::ram::VideoMem;
use lib::video::ram::windowregs::WindowRegisters;
use lib::video::render::VideoMode;
use lib::video::render::drawing::{Pixel, Renderer, SpriteColour, SpritePixel};
use lib::video::render::bgcache::{BGData, TileAttributes};
use lib::video::render::Colour;
use lib::video::render::palette::col15_to_col888;
use lib::video::render::patternmem::BitsPerPixel;

fn sprite_mem() -> VideoMem {
    let mut mem = VideoMem::new();
    // Tile 1 of the first sprite table: row 0, pixel 0 has colour 1, pixel 1
    // has colour 2 (bitplane 1).
    mem.write(0x16, 0x10);
    mem.write(0x17, 0x00);
    mem.write(0x18, 0x80);
    mem.write(0x16, 0x10);
    mem.write(0x17, 0x00);
    mem.write(0x15, 0x80);
    mem.write(0x19, 0x40);
    // Object 0 at (10, 5), tile 1, priority 3, palette 0.
    mem.write(0x02, 0x00);
    mem.write(0x03, 0x00);
    mem.write(0x04, 10);
    mem.write(0x04, 5);
    mem.write(0x04, 1);
    mem.write(0x04, 0x30);
    // Sprite colour 1 is pure red.
    mem.write(0x21, 129);
    mem.write(0x22, 0x1F);
    mem.write(0x22, 0x00);
    mem
}

#[test]
fn sprites_draw_into_line() {
    let mem = sprite_mem();
    let mut window = WindowRegisters::new();
    window.set_main_screen_desg(0x10);
    let mut renderer = Renderer::new();
    renderer.setup_obj_caches(&mem);
    let mut main = vec![SpritePixel::Empty; 256];
    let mut sub = vec![SpritePixel::Empty; 256];
    renderer.draw_sprites_to_line(&mem, &window, &mut main, &mut sub, 5);
    match main[10] {
        SpritePixel::Prio3(c) => {
            assert_eq!(c.colour.r, col15_to_col888(0x001F).r);
            assert_eq!(c.colour.g, 0);
            assert!(!c.col_math);
        },
        _ => panic!("expected a priority 3 sprite pixel"),
    }
    assert!(matches!(main[11], SpritePixel::Prio3(_)));
    assert!(matches!(main[12], SpritePixel::Empty));
    assert!(matches!(main[9], SpritePixel::Empty));
    // Sprites are not enabled on the sub screen.
    assert!(sub.iter().all(|p| p.is_masked()));
    // Line 13 is below the sprite.
    let mut main = vec![SpritePixel::Empty; 256];
    let mut sub = vec![SpritePixel::Empty; 256];
    renderer.draw_sprites_to_line(&mem, &window, &mut main, &mut sub, 13);
    assert!(matches!(main[10], SpritePixel::Empty));
}

#[test]
fn flipped_sprite_draws_mirrored() {
    let mut mem = sprite_mem();
    // Flip object 0 horizontally: pixel 0 of the tile lands at column 17.
    mem.write(0x02, 0x00);
    mem.write(0x03, 0x00);
    mem.write(0x04, 10);
    mem.write(0x04, 5);
    mem.write(0x04, 1);
    mem.write(0x04, 0x70);
    let mut window = WindowRegisters::new();
    window.set_main_screen_desg(0x10);
    let mut renderer = Renderer::new();
    renderer.setup_obj_caches(&mem);
    let mut main = vec![SpritePixel::Empty; 256];
    let mut sub = vec![SpritePixel::Empty; 256];
    renderer.draw_sprites_to_line(&mem, &window, &mut main, &mut sub, 5);
    assert!(matches!(main[17], SpritePixel::Prio3(_)));
    assert!(matches!(main[16], SpritePixel::Prio3(_)));
    assert!(matches!(main[10], SpritePixel::Empty));
}

#[test]
fn masked_pixels_stay_masked() {
    let mem = sprite_mem();
    let window = WindowRegisters::new();
    let mut renderer = Renderer::new();
    renderer.setup_obj_caches(&mem);
    let mut main = vec![SpritePixel::Empty; 256];
    let mut sub = vec![SpritePixel::Masked; 256];
    renderer.draw_sprites_to_line(&mem, &window, &mut main, &mut sub, 5);
    assert!(main.iter().all(|p| p.is_masked()));
    assert!(sub.iter().all(|p| p.is_masked()));
}

#[test]
fn switch_mode_sets_depths() {
    let mut renderer = Renderer::new();
    assert!(matches!(renderer.get_mode(), VideoMode::_7));
    renderer.switch_mode(VideoMode::_1);
    assert_eq!(renderer.bg_bits_per_pixel(0), BitsPerPixel::_4);
    assert_eq!(renderer.bg_bits_per_pixel(1), BitsPerPixel::_4);
    assert_eq!(renderer.bg_bits_per_pixel(2), BitsPerPixel::_2);
    assert_eq!(renderer.num_bgs(), 3);
    renderer.switch_mode(VideoMode::_3);
    assert_eq!(renderer.bg_bits_per_pixel(0), BitsPerPixel::_8);
    assert_eq!(renderer.bg_bits_per_pixel(1), BitsPerPixel::_4);
    assert_eq!(renderer.num_bgs(), 2);
    renderer.switch_mode(VideoMode::_4);
    assert_eq!(renderer.bg_bits_per_pixel(0), BitsPerPixel::_8);
    assert_eq!(renderer.bg_bits_per_pixel(1), BitsPerPixel::_2);
    renderer.switch_mode(VideoMode::_0);
    assert_eq!(renderer.bg_bits_per_pixel(0), BitsPerPixel::_2);
    assert_eq!(renderer.bg_bits_per_pixel(1), BitsPerPixel::_2);
    assert_eq!(renderer.num_bgs(), 4);
    renderer.switch_mode(VideoMode::_6);
    assert_eq!(renderer.bg_bits_per_pixel(0), BitsPerPixel::_4);
    assert_eq!(renderer.bg_bits_per_pixel(1), BitsPerPixel::_2);
    renderer.switch_mode(VideoMode::_7);
    assert_eq!(renderer.bg_bits_per_pixel(0), BitsPerPixel::_4);
}

fn bg(texel: u8, attrs: u8) -> BGData {
    BGData { texel: texel, attrs: TileAttributes { bits: attrs } }
}

fn sprite_colour(col_math: bool) -> SpriteColour {
    SpriteColour { colour: Colour { r: 1, g: 2, b: 3 }, col_math: col_math }
}

#[test]
fn mode_0_layer_priorities() {
    let r = Renderer::new();
    let clear = bg(0, 0);
    // A priority 3 sprite is in front of a high priority background tile.
    let p = r.eval_mode_0(SpritePixel::Prio3(sprite_colour(true)), bg(1, 0x20), clear, clear, clear);
    assert!(matches!(p, Pixel::ObjHi(_)));
    // High priority BG2 is in front of low priority BG1.
    let p = r.eval_mode_0(SpritePixel::Empty, bg(1, 0), bg(2, 0x20), clear, clear);
    assert!(matches!(p, Pixel::BG2(_)));
    // A priority 2 sprite is in front of low priority BG1.
    let p = r.eval_mode_0(SpritePixel::Prio2(sprite_colour(false)), bg(1, 0), clear, clear, clear);
    assert!(matches!(p, Pixel::ObjLo(_)));
    // But behind high priority BG1.
    let p = r.eval_mode_0(SpritePixel::Prio2(sprite_colour(false)), bg(1, 0x20), clear, clear, clear);
    assert!(matches!(p, Pixel::BG1(_)));
    // A priority 0 sprite is behind high priority BG4 but in front of low BG3.
    let p = r.eval_mode_0(SpritePixel::Prio0(sprite_colour(false)), clear, clear, clear, bg(3, 0x20));
    assert!(matches!(p, Pixel::BG4(_)));
    let p = r.eval_mode_0(SpritePixel::Prio0(sprite_colour(false)), clear, clear, bg(3, 0), clear);
    assert!(matches!(p, Pixel::ObjLo(_)));
    let p = r.eval_mode_0(SpritePixel::Empty, clear, clear, clear, clear);
    assert!(matches!(p, Pixel::Clear));
    assert!(p.any().is_none());
}

#[test]
fn mode_1_layer_priorities() {
    let r = Renderer::new();
    let clear = bg(0, 0);
    // BG3 in front of everything when its priority bit is set in the mode.
    let p = r.eval_mode_1(true, SpritePixel::Prio3(sprite_colour(false)), bg(1, 0x20), clear, bg(1, 0));
    assert!(matches!(p, Pixel::BG3(_)));
    let p = r.eval_mode_1(false, SpritePixel::Prio3(sprite_colour(false)), bg(1, 0x20), clear, bg(1, 0));
    assert!(matches!(p, Pixel::ObjLo(_)));
    let p = r.eval_mode_1(false, SpritePixel::Prio1(sprite_colour(true)), clear, clear, bg(1, 0x20));
    assert!(matches!(p, Pixel::ObjHi(_)));
    let p = r.eval_mode_1(false, SpritePixel::Prio0(sprite_colour(true)), clear, clear, bg(1, 0x20));
    assert!(matches!(p, Pixel::BG3(_)));
    match r.eval_mode_1(false, SpritePixel::Empty, clear, bg(5, 0x04), clear) {
        Pixel::BG2(c) => assert_eq!(c.r, 0),
        _ => panic!("expected BG2"),
    }
}

#[test]
fn background_line_follows_window() {
    let r = Renderer::new();
    let regs = lib::video::ram::bgregs::Registers::new();
    let mut window = WindowRegisters::new();
    window.set_main_screen_desg(0x01);
    let mut main = vec![bg(9, 0); 256];
    let mut sub = vec![bg(9, 0); 256];
    r.draw_bg_to_line(&regs, &window, 0, &mut main, &mut sub, 10);
    // BG1 shows on the main screen only; its cache is still blank.
    assert!(main.iter().all(|d| d.texel == 0));
    assert!(sub.iter().all(|d| d.texel == 9));
    // BG2 is not enabled anywhere.
    let mut main = vec![bg(9, 0); 256];
    let mut sub = vec![bg(9, 0); 256];
    r.draw_bg_to_line(&regs, &window, 1, &mut main, &mut sub, 10);
    assert!(main.iter().all(|d| d.texel == 9));
}

#[test]
fn caches_follow_video_memory() {
    let mut mem = VideoMem::new();
    // Sprite tables at $2000 and $3000, mode 7 (two backgrounds), BG1 map
    // at $5000, BG1 characters at $2000, BG2 characters at $4000.
    mem.write(0x01, 0x01);
    mem.write(0x05, 0x07);
    mem.write(0x07, 0x28);
    mem.write(0x0B, 0x21);
    mem.write(0x15, 0x80);
    // Map entry 0: tile 1.
    mem.write(0x16, 0x00);
    mem.write(0x17, 0x28);
    mem.write(0x18, 0x01);
    mem.write(0x19, 0x00);
    // Tile 1 of BG1: pixel (0, 0) has colour 1.
    mem.write(0x16, 0x08);
    mem.write(0x17, 0x10);
    mem.write(0x18, 0x80);
    mem.write(0x19, 0x00);
    let mut r = Renderer::new();
    r.setup_caches(&mem);
    assert!(matches!(r.get_mode(), VideoMode::_7));
    assert_eq!(r.bg_bits_per_pixel(0), BitsPerPixel::_2);
    let regs = lib::video::ram::bgregs::Registers::new();
    let mut window = WindowRegisters::new();
    window.set_main_screen_desg(0x01);
    let mut main = vec![bg(9, 0); 256];
    let mut sub = vec![bg(9, 0); 256];
    r.draw_bg_to_line(&regs, &window, 0, &mut main, &mut sub, 0);
    assert_eq!(main[0].texel, 1);
    assert_eq!(main[1].texel, 0);
    assert!(sub.iter().all(|d| d.texel == 9));
}
