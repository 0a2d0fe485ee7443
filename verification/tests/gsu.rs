use lib::expansion::superfx::gsu::{FXState, SuperFX};

#[test]
fn gsu_registers_read_back() {
    let mut fx = SuperFX::new();
    fx.write_reg(0x3000, 0x34);
    fx.write_reg(0x3001, 0x12);
    assert_eq!(fx.read_reg(0x3000), 0x34);
    assert_eq!(fx.read_reg(0x3001), 0x12);
    assert_eq!(fx.read_reg(0x303B), 4);
    fx.write_reg(0x3034, 0x01);
    assert_eq!(fx.read_reg(0x3034), 0x01);
    fx.write_reg(0x3105, 0xAB);
    assert_eq!(fx.read_reg(0x3105), 0xAB);
    assert_eq!(fx.read_reg(0x3400), 0);
}

#[test]
fn gsu_start_and_status() {
    let mut fx = SuperFX::new();
    fx.write_reg(0x301E, 0x00);
    fx.write_reg(0x301F, 0x01);
    assert_eq!(fx.read_reg(0x301E), 0x00);
    assert_eq!(fx.read_reg(0x301F), 0x01);
    assert_eq!(fx.get_pc_next(), 0x0101);
    assert_eq!(fx.read_reg(0x3030), 0x20);
    // Clearing GO resets the cache base.
    fx.write_reg(0x3030, 0x06);
    assert_eq!(fx.read_reg(0x3030), 0x06);
    assert_eq!(fx.read_reg(0x303E), 0);
    assert_eq!(fx.read_reg(0x3031), 0);
}

#[test]
fn gsu_jumps_through_cache() {
    let mut fx = SuperFX::new();
    assert!(matches!(fx.get_state(), FXState::Ready));
    // The cache is empty: a jump into the middle of a line fills it first.
    let s = fx.set_pc_reg(0x0005);
    assert!(matches!(s, FXState::WaitCacheFill { current: 0x0000, next: 0x0005 }));
    // Outside the cache the next instruction comes straight from ROM.
    let s = fx.set_pc_reg(0x0400);
    assert!(matches!(s, FXState::Ready));
    assert_eq!(fx.get_pc_next(), 0x0400);
}

#[test]
fn gsu_fills_cache_from_rom() {
    let mut fx = SuperFX::new();
    // The ROM buffer already holds bank 0, address 0.
    let s = fx.fill_cache(0x0000, 0x0005);
    assert!(matches!(s, FXState::WaitCacheFill { current: 0x0001, next: 0x0005 }));
    // The next byte has to be loaded first.
    let s = fx.fill_cache(0x0001, 0x0005);
    assert!(matches!(s, FXState::WaitCacheFill { current: 0x0001, next: 0x0005 }));
    let s = fx.fill_cache(0x0005, 0x0005);
    assert!(matches!(s, FXState::Ready));
    assert_eq!(fx.get_pc_next(), 0x0005);
}

fn set_reg(fx: &mut SuperFX, n: u16, val: u16) {
    fx.write_reg(0x3000 + 2 * n, (val & 0xFF) as u8);
    fx.write_reg(0x3001 + 2 * n, (val >> 8) as u8);
}

fn get_reg(fx: &mut SuperFX, n: u16) -> u16 {
    let lo = fx.read_reg(0x3000 + 2 * n) as u16;
    let hi = fx.read_reg(0x3001 + 2 * n) as u16;
    (hi << 8) | lo
}

#[test]
fn gsu_add_and_sub() {
    let mut fx = SuperFX::new();
    set_reg(&mut fx, 1, 5);
    set_reg(&mut fx, 2, 7);
    // WITH R1; ADD R2
    assert!(matches!(fx.execute_instruction(0x21), FXState::Ready));
    assert!(matches!(fx.execute_instruction(0x52), FXState::Ready));
    assert_eq!(get_reg(&mut fx, 1), 12);
    assert_eq!(fx.read_reg(0x3030) & 0x1E, 0);
    // WITH R3; ALT2; SUB #5 gives zero.
    set_reg(&mut fx, 3, 5);
    fx.execute_instruction(0x23);
    fx.execute_instruction(0x3E);
    fx.execute_instruction(0x65);
    assert_eq!(get_reg(&mut fx, 3), 0);
    assert_eq!(fx.read_reg(0x3030) & 0x02, 0x02);
    // ADD with carry out: 0xFFFF + 1 into R0.
    set_reg(&mut fx, 0, 0xFFFF);
    set_reg(&mut fx, 4, 1);
    fx.execute_instruction(0x54);
    assert_eq!(get_reg(&mut fx, 0), 0);
    assert_eq!(fx.read_reg(0x3030) & 0x06, 0x06);
}

#[test]
fn gsu_inc_dec_and_swap() {
    let mut fx = SuperFX::new();
    set_reg(&mut fx, 4, 0xFFFF);
    fx.execute_instruction(0xD4);
    assert_eq!(get_reg(&mut fx, 4), 0);
    assert_eq!(fx.read_reg(0x3030) & 0x02, 0x02);
    fx.execute_instruction(0xE4);
    assert_eq!(get_reg(&mut fx, 4), 0xFFFF);
    assert_eq!(fx.read_reg(0x3030) & 0x0A, 0x08);
    set_reg(&mut fx, 0, 0x1234);
    fx.execute_instruction(0x4D);
    assert_eq!(get_reg(&mut fx, 0), 0x3412);
}

#[test]
fn gsu_immediate_from_cache() {
    let mut fx = SuperFX::new();
    // Cache line 0 loaded, holding $80 at address 0.
    fx.write_reg(0x3100, 0x80);
    fx.write_reg(0x310F, 0x01);
    // IBT R0: the first cycle asks for the immediate, the second reads it.
    assert!(matches!(fx.execute_instruction(0xA0), FXState::WaitInternal(0xA0)));
    assert!(matches!(fx.execute_instruction(0xA0), FXState::Ready));
    assert_eq!(get_reg(&mut fx, 0), 0xFF80);
}

#[test]
fn gsu_branch_jumps() {
    let mut fx = SuperFX::new();
    fx.write_reg(0x3100, 0x10);
    fx.write_reg(0x310F, 0x01);
    // BRA +$10
    assert!(matches!(fx.execute_instruction(0x05), FXState::WaitInternal(0x05)));
    assert!(matches!(fx.execute_instruction(0x05), FXState::Ready));
    assert_eq!(fx.get_pc_next(), 0x10);
}

#[test]
fn gsu_stop_raises_irq() {
    let mut fx = SuperFX::new();
    fx.write_reg(0x301E, 0x00);
    fx.write_reg(0x301F, 0x00);
    assert_eq!(fx.read_reg(0x3030) & 0x20, 0x20);
    fx.execute_instruction(0x00);
    assert_eq!(fx.read_reg(0x3030) & 0x20, 0);
    assert_eq!(fx.read_reg(0x3031), 0x80);
    // Reading the high byte clears the IRQ flag.
    assert_eq!(fx.read_reg(0x3031), 0x00);
}

#[test]
fn gsu_multiplies() {
    let mut fx = SuperFX::new();
    set_reg(&mut fx, 0, 0x00FE);
    set_reg(&mut fx, 1, 3);
    // MULT R1 takes two cycles at the default settings.
    assert!(matches!(fx.execute_instruction(0x81), FXState::WaitInternal(0x81)));
    assert!(matches!(fx.execute_instruction(0x81), FXState::Ready));
    assert_eq!(get_reg(&mut fx, 0), 0xFFFA);
    // UMULT: ALT1 then $81.
    set_reg(&mut fx, 0, 0x00FE);
    fx.execute_instruction(0x3D);
    fx.execute_instruction(0x81);
    fx.execute_instruction(0x81);
    assert_eq!(get_reg(&mut fx, 0), 0x02FA);
}

#[test]
fn gsu_loop_and_cache() {
    let mut fx = SuperFX::new();
    set_reg(&mut fx, 12, 2);
    set_reg(&mut fx, 13, 0x40);
    assert!(matches!(fx.execute_instruction(0x3C), FXState::Ready));
    assert_eq!(get_reg(&mut fx, 12), 1);
    assert_eq!(fx.get_pc_next(), 0x40);
    set_reg(&mut fx, 15, 0x1234);
    let s = fx.execute_instruction(0x02);
    assert!(matches!(s, FXState::WaitCacheFill { current: 0x1230, .. }));
    assert_eq!(fx.read_reg(0x303E), 0x30);
    assert_eq!(fx.read_reg(0x303F), 0x12);
}
