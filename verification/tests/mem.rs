use lib::mem::{RAM};
use lib::mem::dma::DMAChannel;
use lib::joypad::{Button, JoypadMem};
use lib::expansion::sa1::{map_bank, map_hirom_bank};
use lib::expansion::superfx::mem::FXMem;
use lib::mem::rom::ROM;
use lib::mem::rom::sram::create_sram;

#[test]
fn ram_read_write_and_iter() {
    let mut ram = RAM::new(4);
    ram.write(1, 7);
    ram.write(3, 9);
    assert_eq!(ram.read(1), 7);
    let mut it = ram.iter(2);
    assert_eq!(it.next(), Some(0));
    assert_eq!(it.next(), Some(9));
    assert_eq!(it.next(), Some(0));
    assert_eq!(it.next(), Some(7));
}

#[test]
fn dma_registers_read_back() {
    let mut ch = DMAChannel::new();
    for addr in 1..=0xAu8 {
        ch.write(addr, 0x40 + addr);
    }
    ch.write(0, 0xFF);
    assert_eq!(ch.read(0), 0xDF);
    for addr in 1..=0xAu8 {
        assert_eq!(ch.read(addr), 0x40 + addr);
    }
    ch.write(2, 0x00);
    assert_eq!(ch.read(3), 0x43);
    assert_eq!(ch.get_hdma_table_addr(), 0x44_4948);
}

#[test]
fn joypad_serial_order() {
    let mut pads = JoypadMem::new();
    pads.set_buttons(Button { bits: Button::B | Button::START | Button::R }, 0);
    pads.latch_all();
    let bits: Vec<u8> = (0..20).map(|_| pads.read(0x4016)).collect();
    // B, Y, Select, Start, Up, Down, Left, Right, A, X, L, R, 4 unused, ones.
    assert_eq!(bits, vec![1, 0, 0, 1, 0, 0, 0, 0, 0, 0, 0, 1, 0, 0, 0, 0, 1, 1, 1, 1]);
    // Pad 2 has nothing pressed.
    assert_eq!(pads.read(0x4017), 0);
}

#[test]
fn joypad_auto_read() {
    let mut pads = JoypadMem::new();
    pads.set_buttons(lib::Button::A.joypad_button(), 1);
    pads.set_buttons(lib::Button::Up.joypad_button(), 1);
    assert_eq!(pads.is_ready(), 1);
    pads.prepare_read();
    assert_eq!(pads.is_ready(), 1);
    pads.enable_counter(1);
    pads.prepare_read();
    assert_eq!(pads.is_ready(), 0);
    assert_eq!(pads.read(0x421A), 0x80);
    assert_eq!(pads.read(0x421B), 0x08);
    assert_eq!(pads.read(0x4218), 0);
    assert_eq!(pads.read(0x4000), 0);
}

#[test]
fn button_bits() {
    assert_eq!(lib::Button::B.joypad_button().bits, 0x8000);
    assert_eq!(lib::Button::R.joypad_button().bits, 0x0010);
    assert_eq!(lib::Button::Select.joypad_button().bits, 0x2000);
}

#[test]
fn sa1_bank_mapping() {
    assert_eq!(map_bank(0x15, 0x83), 0x35);
    assert_eq!(map_bank(0xFF, 0x07), 0x7F);
    assert_eq!(map_hirom_bank(0xC5, 0x02, false, 0x9000), 0x25);
    assert_eq!(map_hirom_bank(0xC5, 0x02, true, 0x9000), 0x4B);
    assert_eq!(map_hirom_bank(0xC5, 0x02, true, 0x1000), 0x4A);
}

#[test]
fn superfx_memory_map() {
    let image: Vec<u8> = (0..0x40000u32).map(|i| (i / 0x8000) as u8 ^ (i as u8)).collect();
    let expected = image.clone();
    let mut mem = FXMem::new(ROM::new(image, 0x8000), create_sram(0x20000, None).unwrap());
    assert_eq!(mem.snes_read(0x01, 0x8003), expected[0x8003]);
    assert_eq!(mem.fx_read(0x01, 0x0003), expected[0x8003]);
    // Banks $40-$5F: 64kB banks made of two ROM banks.
    assert_eq!(mem.fx_read(0x41, 0x8003), expected[3 * 0x8000 + 3]);
    assert_eq!(mem.snes_read(0x41, 0x0003), expected[2 * 0x8000 + 3]);
    mem.fx_write(0x71, 0x0004, 0x5A);
    assert_eq!(mem.fx_read(0x71, 0x0004), 0x5A);
    assert_eq!(mem.snes_read(0x71, 0x0004), 0x5A);
    mem.snes_write(0x00, 0x6010, 0x66);
    assert_eq!(mem.fx_read(0x70, 0x0010), 0x66);
    assert_eq!(mem.fx_read(0x60, 0x0000), 0);
    assert!(mem.flush().is_some());
    assert!(mem.flush().is_none());
}

#[test]
fn dma_transfer_addressing() {
    let mut ch = DMAChannel::new();
    // Mode 1 (two bytes per unit), A-bus address incrementing.
    ch.write(0, 0x01);
    ch.write(1, 0x18);
    ch.write(2, 0xFE);
    ch.write(3, 0xFF);
    ch.write(4, 0x7E);
    ch.write(5, 0x02);
    ch.write(6, 0x00);
    assert_eq!(ch.get_cycles(), 16);
    assert_eq!(ch.get_b_bus_addr(), 0x2118);
    assert_eq!(ch.get_a_bus_addr(), 0x7E_FFFE);
    // The address wraps within the bank.
    assert_eq!(ch.get_a_bus_addr(), 0x7E_0000);
    assert!(!ch.decrement_count());
    assert!(ch.decrement_count());
    // Decrementing mode.
    ch.write(0, 0x10);
    ch.write(2, 0x01);
    ch.write(3, 0x00);
    assert_eq!(ch.get_a_bus_addr(), 0x7E_0001);
    assert_eq!(ch.get_a_bus_addr(), 0x7E_0000);
    // Fixed address.
    ch.write(0, 0x08);
    assert_eq!(ch.get_a_bus_addr(), 0x7E_FFFF);
    assert_eq!(ch.get_a_bus_addr(), 0x7E_FFFF);
}

#[test]
fn hdma_table_walk() {
    let mut ch = DMAChannel::new();
    ch.write(0, 0x00);
    ch.write(2, 0x00);
    ch.write(3, 0x80);
    ch.write(4, 0x01);
    ch.start_hdma();
    assert_eq!(ch.get_hdma_table_addr(), 0x01_8000);
    assert!(ch.hdma_init_instr(0x83));
    assert!(ch.should_repeat());
    assert_eq!(ch.get_hdma_table_addr(), 0x01_8001);
    assert_eq!(ch.get_data_addr(), 0x01_8001);
    assert_eq!(ch.get_hdma_table_addr(), 0x01_8002);
    assert!(ch.hdma_step_line());
    assert!(ch.hdma_step_line());
    assert!(!ch.hdma_step_line());
    assert!(!ch.hdma_init_instr(0));
    // Indirect mode.
    ch.write(0, 0x40);
    ch.write(7, 0x7F);
    ch.set_indirect_table_addr(0x1234);
    assert_eq!(ch.get_hdma_table_addr(), 0x01_8004);
    assert_eq!(ch.get_data_addr(), 0x7F_1234);
    assert_eq!(ch.get_data_addr(), 0x7F_1235);
}
