use lib::common::Interrupt;
use lib::expansion::sa1::bus::SA1Bus;
use lib::mem::rom::ROM;

fn bus() -> SA1Bus {
    // 64 LoROM banks of 32kB, each filled with its own number.
    let rom: Vec<u8> = (0..0x20_0000u32).map(|i| (i / 0x8000) as u8).collect();
    SA1Bus::new(ROM::new(rom, 0x8000), true)
}

#[test]
fn sa1_status_and_messages() {
    let mut b = bus();
    // The SNES sends message $F and raises the SA-1's IRQ.
    b.snes_write(0x00, 0x2200, 0x8F);
    assert_eq!(b.read(0x00_2301), (0x0F, 2));
    b.write(0x00_220A, 0x80);
    let ints = b.clock(4);
    assert!(ints.irq);
    // Acknowledging clears the IRQ line.
    b.write_sa1_port(0x220B, 0x80);
    let ints = b.clock(4);
    assert!(!ints.irq);
}

#[test]
fn sa1_irq_to_snes() {
    let mut b = bus();
    b.write_sa1_port(0x2209, 0x83);
    assert_eq!(b.snes_read(0x00, 0x2300), 0x83);
    assert!(b.check_snes_interrupts().is_none());
    b.snes_write(0x00, 0x2201, 0x80);
    assert!(matches!(b.check_snes_interrupts(), Some(Interrupt::IRQ)));
    b.snes_write(0x00, 0x2202, 0x80);
    assert!(b.check_snes_interrupts().is_none());
    assert_eq!(b.snes_read(0x00, 0x2300), 0x03);
}

#[test]
fn sa1_replaces_snes_vectors() {
    let mut b = bus();
    b.write_sa1_port(0x220C, 0x34);
    b.write_sa1_port(0x220D, 0x12);
    // Without the vector bit the ROM answers.
    assert_eq!(b.snes_read(0x00, 0xFFEA), 0);
    b.write_sa1_port(0x2209, 0x10);
    assert_eq!(b.snes_read(0x00, 0xFFEA), 0x34);
    assert_eq!(b.snes_read(0x00, 0xFFEB), 0x12);
    // The SA-1's own vectors come from the SNES side.
    b.snes_write(0x00, 0x2203, 0x00);
    b.snes_write(0x00, 0x2204, 0x80);
    assert_eq!(b.read(0x00_FFFC), (0x00, 2));
    assert_eq!(b.read(0x00_FFFD), (0x80, 2));
}

#[test]
fn sa1_iram_write_protection() {
    let mut b = bus();
    b.snes_write(0x00, 0x3010, 0x55);
    assert_eq!(b.snes_read(0x00, 0x3010), 0);
    b.snes_write(0x00, 0x2229, 0x01);
    b.snes_write(0x00, 0x3010, 0x55);
    assert_eq!(b.snes_read(0x00, 0x3010), 0x55);
    assert_eq!(b.read(0x00_0010), (0x55, 2));
    // Area 1 is still protected on the SA-1 side.
    b.write(0x00_0110, 0x66);
    assert_eq!(b.read(0x00_0110), (0, 2));
}

#[test]
fn sa1_bwram_views() {
    let mut b = bus();
    b.snes_write(0x40, 0x1234, 0x77);
    assert_eq!(b.snes_read(0x40, 0x1234), 0);
    b.snes_write(0x00, 0x2226, 0x80);
    b.snes_write(0x40, 0x1234, 0x77);
    assert_eq!(b.snes_read(0x40, 0x1234), 0x77);
    assert_eq!(b.read(0x40_1234), (0x77, 2));
    // Mapped window: block 0 of 8kB.
    assert_eq!(b.snes_read(0x00, 0x7234), 0x77);
    // Bitmap view, two bits a pixel.
    b.write_sa1_port(0x2227, 0x80);
    assert_eq!(b.write(0x60_0001, 0x03), 2);
    assert_eq!(b.read(0x40_0000), (0x0C, 2));
    assert_eq!(b.read(0x60_0001), (0x03, 2));
    // Four bits a pixel.
    b.write_sa1_port(0x223F, 0x80);
    b.write(0x60_0003, 0x0A);
    assert_eq!(b.read(0x40_0001), (0xA0, 2));
    assert_eq!(b.read(0x60_0003), (0x0A, 2));
}

#[test]
fn sa1_rom_banking() {
    let mut b = bus();
    // Default mapping: bank $21 is ROM bank 2*16 + 1.
    assert_eq!(b.snes_read(0x21, 0x8000), 33);
    // Register C with bit 7 set: MB 1.
    b.snes_write(0x00, 0x2220, 0x81);
    assert_eq!(b.snes_read(0x05, 0x8000), 21);
    // Banks $C0-$CF: 32kB halves of 64kB banks.
    assert_eq!(b.snes_read(0xC0, 0x0000), 32);
    assert_eq!(b.snes_read(0xC0, 0x8000), 33);
}

#[test]
fn sa1_nmi_and_reset_lines() {
    let mut b = bus();
    // The reset line starts released: the first clock resets the SA-1.
    assert!(b.clock(1).reset);
    assert!(!b.clock(1).reset);
    b.snes_write(0x00, 0x2200, 0x20);
    assert!(!b.clock(1).reset);
    b.snes_write(0x00, 0x2200, 0x00);
    assert!(b.clock(1).reset);
    // An NMI is taken once.
    b.write_sa1_port(0x220A, 0x10);
    b.snes_write(0x00, 0x2200, 0x10);
    assert!(b.clock(1).nmi);
    assert!(!b.clock(1).nmi);
    // The wait line is passed on.
    b.snes_write(0x00, 0x2200, 0x40);
    assert!(b.clock(1).wait);
    assert_eq!(b.get_cycle_count(), 7);
    assert_eq!(b.get_cycle_count(), 0);
}

#[test]
fn sa1_timer_ports() {
    let mut b = bus();
    b.write_sa1_port(0x2212, 0x20);
    b.write_sa1_port(0x2214, 0x05);
    assert_eq!(b.read(0x00_2302), (0x20, 2));
    assert_eq!(b.read(0x00_2303), (0x00, 2));
    assert_eq!(b.read(0x00_2304), (0x05, 2));
    assert_eq!(b.read(0x00_2305), (0x00, 2));
}
