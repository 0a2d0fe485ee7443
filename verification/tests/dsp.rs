use lib::ext::dsp::DSP;
use lib::expansion::Expansion;

fn blank_dsp() -> DSP {
    DSP::new(&vec![0u8; 0x2000])
}

#[test]
fn data_register_16bit_round_trip() {
    let mut dsp = blank_dsp();
    dsp.write_dr(0xCD);
    dsp.write_dr(0xAB);
    assert_eq!(dsp.read_dr(), 0xCD);
    assert_eq!(dsp.read_dr(), 0xAB);
    // The low byte is due again.
    assert_eq!(dsp.read_dr(), 0xCD);
}

#[test]
fn data_register_8bit_round_trip() {
    let mut dsp = blank_dsp();
    // DRC (bit 10 of SR, bit 2 of its high byte): 8-bit transfers.
    dsp.write_sr(0x04);
    assert_eq!(dsp.read_sr(), 0x04);
    dsp.write_dr(0x5A);
    assert_eq!(dsp.read_dr(), 0x5A);
    assert_eq!(dsp.read_dr(), 0x5A);
}

#[test]
fn status_register_keeps_only_existing_bits() {
    let mut dsp = blank_dsp();
    // RQM and DRS cannot be written; bits 14-8 other than DRS can.
    dsp.write_sr(0xFF);
    assert_eq!(dsp.read_sr(), 0x6F);
}

#[test]
fn reset_clears_registers() {
    let mut dsp = blank_dsp();
    dsp.write_sr(0x04);
    dsp.write_dr(0x12);
    dsp.trigger_reset();
    assert_eq!(dsp.read_sr(), 0);
    assert_eq!(dsp.read_dr(), 0);
}

#[test]
fn expansion_interface() {
    let mut dsp = blank_dsp();
    dsp.write(0, 0, 0x11);
    dsp.write(0, 0, 0x22);
    assert_eq!(dsp.read(0, 0), 0x11);
    assert_eq!(dsp.read(0, 0), 0x22);
    dsp.write(1, 0, 0x04);
    assert_eq!(dsp.read(1, 0), 0x04);
    assert!(dsp.clock(1000).is_none());
}

#[test]
fn blank_program_runs_without_faulting() {
    let mut dsp = blank_dsp();
    assert!(!dsp.next_faults());
    for _ in 0..100 {
        dsp.step();
    }
    dsp.trigger_int();
    dsp.run_master_cycles(2_147_727);
    assert!(!dsp.next_faults());
}

fn put_instr(rom: &mut Vec<u8>, n: usize, instr: u32) {
    rom[3 * n] = (instr & 0xFF) as u8;
    rom[3 * n + 1] = ((instr >> 8) & 0xFF) as u8;
    rom[3 * n + 2] = (instr >> 16) as u8;
}

#[test]
fn call_then_return_resumes_after_call() {
    let mut rom = vec![0u8; 0x2000];
    // 0: CALL 2; 1: LD #$1234 -> DR; 2: RET.
    put_instr(&mut rom, 0, 0xA8_0008);
    put_instr(&mut rom, 1, 0xC0_0000 | (0x1234 << 6) | 6);
    put_instr(&mut rom, 2, 0x40_0000);
    let mut dsp = DSP::new(&rom);
    dsp.step();
    dsp.step();
    dsp.step();
    assert_eq!(dsp.read_dr(), 0x34);
    assert_eq!(dsp.read_dr(), 0x12);
}

#[test]
fn last_instruction_reads_its_own_bytes_and_wraps() {
    let mut rom = vec![0u8; 0x2000];
    // 0: JMP 2047; 2047: LD #$0042 -> DR; then back to 0.
    put_instr(&mut rom, 0, 0xA0_1FFC);
    put_instr(&mut rom, 2047, 0xC0_0000 | (0x0042 << 6) | 6);
    let mut dsp = DSP::new(&rom);
    dsp.step();
    dsp.step();
    assert_eq!(dsp.read_dr(), 0x42);
    assert_eq!(dsp.read_dr(), 0x00);
    // The counter wrapped to instruction 0: the jump is taken again.
    dsp.write_dr(0x00);
    dsp.write_dr(0x00);
    dsp.step();
    dsp.step();
    assert_eq!(dsp.read_dr(), 0x42);
}

#[test]
fn data_register_round_trip_clears_request() {
    let mut dsp = blank_dsp();
    dsp.write_dr(0x12);
    dsp.write_dr(0x34);
    assert_eq!(dsp.read_dr(), 0x12);
    assert_eq!(dsp.read_dr(), 0x34);
    // Neither RQM (bit 7) nor DRS (bit 4) of the status high byte is set.
    assert_eq!(dsp.read_sr() & 0x90, 0);
}
