# Verified SNES components

Parts of a SNES emulator written in Verus: each public function carries a
contract over a mathematical model of its state, and Verus proves that the
code meets it.

- `src/mem`: work RAM, DMA channels, and cartridges: the ROM header, save
  RAM, and the mapping of ROM, save RAM and the DSP into the address space.
- `src/video`: PPU timing and interrupts, video memory (VRAM, CGRAM, OAM)
  behind the B-bus registers, background and window registers, palette and
  tile decoding, and the software renderer: cache setup from video memory,
  background maps decoded into caches, sprites and backgrounds drawn into
  a line, and the layer priorities of modes 0 and 1.
- `src/ext/dsp.rs`: the NEC uPD77C25 DSP found in DSP-1 cartridges.
- `src/expansion`: the expansion-chip interface; the SA-1 memory bus (its
  ports on both sides, I-RAM and BW-RAM with write protection, ROM
  banking, DMA registers and timer); and the Super FX: its caches, memory
  map, registers, cache fills and the instructions that do not go through
  its RAM buffer.
- `src/joypad.rs`: joypads, serial and automatic reading.

`app/main.rs` loads a cartridge from disk, reports what it holds, and
writes its save RAM back. `tests/` exercises the library on concrete
values.
