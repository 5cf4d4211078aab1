# vibeboy

A Game Boy (DMG + GBC) emulator core whose behaviour is specified and proved
with Verus.

- `src/` — the verified library: the LR35902 CPU (`cpu/`, with the instruction
  semantics written out in `cpu/isa.rs`), the memory bus, the cartridge mappers
  (MBC0/1/3/5, with the MBC3 real-time clock), the PPU and its scanline
  renderer, the APU channels and frame sequencer, timer, joypad, interrupts,
  the GBC boot-ROM palettes for DMG games, and the top-level `GameBoy` step.
  Each public function states what it does in its `ensures`; laws that relate
  several operations are public `proof fn`s (for example
  `bus::lemma_ram_write_read`, `cpu::lemma_push_pop`,
  `cartridge::lemma_save_load_cart`).
- `app/` — the SDL2 front end: window, input, audio output (the floating-point
  mixer), configuration file and save files.
- `tests/` — instruction-level CPU tests, PPU rendering tests and tests of the
  library's laws on concrete values.
