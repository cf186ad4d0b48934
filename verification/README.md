# nesemu

A NES emulator whose core is verified with Verus.

- `src/` is the verified library: the 6502 CPU (decoder, addressing modes,
  every official and the common unofficial instructions, interrupts), the CPU
  bus with work RAM, controllers and OAM DMA, the PPU (registers, VRAM and
  palette memory, background fetch and rendering into an RGBA picture
  through the NES colour palette), the APU's channels and the commands it sends to the synthesizer's
  oscillators, the cartridge mappers NROM, UxROM, CNROM, MMC1 and MMC3, the
  iNES image reader, the nestest-style trace line, and the emulator's
  per-frame step. Each public function states its result over spec models of
  these parts; the proof functions state laws that span several calls.
- `app/` is the program around it: it opens a ROM file, runs the emulator at
  60 frames per second, writes the trace when `DISASSEMBLE` is set, and turns
  the oscillators' state into audio samples.
- `tests/` runs the library on concrete machines and values.
