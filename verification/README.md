# nesboy

A Nintendo Entertainment System core whose behaviour is stated in Verus
contracts and proved: the 6502 CPU, the CPU memory bus, the picture
processing unit with its registers, controller 1, the iNES cartridge format
and the frame renderer.

Layout:

- `src/` — the verified library.
  - `cpu.rs`, `opcodes.rs`: the CPU, its instruction set as a decode table and
    a mathematical model of each instruction (`CpuState`).
  - `bus.rs`: RAM, PRG ROM, PPU register and controller mapping (`BusState`).
  - `ppu.rs`, `add_register.rs`, `controller_register.rs`, `status.rs`,
    `scroll.rs`: the PPU and its registers (`PpuState`).
  - `joypad.rs`: the controller's shift register.
  - `rom_loader.rs`: parsing of iNES images held in memory.
  - `frame.rs`, `palette.rs`: the renderer, specified pixel by pixel.
  - `laws.rs`: properties that relate several operations (mirroring, what a
    read gives back of a write, stack discipline, flag arithmetic).
- `tests/` — tests that run the library on concrete programs and images.
- `app/` — the SDL2 window: reads the ROM file, runs the CPU a frame at a
  time, draws each frame and passes key presses to the controller.
