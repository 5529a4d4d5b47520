# mad_nes

A Nintendo Entertainment System emulator core whose behaviour is stated in
contracts and proved with Verus, and a small SDL front end around it.

## Layout

- `src/` is the verified library:
  - `instruction.rs`: the 6502 instruction set and its decoding from bytes;
  - `cpu_model.rs`: the mathematical model of the CPU: state, flags, and what
    each instruction does, with the laws of arithmetic, the stack and calls;
  - `cpu.rs`: the executable CPU, proved to follow the model;
  - `ines.rs`: iNES cartridges and the NROM, SxROM (MMC1), UNROM, CNROM and
    TxROM (MMC3) mappers;
  - `ppu.rs`: the picture processing unit, dot by dot: registers, background
    and sprite rendering, sprite 0 hits, vertical blank;
  - `apu.rs`: the pulse, triangle and noise channels and the frame counter;
  - `bus.rs`: the CPU bus, its mirrors and the controller;
  - `machine.rs`: the machine that runs the CPU and the PPU together;
  - `render.rs`: what the screen and the debugging views show;
  - `utils.rs`: number formatting for the debugging views.
- `tests/` runs the library on concrete programs, cartridges and registers.
- `app/` is the program: reading the ROM file, the SDL window, the keyboard,
  and the audio queue (the mixing tables are floating point).

The program takes the path of an iNES file as its argument.
