//! A Nintendo Entertainment System emulator core: the 6502 CPU, the PPU,
//! the cartridge mappers, the APU channels and the machine that ties them.

pub mod apu;
pub mod bus;
pub mod cpu;
pub mod cpu_model;
pub mod ines;
pub mod instruction;
pub mod machine;
pub mod ppu;
pub mod render;
pub mod utils;
