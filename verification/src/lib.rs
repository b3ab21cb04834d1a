pub mod apu;
pub mod bits;
pub mod bus;
pub mod cartridge;
pub mod console;
pub mod controller;
pub mod cpu;
pub mod emulator;
pub mod ppu;
pub mod renderer;
