pub mod bits;
pub mod interrupts;
pub mod timer;
pub mod joypad;
pub mod cartridge;
pub mod ppu;
pub mod apu;
pub mod bus;
pub mod cpu;
pub mod gameboy;
pub mod dmg_palette;
pub mod config;
