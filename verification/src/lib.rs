pub mod apu;
pub mod bitops;
pub mod hexfmt;
pub mod bus;
pub mod cartridge;
pub mod controller;
pub mod cpu;
pub mod mapper;
pub mod ppu;
pub mod save;
pub mod system;
pub mod system_debug_cpu;
