//! A Nintendo Entertainment System core: the 6502 CPU, the memory bus, the
//! picture processing unit and its registers, the controller port, the iNES
//! cartridge format and the frame renderer.

pub mod add_register;
pub mod buffer;
pub mod bus;
pub mod controller_register;
pub mod frame;
pub mod cpu;
pub mod joypad;
pub mod laws;
pub mod opcodes;
pub mod palette;
pub mod ppu;
pub mod rom_loader;
pub mod scroll;
pub mod status;
