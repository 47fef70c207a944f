//! A cycle-accurate core of the Nintendo Entertainment System: the 6502
//! processor, the picture processor, the DMA and input units, the cartridge
//! mappers, and the bus that couples them.

pub mod apu;
pub mod cpu;
pub mod dma;
pub mod input;
pub mod joystick;
pub mod mapper;
pub mod nes;
pub mod nesbus;
pub mod ppu;
pub mod processor;
pub mod rom;
pub mod util;
