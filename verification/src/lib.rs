//! An interpreter for the 6502-family processor at the heart of the NES,
//! modeled bit-for-bit: registers, flags, addressing modes (including the
//! indirect-jump page-boundary bug and page-crossing extra cycles), a
//! memory-mapped bus with a cycle counter, and a cartridge mapper.

pub mod arith;
pub mod flags;
pub mod ppu;
pub mod mappers;
pub mod catridge;
pub mod bus;
pub mod cpu;
pub mod dispatch;
pub mod instructions;

pub use bus::Bus;
pub use catridge::Catridge;
pub use cpu::CPU;
pub use mappers::Mapper;
pub use mappers::MapperInfo;
pub use mappers::Mapper0;
pub use ppu::PPU;
