//! Cartridge mappers: the address-translation schemes that expose a
//! cartridge's program and character banks into the address space.

pub mod mapper;
pub mod mapper0;

pub use mapper::Mapper;
pub use mapper::MapperInfo;
pub use mapper0::Mapper0;
