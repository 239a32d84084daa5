//! The capability contract every mapper implements: translate a
//! cartridge-space address to a physical offset, or report a miss.

use vstd::prelude::*;

verus! {

/// Bank-count metadata a mapper is constructed from.
#[derive(Clone, Copy, PartialEq, Eq, Structural, Debug)]
pub struct MapperInfo {
    /// Number of 16 KiB program banks.
    pub prg_banks: u8,
    /// Number of 8 KiB character banks.
    pub chr_banks: u8,
}

/// Address translation for one cartridge. Each operation takes a
/// cartridge-space address and yields a physical offset plus a hit/miss
/// indicator; on a miss the output parameter is left as it was. The four
/// `*_map` spec functions are the mapper's pure translation tables, and
/// each executable operation is bound to its table exactly.
pub trait Mapper: Sized {
    /// Where a program-space read of `address` lands, if anywhere.
    spec fn prg_read_map(&self, address: u16) -> Option<u16>;

    /// Where a program-space write of `address` lands, if anywhere.
    spec fn prg_write_map(&self, address: u16) -> Option<u16>;

    /// Where a character-space read of `address` lands, if anywhere.
    spec fn chr_read_map(&self, address: u16) -> Option<u16>;

    /// Where a character-space write of `address` lands, if anywhere.
    spec fn chr_write_map(&self, address: u16) -> Option<u16>;

    /// Translate a program-space read.
    fn map_prg_read(&self, address: u16, address_out: &mut u16) -> (hit: bool)
        ensures
            match self.prg_read_map(address) {
                Some(offset) => hit && *final(address_out) == offset,
                None => !hit && *final(address_out) == *old(address_out),
            },
    ;

    /// Translate a program-space write.
    fn map_prg_write(&self, address: u16, address_out: &mut u16) -> (hit: bool)
        ensures
            match self.prg_write_map(address) {
                Some(offset) => hit && *final(address_out) == offset,
                None => !hit && *final(address_out) == *old(address_out),
            },
    ;

    /// Translate a character-space read.
    fn map_chr_read(&self, address: u16, address_out: &mut u16) -> (hit: bool)
        ensures
            match self.chr_read_map(address) {
                Some(offset) => hit && *final(address_out) == offset,
                None => !hit && *final(address_out) == *old(address_out),
            },
    ;

    /// Translate a character-space write.
    fn map_chr_write(&self, address: u16, address_out: &mut u16) -> (hit: bool)
        ensures
            match self.chr_write_map(address) {
                Some(offset) => hit && *final(address_out) == offset,
                None => !hit && *final(address_out) == *old(address_out),
            },
    ;
}

} // verus!
