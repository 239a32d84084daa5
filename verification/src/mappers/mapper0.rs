//! The simplest bank-switching scheme: program banks fixed in place,
//! character memory read-only.

use vstd::prelude::*;
use crate::mappers::mapper::Mapper;
use crate::mappers::mapper::MapperInfo;

verus! {

/// Mapper scheme 0: one or two fixed 16 KiB program banks exposed at
/// 0x8000..=0xffff (a single bank is mirrored across the range), and one
/// fixed 8 KiB character bank.
#[derive(Clone, Copy, PartialEq, Eq, Structural, Debug)]
pub struct Mapper0 {
    /// The bank-count metadata this mapper was constructed from.
    pub info: MapperInfo,
}

/// Where scheme 0 sends a program-space access: addresses at or above
/// 0x8000 reduce modulo the exposed program size (16 KiB for one bank,
/// 32 KiB for two); lower addresses miss.
pub open spec fn mapper0_prg_map(prg_banks: u8, address: u16) -> Option<u16> {
    if address >= 0x8000 {
        Some(
            if prg_banks == 1 {
                (address % 0x4000) as u16
            } else {
                (address % 0x8000) as u16
            },
        )
    } else {
        None
    }
}

/// Where scheme 0 sends a character-space read: the low 8 KiB map through
/// unchanged; everything else misses.
pub open spec fn mapper0_chr_map(address: u16) -> Option<u16> {
    if address <= 0x1fff {
        Some(address)
    } else {
        None
    }
}

impl Mapper0 {
    /// A scheme-0 mapper over the given bank counts.
    pub fn new(info: MapperInfo) -> (r: Mapper0)
        ensures
            r.info == info,
    {
        Mapper0 { info }
    }
}

impl Mapper for Mapper0 {
    open spec fn prg_read_map(&self, address: u16) -> Option<u16> {
        mapper0_prg_map(self.info.prg_banks, address)
    }

    open spec fn prg_write_map(&self, address: u16) -> Option<u16> {
        mapper0_prg_map(self.info.prg_banks, address)
    }

    open spec fn chr_read_map(&self, address: u16) -> Option<u16> {
        mapper0_chr_map(address)
    }

    open spec fn chr_write_map(&self, address: u16) -> Option<u16> {
        None
    }

    fn map_prg_read(&self, address: u16, address_out: &mut u16) -> (hit: bool) {
        if address >= 0x8000 {
            *address_out = if self.info.prg_banks == 1 {
                address % 0x4000
            } else {
                address % 0x8000
            };
            true
        } else {
            false
        }
    }

    fn map_prg_write(&self, address: u16, address_out: &mut u16) -> (hit: bool) {
        self.map_prg_read(address, address_out)
    }

    fn map_chr_read(&self, address: u16, address_out: &mut u16) -> (hit: bool) {
        if address <= 0x1fff {
            *address_out = address;
            true
        } else {
            false
        }
    }

    fn map_chr_write(&self, address: u16, address_out: &mut u16) -> (hit: bool) {
        false
    }
}

} // verus!
