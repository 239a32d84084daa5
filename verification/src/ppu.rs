//! The video-register window: eight addressable byte registers, mirrored
//! across their address range by the bus.
//!
//! Only the register read/write contract matters to the processor core;
//! rendering state and timing are outside this crate. Reads of the window
//! yield 0xff and writes are dropped, the stub behavior the core is
//! developed against.

use vstd::prelude::*;

verus! {

/// The video-register window attached to the bus.
pub struct PPU {}

impl PPU {
    /// A fresh register window.
    pub fn new() -> (r: PPU) {
        PPU {  }
    }

    /// Read one of the eight registers. Callers must mask the index to
    /// 3 bits before dispatching here.
    pub fn read_register(&self, address: u16) -> (data: u8)
        requires
            address < 8,
        ensures
            data == 0xff,
    {
        0xff
    }

    /// Write one of the eight registers. Callers must mask the index to
    /// 3 bits before dispatching here. The stub window drops the value.
    pub fn write_register(&mut self, address: u16, data: u8)
        requires
            address < 8,
        ensures
            *final(self) == *old(self),
    {
    }
}

} // verus!
