//! A cartridge: program and character memory behind a mapper, constructed
//! from a raw image whose 16-byte header carries the mapper identifier and
//! the bank counts.

use vstd::prelude::*;
use crate::mappers::mapper::Mapper;
use crate::mappers::mapper::MapperInfo;
use crate::mappers::mapper0::Mapper0;
use crate::mappers::mapper0::mapper0_prg_map;

verus! {

/// Mathematical model of a cartridge: its bank counts and the contents of
/// its program and character memory.
#[verifier::ext_equal]
pub struct CartView {
    pub prg_banks: u8,
    pub chr_banks: u8,
    pub prg: Seq<u8>,
    pub chr: Seq<u8>,
}

impl CartView {
    /// The memory regions are exactly as large as the header's bank counts
    /// announce, and the bank count is one the mapper scheme supports, so
    /// that every translated offset lands inside the region.
    pub open spec fn wf(self) -> bool {
        &&& (self.prg_banks == 1 || self.prg_banks == 2)
        &&& self.prg.len() == self.prg_banks * 0x4000
        &&& self.chr.len() == self.chr_banks * 0x2000
    }
}

/// The mapper identifier carried by an image header: the high nibble of
/// byte 7 joined with the high nibble of byte 6.
pub open spec fn header_mapper_id(d: Seq<u8>) -> u8 {
    ((d[7] / 16) * 16 + d[6] / 16) as u8
}

/// Whether a raw image can be made into a cartridge: a full 16-byte header,
/// the supported mapper scheme, a bank count that scheme accepts, and
/// enough bytes after the header to fill every announced bank.
pub open spec fn header_ok(d: Seq<u8>) -> bool {
    &&& d.len() >= 16
    &&& header_mapper_id(d) == 0
    &&& (d[4] == 1 || d[4] == 2)
    &&& d.len() >= 16 + d[4] * 0x4000 + d[5] * 0x2000
}

/// A cartridge attached to the bus.
pub struct Catridge {
    mapper: Mapper0,
    prg_memory: Vec<u8>,
    chr_memory: Vec<u8>,
}

/// The byte a program-space read of the cartridge yields: the mapped
/// program byte on a translation hit, or the open-bus value 0 on a miss.
pub open spec fn cart_prg_value(c: CartView, address: u16) -> u8 {
    match mapper0_prg_map(c.prg_banks, address) {
        Some(offset) => c.prg[offset as int],
        None => 0,
    }
}

/// The cartridge after a program-space write: the mapped program byte is
/// replaced on a translation hit, and the write is dropped on a miss.
pub open spec fn cart_prg_written(c: CartView, address: u16, data: u8) -> CartView {
    match mapper0_prg_map(c.prg_banks, address) {
        Some(offset) => CartView { prg: c.prg.update(offset as int, data), ..c },
        None => c,
    }
}

impl View for Catridge {
    type V = CartView;

    closed spec fn view(&self) -> CartView {
        CartView {
            prg_banks: self.mapper.info.prg_banks,
            chr_banks: self.mapper.info.chr_banks,
            prg: self.prg_memory@,
            chr: self.chr_memory@,
        }
    }
}

impl Catridge {
    /// Build a cartridge from a raw image. Yields the cartridge exactly
    /// when the header is acceptable: the program memory is the image's
    /// first announced region after the header, the character memory the
    /// region after that.
    pub fn new(data: &[u8]) -> (r: Option<Catridge>)
        ensures
            match r {
                Some(c) => {
                    &&& header_ok(data@)
                    &&& c@.wf()
                    &&& c@.prg_banks == data@[4]
                    &&& c@.chr_banks == data@[5]
                    &&& c@.prg == data@.subrange(16, 16 + data@[4] * 0x4000)
                    &&& c@.chr == data@.subrange(
                        16 + data@[4] * 0x4000,
                        16 + data@[4] * 0x4000 + data@[5] * 0x2000,
                    )
                },
                None => !header_ok(data@),
            },
    {
        if data.len() < 16 {
            return None;
        }
        let mapper_id = (data[7] / 16) * 16 + data[6] / 16;
        if mapper_id != 0 {
            return None;
        }
        let prg_banks = data[4];
        let chr_banks = data[5];
        if !(prg_banks == 1 || prg_banks == 2) {
            return None;
        }
        let prg_len: usize = (prg_banks as usize) * 0x4000;
        let chr_len: usize = (chr_banks as usize) * 0x2000;
        if data.len() < 16 + prg_len + chr_len {
            return None;
        }
        let mut prg_memory: Vec<u8> = Vec::new();
        let mut i: usize = 0;
        while i < prg_len
            invariant
                i <= prg_len,
                prg_len <= 0x8000,
                data@.len() >= 16 + prg_len,
                prg_memory@ == data@.subrange(16, 16 + i),
            decreases prg_len - i,
        {
            prg_memory.push(data[16 + i]);
            i = i + 1;
            assert(prg_memory@ =~= data@.subrange(16, 16 + i));
        }
        let chr_base: usize = 16 + prg_len;
        let mut chr_memory: Vec<u8> = Vec::new();
        let mut j: usize = 0;
        while j < chr_len
            invariant
                j <= chr_len,
                chr_base <= 0x8010,
                chr_len <= 0x1fe000,
                chr_base + chr_len <= data@.len(),
                chr_memory@ == data@.subrange(chr_base as int, chr_base + j),
            decreases chr_len - j,
        {
            chr_memory.push(data[chr_base + j]);
            j = j + 1;
            assert(chr_memory@ =~= data@.subrange(chr_base as int, chr_base + j));
        }
        let c = Catridge {
            mapper: Mapper0::new(MapperInfo { prg_banks, chr_banks }),
            prg_memory,
            chr_memory,
        };
        Some(c)
    }

    /// Read a byte through the mapper's program-space translation.
    pub fn prg_read(&self, address: u16) -> (data: u8)
        requires
            self@.wf(),
        ensures
            data == cart_prg_value(self@, address),
    {
        let mut offset: u16 = 0;
        if self.mapper.map_prg_read(address, &mut offset) {
            self.prg_memory[offset as usize]
        } else {
            0
        }
    }

    /// Write a byte through the mapper's program-space translation; the
    /// write is dropped on a translation miss.
    pub fn prg_write(&mut self, address: u16, data: u8)
        requires
            old(self)@.wf(),
        ensures
            final(self)@.wf(),
            final(self)@ == cart_prg_written(old(self)@, address, data),
    {
        let mut offset: u16 = 0;
        if self.mapper.map_prg_write(address, &mut offset) {
            self.prg_memory[offset as usize] = data;
        }
        assert(self@ =~~= cart_prg_written(old(self)@, address, data));
    }
}

} // verus!
