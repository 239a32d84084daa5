//! The processor's bus: 2 KiB of internal memory mirrored across the low
//! 8 KiB window, the video-register window mirrored across the next 8 KiB,
//! the attached cartridge above that, and a cycle counter that advances by
//! exactly one tick on every read or write.

use vstd::prelude::*;
use crate::arith::high_byte;
use crate::arith::low_byte;
use crate::arith::spec_word_from_bytes;
use crate::arith::spec_wrap_add16;
use crate::arith::word_from_bytes;
use crate::arith::wrap_add16;
use crate::catridge::CartView;
use crate::catridge::Catridge;
use crate::catridge::cart_prg_value;
use crate::catridge::cart_prg_written;
use crate::ppu::PPU;

verus! {

/// Mathematical model of the bus: internal memory contents, the attached
/// cartridge (if any), and the number of cycles elapsed so far.
#[verifier::ext_equal]
pub struct BusView {
    pub ram: Seq<u8>,
    pub cart: Option<CartView>,
    pub cycles: nat,
}

impl BusView {
    /// Internal memory is exactly 2 KiB and the attached cartridge, if
    /// any, is well formed.
    pub open spec fn wf(self) -> bool {
        &&& self.ram.len() == 0x800
        &&& match self.cart {
            Some(c) => c.wf(),
            None => true,
        }
    }

    /// The bus after `n` more cycle ticks and no other change.
    pub open spec fn tick(self, n: nat) -> BusView {
        BusView { cycles: self.cycles + n, ..self }
    }
}

/// The internal-memory slot an address in the low 8 KiB window reaches:
/// the address masked to the low 2 KiB.
pub open spec fn ram_slot(address: u16) -> int {
    (address % 0x800) as int
}

/// The byte a read of `address` yields: internal memory in the low 8 KiB
/// window, the video-register window (reading 0xff) in the next 8 KiB, the
/// cartridge's mapped program byte above that, and the open-bus value 0
/// when no cartridge is attached or the mapper reports a miss.
pub open spec fn bus_value(b: BusView, address: u16) -> u8 {
    if address < 0x2000 {
        b.ram[ram_slot(address)]
    } else if address < 0x4000 {
        0xff
    } else {
        match b.cart {
            Some(c) => cart_prg_value(c, address),
            None => 0,
        }
    }
}

/// The bus after a write of `data` to `address`: one cycle elapses, and
/// the byte lands in internal memory, is dropped by the video-register
/// window, or goes through the cartridge's mapper, which drops it on a
/// miss — as does a write above the windows with no cartridge attached.
pub open spec fn bus_written(b: BusView, address: u16, data: u8) -> BusView {
    if address < 0x2000 {
        BusView { ram: b.ram.update(ram_slot(address), data), cycles: b.cycles + 1, ..b }
    } else if address < 0x4000 {
        b.tick(1)
    } else {
        match b.cart {
            Some(c) => BusView {
                cart: Some(cart_prg_written(c, address, data)),
                cycles: b.cycles + 1,
                ..b
            },
            None => b.tick(1),
        }
    }
}

/// The little-endian word read from `address` and `address + 1` (the
/// second address wrapping modulo 65536).
pub open spec fn word_at(b: BusView, address: u16) -> u16 {
    spec_word_from_bytes(bus_value(b, address), bus_value(b, spec_wrap_add16(address, 1)))
}

/// The bus after the little-endian word `v` is written to `address` and
/// `address + 1` by two single-byte writes.
pub open spec fn word_written(b: BusView, address: u16, v: u16) -> BusView {
    bus_written(bus_written(b, address, (v % 0x100) as u8), spec_wrap_add16(address, 1), (v
        / 0x100) as u8)
}

/// The bus the processor core drives: all addressable state and the cycle
/// counter.
pub struct Bus {
    ram: Vec<u8>,
    /// The attached video-register window.
    pub ppu: PPU,
    catridge: Option<Catridge>,
    /// Total bus cycles elapsed since construction.
    pub cycles_count: u64,
}

impl View for Bus {
    type V = BusView;

    closed spec fn view(&self) -> BusView {
        BusView {
            ram: self.ram@,
            cart: match self.catridge {
                Some(c) => Some(c@),
                None => None,
            },
            cycles: self.cycles_count as nat,
        }
    }
}

impl Bus {
    /// A fresh bus: zeroed internal memory, no cartridge, cycle counter
    /// at zero.
    pub fn new() -> (r: Bus)
        ensures
            r@.wf(),
            r@.ram == Seq::new(0x800, |i: int| 0u8),
            r@.cart is None,
            r@.cycles == 0,
    {
        let mut ram: Vec<u8> = Vec::new();
        let mut i: usize = 0;
        while i < 0x800
            invariant
                i <= 0x800,
                ram@ == Seq::new(i as nat, |j: int| 0u8),
            decreases 0x800 - i,
        {
            ram.push(0);
            i = i + 1;
            assert(ram@ =~= Seq::new(i as nat, |j: int| 0u8));
        }
        let r = Bus { ram, ppu: PPU::new(), catridge: None, cycles_count: 0 };
        assert(r@.ram =~= Seq::new(0x800, |i: int| 0u8));
        r
    }

    /// Attach a cartridge, replacing any cartridge attached before. No
    /// cycle elapses: attaching is not a bus access.
    pub fn connect_catridge(&mut self, catridge: Catridge)
        requires
            catridge@.wf(),
        ensures
            final(self)@ == (BusView { cart: Some(catridge@), ..old(self)@ }),
    {
        self.catridge = Some(catridge);
    }

    /// Advance the cycle counter by one tick.
    pub fn clock(&mut self)
        requires
            old(self)@.cycles < u64::MAX,
        ensures
            final(self)@ == old(self)@.tick(1),
    {
        self.cycles_count = self.cycles_count + 1;
    }

    /// Advance the cycle counter by `times` ticks.
    pub fn clock_multiple(&mut self, times: u8)
        requires
            old(self)@.cycles + times <= u64::MAX,
        ensures
            final(self)@ == old(self)@.tick(times as nat),
    {
        let mut i: u8 = 0;
        while i < times
            invariant
                i <= times,
                old(self)@.cycles + times <= u64::MAX,
                self@ == old(self)@.tick(i as nat),
            decreases times - i,
        {
            self.clock();
            i = i + 1;
        }
    }

    /// Read one byte, consuming one cycle.
    pub fn read_byte(&mut self, address: u16) -> (data: u8)
        requires
            old(self)@.wf(),
            old(self)@.cycles < u64::MAX,
        ensures
            final(self)@.wf(),
            final(self)@ == old(self)@.tick(1),
            data == bus_value(old(self)@, address),
    {
        self.clock();
        if address < 0x2000 {
            self.ram[(address % 0x800) as usize]
        } else if address < 0x4000 {
            self.ppu.read_register(address % 8)
        } else {
            match &self.catridge {
                Some(cart) => cart.prg_read(address),
                None => 0,
            }
        }
    }

    /// Write one byte, consuming one cycle.
    pub fn write_byte(&mut self, address: u16, data: u8)
        requires
            old(self)@.wf(),
            old(self)@.cycles < u64::MAX,
        ensures
            final(self)@.wf(),
            final(self)@ == bus_written(old(self)@, address, data),
    {
        self.clock();
        if address < 0x2000 {
            self.ram[(address % 0x800) as usize] = data;
        } else if address < 0x4000 {
            self.ppu.write_register(address % 8, data);
        } else {
            match &mut self.catridge {
                Some(cart) => cart.prg_write(address, data),
                None => {},
            }
        }
        assert(self@ =~~= bus_written(old(self)@, address, data));
    }

    /// Read the little-endian word at `address` and `address + 1` as two
    /// single-byte reads: two cycles, not atomic, so a mid-word observer
    /// would see a torn read exactly as on the real hardware.
    pub fn read_word(&mut self, address: u16) -> (data: u16)
        requires
            old(self)@.wf(),
            old(self)@.cycles + 2 <= u64::MAX,
        ensures
            final(self)@.wf(),
            final(self)@ == old(self)@.tick(2),
            data == word_at(old(self)@, address),
    {
        let low = self.read_byte(address);
        let high = self.read_byte(wrap_add16(address, 1));
        word_from_bytes(low, high)
    }

    /// Write the little-endian word `data` to `address` and `address + 1`
    /// as two single-byte writes: two cycles, not atomic.
    pub fn write_word(&mut self, address: u16, data: u16)
        requires
            old(self)@.wf(),
            old(self)@.cycles + 2 <= u64::MAX,
        ensures
            final(self)@.wf(),
            final(self)@ == word_written(old(self)@, address, data),
    {
        self.write_byte(address, low_byte(data));
        self.write_byte(wrap_add16(address, 1), high_byte(data));
    }
}

/// Writing a 16-bit word to an address whose mirror window it does not
/// cross, then reading it back, yields the same word, and the write
/// consumes exactly two cycles. The read costs exactly two more, by
/// `read_word`'s own contract: each word access is two single-byte
/// accesses of one cycle each.
pub proof fn lemma_word_round_trip(b: BusView, address: u16, v: u16)
    requires
        b.wf(),
        address < 0x2000,
        address % 0x800 != 0x7ff,
    ensures
        word_at(word_written(b, address, v), address) == v,
        word_written(b, address, v).cycles == b.cycles + 2,
{
    assert(address + 1 < 0x2000);
    assert(spec_wrap_add16(address, 1) == address + 1);
    assert(ram_slot((address + 1) as u16) == ram_slot(address) + 1);
    assert(v == 0x100 * (v / 0x100) + v % 0x100);
}

} // verus!
