//! The processor core: registers, flags, the reset sequence, the
//! addressing-mode resolver, and the fetch-execute entry point.

use vstd::prelude::*;
use crate::arith::sign_extend8;
use crate::arith::spec_high_byte;
use crate::arith::spec_low_byte;
use crate::arith::spec_sign_extend8;
use crate::arith::spec_word_from_bytes;
use crate::arith::spec_wrap_add16;
use crate::arith::spec_wrap_add8;
use crate::arith::spec_wrap_sub8;
use crate::arith::word_from_bytes;
use crate::arith::wrap_add16;
use crate::arith::wrap_add8;
use crate::arith::wrap_sub8;
use crate::bus::Bus;
use crate::bus::BusView;
use crate::bus::bus_value;
use crate::bus::bus_written;
use crate::bus::word_at;
use crate::dispatch::AddressingMode;
use crate::flags::Flag;
use crate::flags::flag_get;
use crate::flags::flag_set;
use crate::flags::lemma_unused_forced;
use crate::flags::mask_of;
use crate::flags::with_zn;

verus! {

/// Mathematical model of the whole machine: the bus and every processor
/// register.
#[verifier::ext_equal]
pub struct CpuView {
    pub bus: BusView,
    pub pc: u16,
    pub sp: u8,
    pub a: u8,
    pub x: u8,
    pub y: u8,
    pub flags: u8,
}

impl CpuView {
    /// The machine is well formed exactly when its bus is.
    pub open spec fn wf(self) -> bool {
        self.bus.wf()
    }

    /// The machine after `n` more bus cycles and no other change.
    pub open spec fn tick(self, n: nat) -> CpuView {
        CpuView { bus: self.bus.tick(n), ..self }
    }
}

/// Where in the fixed stack page a stack pointer value points.
pub open spec fn stack_address(sp: u8) -> u16 {
    (0x100 + sp) as u16
}

/// The machine after one byte is pushed: the byte lands at the stack
/// pointer's slot in the stack page, then the stack pointer decrements,
/// wrapping with no overflow detection.
pub open spec fn byte_pushed(m: CpuView, v: u8) -> CpuView {
    CpuView {
        bus: bus_written(m.bus, stack_address(m.sp), v),
        sp: spec_wrap_sub8(m.sp, 1),
        ..m
    }
}

/// The machine after a 16-bit push: high byte first, then low byte, as
/// two single-byte pushes.
pub open spec fn word_pushed(m: CpuView, v: u16) -> CpuView {
    byte_pushed(byte_pushed(m, spec_high_byte(v)), spec_low_byte(v))
}

/// The machine after one byte is popped, and the byte: the stack pointer
/// increments first (wrapping), then the slot it now points to is read.
pub open spec fn byte_popped(m: CpuView) -> (CpuView, u8) {
    let sp1 = spec_wrap_add8(m.sp, 1);
    (CpuView { bus: m.bus.tick(1), sp: sp1, ..m }, bus_value(m.bus, stack_address(sp1)))
}

/// The machine after a 16-bit pop, and the word: low byte first, then
/// high byte, reversing the push order.
pub open spec fn word_popped(m: CpuView) -> (CpuView, u16) {
    let (m1, low) = byte_popped(m);
    let (m2, high) = byte_popped(m1);
    (m2, spec_word_from_bytes(low, high))
}

/// Whether a computed address left the page of its base: the high bytes
/// differ.
pub open spec fn page_crossed(base: u16, address: u16) -> bool {
    base / 0x100 != address / 0x100
}

/// Effective-address resolution for the absolute indexed modes: the word
/// operand plus an index register, two operand reads, and one extra cycle
/// exactly when the page is crossed or the instruction is a forced-clock
/// variant.
pub open spec fn absolute_indexed(m: CpuView, index: u8, forced: bool) -> Resolved {
    let base = word_at(m.bus, m.pc);
    let address = spec_wrap_add16(base, index as u16);
    let extra: nat = if forced || page_crossed(base, address) {
        1
    } else {
        0
    };
    Resolved {
        address,
        cpu: CpuView { pc: spec_wrap_add16(m.pc, 2), bus: m.bus.tick(2 + extra), ..m },
    }
}

/// Effective-address resolution for the indirect indexed mode: a
/// zero-page pointer read (one cycle), the word at the pointer (two
/// cycles), plus the index in Y, and one extra cycle exactly when the page
/// is crossed or the instruction is a forced-clock variant.
pub open spec fn indirect_indexed(m: CpuView, forced: bool) -> Resolved {
    let pointer = bus_value(m.bus, m.pc) as u16;
    let base = word_at(m.bus, pointer);
    let address = spec_wrap_add16(base, m.y as u16);
    let extra: nat = if forced || page_crossed(base, address) {
        1
    } else {
        0
    };
    Resolved {
        address,
        cpu: CpuView { pc: spec_wrap_add16(m.pc, 1), bus: m.bus.tick(3 + extra), ..m },
    }
}

/// An effective address together with the machine after resolving it:
/// operand bytes consumed, program counter advanced, cycles charged.
#[verifier::ext_equal]
pub struct Resolved {
    pub address: u16,
    pub cpu: CpuView,
}

/// What each addressing mode resolves to. Every bus read of an operand
/// byte costs one cycle; the zero-page indexed and the indirect-X modes
/// always charge one extra cycle (the hardware's dummy read), and the
/// absolute indexed and indirect-Y modes charge it exactly when the page
/// is crossed or the instruction is a forced-clock variant. The indirect
/// mode reproduces the hardware's page-boundary bug: a pointer whose low
/// byte is 0xff fetches the target's high byte from the start of the same
/// page rather than from the next page.
pub open spec fn resolve(m: CpuView, mode: AddressingMode) -> Resolved {
    match mode {
        AddressingMode::Implied => Resolved { address: 0, cpu: m },
        AddressingMode::Accumulator => Resolved { address: 0, cpu: m },
        AddressingMode::Immediate => Resolved {
            address: m.pc,
            cpu: CpuView { pc: spec_wrap_add16(m.pc, 1), ..m },
        },
        AddressingMode::ZeroPage => Resolved {
            address: bus_value(m.bus, m.pc) as u16,
            cpu: CpuView { pc: spec_wrap_add16(m.pc, 1), bus: m.bus.tick(1), ..m },
        },
        AddressingMode::ZeroPageX => Resolved {
            address: spec_wrap_add8(bus_value(m.bus, m.pc), m.x) as u16,
            cpu: CpuView { pc: spec_wrap_add16(m.pc, 1), bus: m.bus.tick(2), ..m },
        },
        AddressingMode::ZeroPageY => Resolved {
            address: spec_wrap_add8(bus_value(m.bus, m.pc), m.y) as u16,
            cpu: CpuView { pc: spec_wrap_add16(m.pc, 1), bus: m.bus.tick(2), ..m },
        },
        AddressingMode::Relative => Resolved {
            address: spec_wrap_add16(m.pc, spec_sign_extend8(bus_value(m.bus, m.pc))),
            cpu: CpuView { pc: spec_wrap_add16(m.pc, 1), bus: m.bus.tick(1), ..m },
        },
        AddressingMode::Absolute => Resolved {
            address: word_at(m.bus, m.pc),
            cpu: CpuView { pc: spec_wrap_add16(m.pc, 2), bus: m.bus.tick(2), ..m },
        },
        AddressingMode::AbsoluteX => absolute_indexed(m, m.x, false),
        AddressingMode::AbsoluteXForced => absolute_indexed(m, m.x, true),
        AddressingMode::AbsoluteY => absolute_indexed(m, m.y, false),
        AddressingMode::AbsoluteYForced => absolute_indexed(m, m.y, true),
        AddressingMode::Indirect => {
            let pointer = word_at(m.bus, m.pc);
            let low = bus_value(m.bus, pointer);
            let high = if pointer % 0x100 == 0xff {
                bus_value(m.bus, (pointer - 0xff) as u16)
            } else {
                bus_value(m.bus, (pointer + 1) as u16)
            };
            Resolved {
                address: spec_word_from_bytes(low, high),
                cpu: CpuView { pc: spec_wrap_add16(m.pc, 2), bus: m.bus.tick(4), ..m },
            }
        },
        AddressingMode::IndirectX => {
            let pointer = spec_wrap_add8(bus_value(m.bus, m.pc), m.x) as u16;
            Resolved {
                address: word_at(m.bus, pointer),
                cpu: CpuView { pc: spec_wrap_add16(m.pc, 1), bus: m.bus.tick(4), ..m },
            }
        },
        AddressingMode::IndirectY => indirect_indexed(m, false),
        AddressingMode::IndirectYForced => indirect_indexed(m, true),
    }
}

/// The machine after resolving a mode and reading the operand byte at the
/// effective address, together with that byte and the address.
pub open spec fn operand_read(m: CpuView, mode: AddressingMode) -> (CpuView, u8, u16) {
    let r = resolve(m, mode);
    (CpuView { bus: r.cpu.bus.tick(1), ..r.cpu }, bus_value(r.cpu.bus, r.address), r.address)
}

/// The processor core. It exclusively owns the bus it drives.
pub struct CPU {
    /// The bus this core drives.
    pub bus: Bus,
    /// Program counter; wraps modulo 65536.
    pub pc: u16,
    /// Stack pointer into the fixed 256-byte stack page.
    pub sp: u8,
    /// Accumulator.
    pub a: u8,
    /// Index register X.
    pub x: u8,
    /// Index register Y.
    pub y: u8,
    /// Packed flag byte.
    pub flags: u8,
}

impl View for CPU {
    type V = CpuView;

    open spec fn view(&self) -> CpuView {
        CpuView {
            bus: self.bus@,
            pc: self.pc,
            sp: self.sp,
            a: self.a,
            x: self.x,
            y: self.y,
            flags: self.flags,
        }
    }
}

/// The machine after the reset sequence: the program counter loaded from
/// the little-endian word at the reset vector (two cycles), the stack
/// pointer at its initial value 0xff, the general registers zeroed, the
/// flag byte cleared except for the Unused flag, and seven further dummy
/// cycles modeling the hardware's reset latency.
pub open spec fn reset_step(m: CpuView) -> CpuView {
    CpuView {
        pc: word_at(m.bus, 0xfffc),
        sp: 0xff,
        a: 0,
        x: 0,
        y: 0,
        flags: flag_set(0, Flag::Unused, true),
        bus: m.bus.tick(9),
    }
}

impl CPU {
    /// A fresh processor: registers and flags zeroed, bus empty.
    pub fn new() -> (r: CPU)
        ensures
            r@.wf(),
            r@.pc == 0,
            r@.sp == 0,
            r@.a == 0,
            r@.x == 0,
            r@.y == 0,
            r@.flags == 0,
            r@.bus.cycles == 0,
            r@.bus.cart is None,
            r@.bus.ram == Seq::new(0x800, |i: int| 0u8),
    {
        CPU { bus: Bus::new(), pc: 0, sp: 0, a: 0, x: 0, y: 0, flags: 0 }
    }

    /// Run the reset sequence. Afterwards the Unused flag is set and the
    /// program counter equals the little-endian word stored at the reset
    /// vector.
    pub fn reset(&mut self)
        requires
            old(self)@.wf(),
            old(self)@.bus.cycles + 9 <= u64::MAX,
        ensures
            final(self)@.wf(),
            final(self)@ == reset_step(old(self)@),
            flag_get(final(self)@.flags, Flag::Unused),
            final(self)@.pc == word_at(old(self)@.bus, 0xfffc),
    {
        self.pc = self.bus.read_word(0xfffc);
        self.sp = 0xff;
        self.a = 0;
        self.x = 0;
        self.y = 0;
        self.flags = 0;
        self.set_flag(Flag::Unused, true);
        self.bus.clock_multiple(7);
        proof {
            lemma_unused_forced(0);
        }
    }

    /// Whether `flag` is currently set.
    pub fn get_flag(&self, flag: Flag) -> (r: bool)
        ensures
            r == flag_get(self@.flags, flag),
    {
        self.flags & mask_of(flag) != 0
    }

    /// Force `flag` to `status`, touching nothing else.
    pub fn set_flag(&mut self, flag: Flag, status: bool)
        ensures
            final(self)@ == (CpuView { flags: flag_set(old(self)@.flags, flag, status), ..old(
                self,
            )@ }),
    {
        if status {
            self.flags = self.flags | mask_of(flag);
        } else {
            self.flags = self.flags & !mask_of(flag);
        }
    }

    /// Derive Zero and Negative from `value`, touching no other flag.
    pub fn set_flag_zero_negative(&mut self, value: u8)
        ensures
            final(self)@ == (CpuView { flags: with_zn(old(self)@.flags, value), ..old(self)@ }),
    {
        self.set_flag(Flag::Zero, value == 0);
        self.set_flag(Flag::Negative, value & 0x80 != 0);
    }

    /// Push one byte onto the stack page.
    pub fn push_byte(&mut self, value: u8)
        requires
            old(self)@.wf(),
            old(self)@.bus.cycles < u64::MAX,
        ensures
            final(self)@.wf(),
            final(self)@ == byte_pushed(old(self)@, value),
    {
        self.bus.write_byte(0x100 + self.sp as u16, value);
        self.sp = wrap_sub8(self.sp, 1);
    }

    /// Push a 16-bit word: high byte, then low byte.
    pub fn push_word(&mut self, value: u16)
        requires
            old(self)@.wf(),
            old(self)@.bus.cycles + 2 <= u64::MAX,
        ensures
            final(self)@.wf(),
            final(self)@ == word_pushed(old(self)@, value),
    {
        self.push_byte((value / 0x100) as u8);
        self.push_byte((value % 0x100) as u8);
    }

    /// Pop one byte from the stack page.
    pub fn pop_byte(&mut self) -> (value: u8)
        requires
            old(self)@.wf(),
            old(self)@.bus.cycles < u64::MAX,
        ensures
            final(self)@.wf(),
            final(self)@ == byte_popped(old(self)@).0,
            value == byte_popped(old(self)@).1,
    {
        self.sp = wrap_add8(self.sp, 1);
        self.bus.read_byte(0x100 + self.sp as u16)
    }

    /// Pop a 16-bit word: low byte, then high byte.
    pub fn pop_word(&mut self) -> (value: u16)
        requires
            old(self)@.wf(),
            old(self)@.bus.cycles + 2 <= u64::MAX,
        ensures
            final(self)@.wf(),
            final(self)@ == word_popped(old(self)@).0,
            value == word_popped(old(self)@).1,
    {
        let low = self.pop_byte();
        let high = self.pop_byte();
        word_from_bytes(low, high)
    }

    /// Resolve `mode` to an effective address, consuming operand bytes,
    /// advancing the program counter, and charging any owed extra cycle.
    pub fn read_operand_address(&mut self, mode: AddressingMode) -> (address: u16)
        requires
            old(self)@.wf(),
            old(self)@.bus.cycles + 7 <= u64::MAX,
        ensures
            final(self)@.wf(),
            final(self)@ == resolve(old(self)@, mode).cpu,
            address == resolve(old(self)@, mode).address,
    {
        match mode {
            AddressingMode::Implied => 0,
            AddressingMode::Accumulator => 0,
            AddressingMode::Immediate => {
                let address = self.pc;
                self.pc = wrap_add16(self.pc, 1);
                address
            },
            AddressingMode::ZeroPage => {
                let address = self.bus.read_byte(self.pc) as u16;
                self.pc = wrap_add16(self.pc, 1);
                address
            },
            AddressingMode::ZeroPageX => {
                let operand = self.bus.read_byte(self.pc);
                let address = wrap_add8(operand, self.x) as u16;
                self.pc = wrap_add16(self.pc, 1);
                self.bus.clock();
                address
            },
            AddressingMode::ZeroPageY => {
                let operand = self.bus.read_byte(self.pc);
                let address = wrap_add8(operand, self.y) as u16;
                self.pc = wrap_add16(self.pc, 1);
                self.bus.clock();
                address
            },
            AddressingMode::Relative => {
                let operand = self.bus.read_byte(self.pc);
                let address = wrap_add16(self.pc, sign_extend8(operand));
                self.pc = wrap_add16(self.pc, 1);
                address
            },
            AddressingMode::Absolute => {
                let address = self.bus.read_word(self.pc);
                self.pc = wrap_add16(self.pc, 2);
                address
            },
            AddressingMode::AbsoluteX => {
                let index = self.x;
                self.resolve_absolute_indexed(index, false)
            },
            AddressingMode::AbsoluteXForced => {
                let index = self.x;
                self.resolve_absolute_indexed(index, true)
            },
            AddressingMode::AbsoluteY => {
                let index = self.y;
                self.resolve_absolute_indexed(index, false)
            },
            AddressingMode::AbsoluteYForced => {
                let index = self.y;
                self.resolve_absolute_indexed(index, true)
            },
            AddressingMode::Indirect => {
                let pointer = self.bus.read_word(self.pc);
                self.pc = wrap_add16(self.pc, 2);
                let low = self.bus.read_byte(pointer);
                let high = if pointer % 0x100 == 0xff {
                    self.bus.read_byte(pointer - 0xff)
                } else {
                    self.bus.read_byte(pointer + 1)
                };
                word_from_bytes(low, high)
            },
            AddressingMode::IndirectX => {
                let operand = self.bus.read_byte(self.pc);
                let pointer = wrap_add8(operand, self.x) as u16;
                let address = self.bus.read_word(pointer);
                self.pc = wrap_add16(self.pc, 1);
                self.bus.clock();
                address
            },
            AddressingMode::IndirectY => self.resolve_indirect_indexed(false),
            AddressingMode::IndirectYForced => self.resolve_indirect_indexed(true),
        }
    }

    fn resolve_absolute_indexed(&mut self, index: u8, forced: bool) -> (address: u16)
        requires
            old(self)@.wf(),
            old(self)@.bus.cycles + 3 <= u64::MAX,
        ensures
            final(self)@.wf(),
            final(self)@ == absolute_indexed(old(self)@, index, forced).cpu,
            address == absolute_indexed(old(self)@, index, forced).address,
    {
        let base = self.bus.read_word(self.pc);
        let address = wrap_add16(base, index as u16);
        self.pc = wrap_add16(self.pc, 2);
        if forced || base / 0x100 != address / 0x100 {
            self.bus.clock();
        }
        address
    }

    fn resolve_indirect_indexed(&mut self, forced: bool) -> (address: u16)
        requires
            old(self)@.wf(),
            old(self)@.bus.cycles + 4 <= u64::MAX,
        ensures
            final(self)@.wf(),
            final(self)@ == indirect_indexed(old(self)@, forced).cpu,
            address == indirect_indexed(old(self)@, forced).address,
    {
        let operand = self.bus.read_byte(self.pc);
        let base = self.bus.read_word(operand as u16);
        let address = wrap_add16(base, self.y as u16);
        self.pc = wrap_add16(self.pc, 1);
        if forced || base / 0x100 != address / 0x100 {
            self.bus.clock();
        }
        address
    }

    /// Resolve `mode` and read the operand byte at the effective address,
    /// returning the byte and the address.
    pub fn read_operand(&mut self, mode: AddressingMode) -> (r: (u8, u16))
        requires
            old(self)@.wf(),
            old(self)@.bus.cycles + 7 <= u64::MAX,
        ensures
            final(self)@.wf(),
            final(self)@ == operand_read(old(self)@, mode).0,
            r.0 == operand_read(old(self)@, mode).1,
            r.1 == operand_read(old(self)@, mode).2,
    {
        let address = self.read_operand_address(mode);
        let data = self.bus.read_byte(address);
        (data, address)
    }
}

/// Pushing a 16-bit word and then popping a word returns the same word
/// and restores the stack pointer to its original value, whatever the
/// machine state.
pub proof fn lemma_stack_round_trip(m: CpuView, v: u16)
    requires
        m.wf(),
    ensures
        word_popped(word_pushed(m, v)).1 == v,
        word_popped(word_pushed(m, v)).0.sp == m.sp,
{
    let sp0 = m.sp;
    let sp1 = spec_wrap_sub8(sp0, 1);
    let sp2 = spec_wrap_sub8(sp1, 1);
    assert(spec_wrap_add8(spec_wrap_sub8(spec_wrap_sub8(sp0, 1), 1), 1) == spec_wrap_sub8(sp0, 1))
        by (bit_vector);
    assert(spec_wrap_add8(spec_wrap_sub8(sp0, 1), 1) == sp0) by (bit_vector);
    assert(spec_wrap_sub8(sp0, 1) != sp0) by (bit_vector);
    assert(spec_wrap_add8(sp2, 1) == sp1);
    assert(spec_wrap_add8(sp1, 1) == sp0);
    assert(sp1 != m.sp);
    assert(stack_address(sp1) != stack_address(m.sp));
    assert(crate::bus::ram_slot(stack_address(sp1)) != crate::bus::ram_slot(stack_address(m.sp)));
    assert(v == 0x100 * (v / 0x100) + v % 0x100);
}

} // verus!
