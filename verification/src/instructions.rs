//! The instruction set: one spec transition and one executable method per
//! operation, the machine's single-step function, and the fetch-execute
//! entry point.

use vstd::prelude::*;
use crate::arith::spec_wrap_add8;
use crate::arith::spec_wrap_sub8;
use crate::arith::spec_wrap_add16;
use crate::arith::spec_wrap_sub16;
use crate::arith::wrap_add8;
use crate::arith::wrap_sub8;
use crate::arith::wrap_add16;
use crate::arith::wrap_sub16;
use crate::bus::bus_value;
use crate::bus::bus_written;
use crate::bus::word_at;
use crate::cpu::CPU;
use crate::cpu::CpuView;
use crate::cpu::byte_popped;
use crate::cpu::byte_pushed;
use crate::cpu::operand_read;
use crate::cpu::page_crossed;
use crate::cpu::resolve;
use crate::cpu::word_popped;
use crate::cpu::word_pushed;
use crate::dispatch::AddressingMode;
use crate::dispatch::Op;
use crate::dispatch::decode;
use crate::flags::Flag;
use crate::flags::flag_get;
use crate::flags::flag_mask;
use crate::flags::flag_set;
use crate::flags::lemma_zero_negative_flags;
use crate::flags::mask_of;
use crate::flags::with_zn;

verus! {

// ---------------------------------------------------------------------------
// Loads and stores
// ---------------------------------------------------------------------------
/// Load accumulator: Zero and Negative from the loaded byte, no other flag.
pub open spec fn lda_step(m: CpuView, mode: AddressingMode) -> CpuView {
    let (m1, data, _address) = operand_read(m, mode);
    CpuView { a: data, flags: with_zn(m1.flags, data), ..m1 }
}

/// Load index X.
pub open spec fn ldx_step(m: CpuView, mode: AddressingMode) -> CpuView {
    let (m1, data, _address) = operand_read(m, mode);
    CpuView { x: data, flags: with_zn(m1.flags, data), ..m1 }
}

/// Load index Y.
pub open spec fn ldy_step(m: CpuView, mode: AddressingMode) -> CpuView {
    let (m1, data, _address) = operand_read(m, mode);
    CpuView { y: data, flags: with_zn(m1.flags, data), ..m1 }
}

/// Store accumulator: no flag effects.
pub open spec fn sta_step(m: CpuView, mode: AddressingMode) -> CpuView {
    let r = resolve(m, mode);
    CpuView { bus: bus_written(r.cpu.bus, r.address, m.a), ..r.cpu }
}

/// Store index X.
pub open spec fn stx_step(m: CpuView, mode: AddressingMode) -> CpuView {
    let r = resolve(m, mode);
    CpuView { bus: bus_written(r.cpu.bus, r.address, m.x), ..r.cpu }
}

/// Store index Y.
pub open spec fn sty_step(m: CpuView, mode: AddressingMode) -> CpuView {
    let r = resolve(m, mode);
    CpuView { bus: bus_written(r.cpu.bus, r.address, m.y), ..r.cpu }
}

// ---------------------------------------------------------------------------
// Register transfers
// ---------------------------------------------------------------------------
/// Transfer accumulator to X; Zero and Negative from the copied value.
pub open spec fn tax_step(m: CpuView) -> CpuView {
    CpuView { x: m.a, flags: with_zn(m.flags, m.a), ..m }
}

/// Transfer accumulator to Y.
pub open spec fn tay_step(m: CpuView) -> CpuView {
    CpuView { y: m.a, flags: with_zn(m.flags, m.a), ..m }
}

/// Transfer stack pointer to X.
pub open spec fn tsx_step(m: CpuView) -> CpuView {
    CpuView { x: m.sp, flags: with_zn(m.flags, m.sp), ..m }
}

/// Transfer X to accumulator.
pub open spec fn txa_step(m: CpuView) -> CpuView {
    CpuView { a: m.x, flags: with_zn(m.flags, m.x), ..m }
}

/// Transfer X to stack pointer: the one transfer that touches no flag.
pub open spec fn txs_step(m: CpuView) -> CpuView {
    CpuView { sp: m.x, ..m }
}

/// Transfer Y to accumulator.
pub open spec fn tya_step(m: CpuView) -> CpuView {
    CpuView { a: m.y, flags: with_zn(m.flags, m.y), ..m }
}

// ---------------------------------------------------------------------------
// Stack operations
// ---------------------------------------------------------------------------
/// Push accumulator.
pub open spec fn pha_step(m: CpuView) -> CpuView {
    byte_pushed(m, m.a)
}

/// Push the flag byte.
pub open spec fn php_step(m: CpuView) -> CpuView {
    byte_pushed(m, m.flags)
}

/// Pop into the accumulator; Zero and Negative from the popped byte.
pub open spec fn pla_step(m: CpuView) -> CpuView {
    let (m1, v) = byte_popped(m);
    CpuView { a: v, flags: with_zn(m1.flags, v), ..m1 }
}

/// Pop the flag byte. The Unused flag is forced set after any flag
/// restore from the stack.
pub open spec fn plp_step(m: CpuView) -> CpuView {
    let (m1, v) = byte_popped(m);
    CpuView { flags: v | flag_mask(Flag::Unused), ..m1 }
}

// ---------------------------------------------------------------------------
// Shifts and rotates
// ---------------------------------------------------------------------------
/// Flags and result of a left shift: the bit shifted out becomes Carry,
/// Zero and Negative come from the result.
pub open spec fn do_asl_step(m: CpuView, data: u8) -> CpuView {
    CpuView { flags: with_zn(flag_set(m.flags, Flag::Carry, data & 0x80 != 0), data << 1), ..m }
}

/// Left shift of a memory operand, written back to its address.
pub open spec fn asl_step(m: CpuView, mode: AddressingMode) -> CpuView {
    let (m1, data, address) = operand_read(m, mode);
    let m2 = do_asl_step(m1, data);
    CpuView { bus: bus_written(m2.bus, address, data << 1), ..m2 }
}

/// Left shift of the accumulator.
pub open spec fn asl_a_step(m: CpuView) -> CpuView {
    let m1 = do_asl_step(m, m.a);
    CpuView { a: m.a << 1, ..m1 }
}

/// Flags and result of a right shift: the bit shifted out becomes Carry.
pub open spec fn do_lsr_step(m: CpuView, data: u8) -> CpuView {
    CpuView { flags: with_zn(flag_set(m.flags, Flag::Carry, data & 0x01 != 0), data >> 1), ..m }
}

/// Right shift of a memory operand.
pub open spec fn lsr_step(m: CpuView, mode: AddressingMode) -> CpuView {
    let (m1, data, address) = operand_read(m, mode);
    let m2 = do_lsr_step(m1, data);
    CpuView { bus: bus_written(m2.bus, address, data >> 1), ..m2 }
}

/// Right shift of the accumulator.
pub open spec fn lsr_a_step(m: CpuView) -> CpuView {
    let m1 = do_lsr_step(m, m.a);
    CpuView { a: m.a >> 1, ..m1 }
}

/// The result of rotating left: the old Carry enters at bit 0.
pub open spec fn rol_result(flags: u8, data: u8) -> u8 {
    (data << 1) | (if flag_get(flags, Flag::Carry) {
        1u8
    } else {
        0u8
    })
}

/// Flags and result of a left rotate: the bit shifted out becomes Carry,
/// the old Carry is shifted in at the vacated bit.
pub open spec fn do_rol_step(m: CpuView, data: u8) -> CpuView {
    CpuView {
        flags: with_zn(flag_set(m.flags, Flag::Carry, data & 0x80 != 0), rol_result(m.flags, data)),
        ..m
    }
}

/// Left rotate of a memory operand.
pub open spec fn rol_step(m: CpuView, mode: AddressingMode) -> CpuView {
    let (m1, data, address) = operand_read(m, mode);
    let m2 = do_rol_step(m1, data);
    CpuView { bus: bus_written(m2.bus, address, rol_result(m1.flags, data)), ..m2 }
}

/// Left rotate of the accumulator.
pub open spec fn rol_a_step(m: CpuView) -> CpuView {
    let m1 = do_rol_step(m, m.a);
    CpuView { a: rol_result(m.flags, m.a), ..m1 }
}

/// The result of rotating right: the old Carry enters at bit 7.
pub open spec fn ror_result(flags: u8, data: u8) -> u8 {
    (data >> 1) | (if flag_get(flags, Flag::Carry) {
        0x80u8
    } else {
        0u8
    })
}

/// Flags and result of a right rotate.
pub open spec fn do_ror_step(m: CpuView, data: u8) -> CpuView {
    CpuView {
        flags: with_zn(flag_set(m.flags, Flag::Carry, data & 0x01 != 0), ror_result(m.flags, data)),
        ..m
    }
}

/// Right rotate of a memory operand.
pub open spec fn ror_step(m: CpuView, mode: AddressingMode) -> CpuView {
    let (m1, data, address) = operand_read(m, mode);
    let m2 = do_ror_step(m1, data);
    CpuView { bus: bus_written(m2.bus, address, ror_result(m1.flags, data)), ..m2 }
}

/// Right rotate of the accumulator.
pub open spec fn ror_a_step(m: CpuView) -> CpuView {
    let m1 = do_ror_step(m, m.a);
    CpuView { a: ror_result(m.flags, m.a), ..m1 }
}

// ---------------------------------------------------------------------------
// Bitwise operations
// ---------------------------------------------------------------------------
/// Bitwise AND with the accumulator.
pub open spec fn and_step(m: CpuView, mode: AddressingMode) -> CpuView {
    let (m1, data, _address) = operand_read(m, mode);
    CpuView { a: m.a & data, flags: with_zn(m1.flags, m.a & data), ..m1 }
}

/// Bit test: Zero from `accumulator AND operand`, Overflow and Negative
/// copied from bits 6 and 7 of the operand itself — not of the AND result.
pub open spec fn bit_step(m: CpuView, mode: AddressingMode) -> CpuView {
    let (m1, data, _address) = operand_read(m, mode);
    CpuView {
        flags: flag_set(
            flag_set(
                flag_set(m1.flags, Flag::Zero, m.a & data == 0),
                Flag::Overflow,
                data & 0x40 != 0,
            ),
            Flag::Negative,
            data & 0x80 != 0,
        ),
        ..m1
    }
}

/// Bitwise exclusive OR with the accumulator.
pub open spec fn eor_step(m: CpuView, mode: AddressingMode) -> CpuView {
    let (m1, data, _address) = operand_read(m, mode);
    CpuView { a: m.a ^ data, flags: with_zn(m1.flags, m.a ^ data), ..m1 }
}

/// Bitwise OR with the accumulator.
pub open spec fn ora_step(m: CpuView, mode: AddressingMode) -> CpuView {
    let (m1, data, _address) = operand_read(m, mode);
    CpuView { a: m.a | data, flags: with_zn(m1.flags, m.a | data), ..m1 }
}

// ---------------------------------------------------------------------------
// Arithmetic
// ---------------------------------------------------------------------------
/// The 9-bit-wide sum of accumulator, operand, and incoming Carry.
pub open spec fn adc_sum(m: CpuView, data: u8) -> int {
    m.a + data + (if flag_get(m.flags, Flag::Carry) {
        1int
    } else {
        0int
    })
}

/// Add with carry: the low 8 bits of the 9-bit sum become the accumulator;
/// Carry iff the sum exceeds 255; Overflow via the signed-overflow test on
/// the pre-update accumulator; Zero and Negative from the result. Decimal
/// mode is not honored.
pub open spec fn do_adc_step(m: CpuView, data: u8) -> CpuView {
    let sum = adc_sum(m, data);
    let result = (sum % 0x100) as u8;
    CpuView {
        a: result,
        flags: flag_set(
            flag_set(with_zn(m.flags, result), Flag::Carry, sum > 0xff),
            Flag::Overflow,
            (!(m.a ^ data) & (m.a ^ result)) & 0x80 != 0,
        ),
        ..m
    }
}

/// Add with carry on a resolved operand.
pub open spec fn adc_step(m: CpuView, mode: AddressingMode) -> CpuView {
    let (m1, data, _address) = operand_read(m, mode);
    do_adc_step(m1, data)
}

/// Subtract with carry: exactly add-with-carry of the bitwise-complemented
/// operand, reusing the same carry and overflow computation.
pub open spec fn sbc_step(m: CpuView, mode: AddressingMode) -> CpuView {
    let (m1, data, _address) = operand_read(m, mode);
    do_adc_step(m1, !data)
}

/// A compare: Carry iff the register is greater than or equal to the
/// operand; Zero and Negative from the wrapped difference.
pub open spec fn compare_flags(flags: u8, reg: u8, data: u8) -> u8 {
    with_zn(flag_set(flags, Flag::Carry, reg >= data), spec_wrap_sub8(reg, data))
}

/// Compare accumulator with operand.
pub open spec fn cmp_step(m: CpuView, mode: AddressingMode) -> CpuView {
    let (m1, data, _address) = operand_read(m, mode);
    CpuView { flags: compare_flags(m1.flags, m.a, data), ..m1 }
}

/// Compare X with operand.
pub open spec fn cpx_step(m: CpuView, mode: AddressingMode) -> CpuView {
    let (m1, data, _address) = operand_read(m, mode);
    CpuView { flags: compare_flags(m1.flags, m.x, data), ..m1 }
}

/// Compare Y with operand.
pub open spec fn cpy_step(m: CpuView, mode: AddressingMode) -> CpuView {
    let (m1, data, _address) = operand_read(m, mode);
    CpuView { flags: compare_flags(m1.flags, m.y, data), ..m1 }
}

// ---------------------------------------------------------------------------
// Increment and decrement
// ---------------------------------------------------------------------------
/// Increment a memory operand with 8-bit wraparound; Carry untouched.
pub open spec fn inc_step(m: CpuView, mode: AddressingMode) -> CpuView {
    let (m1, data, address) = operand_read(m, mode);
    let result = spec_wrap_add8(data, 1);
    CpuView {
        flags: with_zn(m1.flags, result),
        bus: bus_written(m1.bus, address, result),
        ..m1
    }
}

/// Decrement a memory operand with 8-bit wraparound.
pub open spec fn dec_step(m: CpuView, mode: AddressingMode) -> CpuView {
    let (m1, data, address) = operand_read(m, mode);
    let result = spec_wrap_sub8(data, 1);
    CpuView {
        flags: with_zn(m1.flags, result),
        bus: bus_written(m1.bus, address, result),
        ..m1
    }
}

/// Increment X.
pub open spec fn inx_step(m: CpuView) -> CpuView {
    let result = spec_wrap_add8(m.x, 1);
    CpuView { x: result, flags: with_zn(m.flags, result), ..m }
}

/// Increment Y.
pub open spec fn iny_step(m: CpuView) -> CpuView {
    let result = spec_wrap_add8(m.y, 1);
    CpuView { y: result, flags: with_zn(m.flags, result), ..m }
}

/// Decrement X.
pub open spec fn dex_step(m: CpuView) -> CpuView {
    let result = spec_wrap_sub8(m.x, 1);
    CpuView { x: result, flags: with_zn(m.flags, result), ..m }
}

/// Decrement Y.
pub open spec fn dey_step(m: CpuView) -> CpuView {
    let result = spec_wrap_sub8(m.y, 1);
    CpuView { y: result, flags: with_zn(m.flags, result), ..m }
}

// ---------------------------------------------------------------------------
// Control flow
// ---------------------------------------------------------------------------
/// Jump: load the program counter with the resolved address (direct, or
/// through an indirect pointer subject to the page-boundary bug).
pub open spec fn jmp_step(m: CpuView, mode: AddressingMode) -> CpuView {
    let r = resolve(m, mode);
    CpuView { pc: r.address, ..r.cpu }
}

/// Software interrupt: push the program counter, push the flag byte with
/// Break forced set, then load the program counter from the interrupt
/// vector.
pub open spec fn brk_step(m: CpuView) -> CpuView {
    let m1 = word_pushed(m, m.pc);
    let m2 = byte_pushed(m1, m1.flags | flag_mask(Flag::Break));
    CpuView { pc: word_at(m2.bus, 0xfffe), bus: m2.bus.tick(2), ..m2 }
}

/// Subroutine call: push the address of the last byte of the call
/// instruction (return-address-minus-one convention) and jump.
pub open spec fn jsr_step(m: CpuView, mode: AddressingMode) -> CpuView {
    let r = resolve(m, mode);
    let m1 = word_pushed(r.cpu, spec_wrap_sub16(r.cpu.pc, 1));
    CpuView { pc: r.address, ..m1 }
}

/// Return from interrupt: pop the flag byte (Unused forced set), then pop
/// the program counter, with no return-address adjustment.
pub open spec fn rti_step(m: CpuView) -> CpuView {
    let (m1, v) = byte_popped(m);
    let m2 = CpuView { flags: v | flag_mask(Flag::Unused), ..m1 };
    let (m3, w) = word_popped(m2);
    CpuView { pc: w, ..m3 }
}

/// Return from subroutine: pop the program counter and add one.
pub open spec fn rts_step(m: CpuView) -> CpuView {
    let (m1, w) = word_popped(m);
    CpuView { pc: spec_wrap_add16(w, 1), ..m1 }
}

/// A branch: resolve the relative target; when taken, one extra cycle,
/// and a second when the target's page differs from that of the program
/// counter after the branch instruction.
pub open spec fn branch_step(m: CpuView, take: bool) -> CpuView {
    let r = resolve(m, AddressingMode::Relative);
    if take {
        let extra: nat = if page_crossed(r.cpu.pc, r.address) {
            2
        } else {
            1
        };
        CpuView { pc: r.address, bus: r.cpu.bus.tick(extra), ..r.cpu }
    } else {
        r.cpu
    }
}

/// Branch on Carry clear.
pub open spec fn bcc_step(m: CpuView) -> CpuView {
    branch_step(m, !flag_get(m.flags, Flag::Carry))
}

/// Branch on Carry set.
pub open spec fn bcs_step(m: CpuView) -> CpuView {
    branch_step(m, flag_get(m.flags, Flag::Carry))
}

/// Branch on Zero set.
pub open spec fn beq_step(m: CpuView) -> CpuView {
    branch_step(m, flag_get(m.flags, Flag::Zero))
}

/// Branch on Negative set.
pub open spec fn bmi_step(m: CpuView) -> CpuView {
    branch_step(m, flag_get(m.flags, Flag::Negative))
}

/// Branch on Zero clear.
pub open spec fn bne_step(m: CpuView) -> CpuView {
    branch_step(m, !flag_get(m.flags, Flag::Zero))
}

/// Branch on Negative clear.
pub open spec fn bpl_step(m: CpuView) -> CpuView {
    branch_step(m, !flag_get(m.flags, Flag::Negative))
}

/// Branch on Overflow clear.
pub open spec fn bvc_step(m: CpuView) -> CpuView {
    branch_step(m, !flag_get(m.flags, Flag::Overflow))
}

/// Branch on Overflow set.
pub open spec fn bvs_step(m: CpuView) -> CpuView {
    branch_step(m, flag_get(m.flags, Flag::Overflow))
}

/// Force one flag to a fixed value, the whole effect of the explicit
/// flag-set and flag-clear instructions.
pub open spec fn flag_write_step(m: CpuView, flag: Flag, on: bool) -> CpuView {
    CpuView { flags: flag_set(m.flags, flag, on), ..m }
}

/// No operation.
pub open spec fn nop_step(m: CpuView) -> CpuView {
    m
}

/// What one decoded instruction does to the machine. Opaque so that a
/// caller's proof context stays small; reveal it to split on the
/// operation.
#[verifier::opaque]
pub open spec fn instr_step(m: CpuView, op: Op, mode: AddressingMode) -> CpuView {
    match op {
        Op::Lda => lda_step(m, mode),
        Op::Ldx => ldx_step(m, mode),
        Op::Ldy => ldy_step(m, mode),
        Op::Sta => sta_step(m, mode),
        Op::Stx => stx_step(m, mode),
        Op::Sty => sty_step(m, mode),
        Op::Tax => tax_step(m),
        Op::Tay => tay_step(m),
        Op::Tsx => tsx_step(m),
        Op::Txa => txa_step(m),
        Op::Txs => txs_step(m),
        Op::Tya => tya_step(m),
        Op::Pha => pha_step(m),
        Op::Php => php_step(m),
        Op::Pla => pla_step(m),
        Op::Plp => plp_step(m),
        Op::AslA => asl_a_step(m),
        Op::Asl => asl_step(m, mode),
        Op::LsrA => lsr_a_step(m),
        Op::Lsr => lsr_step(m, mode),
        Op::RolA => rol_a_step(m),
        Op::Rol => rol_step(m, mode),
        Op::RorA => ror_a_step(m),
        Op::Ror => ror_step(m, mode),
        Op::And => and_step(m, mode),
        Op::Bit => bit_step(m, mode),
        Op::Eor => eor_step(m, mode),
        Op::Ora => ora_step(m, mode),
        Op::Adc => adc_step(m, mode),
        Op::Sbc => sbc_step(m, mode),
        Op::Cmp => cmp_step(m, mode),
        Op::Cpx => cpx_step(m, mode),
        Op::Cpy => cpy_step(m, mode),
        Op::Inc => inc_step(m, mode),
        Op::Inx => inx_step(m),
        Op::Iny => iny_step(m),
        Op::Dec => dec_step(m, mode),
        Op::Dex => dex_step(m),
        Op::Dey => dey_step(m),
        Op::Jmp => jmp_step(m, mode),
        Op::Brk => brk_step(m),
        Op::Jsr => jsr_step(m, mode),
        Op::Rti => rti_step(m),
        Op::Rts => rts_step(m),
        Op::Bcc => bcc_step(m),
        Op::Bcs => bcs_step(m),
        Op::Beq => beq_step(m),
        Op::Bmi => bmi_step(m),
        Op::Bne => bne_step(m),
        Op::Bpl => bpl_step(m),
        Op::Bvc => bvc_step(m),
        Op::Bvs => bvs_step(m),
        Op::Clc => flag_write_step(m, Flag::Carry, false),
        Op::Cld => flag_write_step(m, Flag::DecimalMode, false),
        Op::Cli => flag_write_step(m, Flag::InterruptDisable, false),
        Op::Clv => flag_write_step(m, Flag::Overflow, false),
        Op::Sec => flag_write_step(m, Flag::Carry, true),
        Op::Sed => flag_write_step(m, Flag::DecimalMode, true),
        Op::Sei => flag_write_step(m, Flag::InterruptDisable, true),
        Op::Nop => nop_step(m),
    }
}

/// The fault raised by an opcode byte outside the dispatch table: the
/// offending byte and the program counter at fault time (just past the
/// fetched opcode). Decoding must never continue past it.
#[derive(Clone, Copy, PartialEq, Eq, Structural, Debug)]
pub struct UnsupportedOpcode {
    pub opcode: u8,
    pub pc: u16,
}

/// One whole machine step: fetch the opcode byte at the program counter
/// (one cycle, program counter advances by one), then either run the
/// decoded instruction or stop with the fault for an unsupported opcode,
/// leaving the machine exactly as the fetch left it.
pub open spec fn step(m: CpuView) -> (CpuView, Option<UnsupportedOpcode>) {
    let opcode = bus_value(m.bus, m.pc);
    let m1 = CpuView { pc: spec_wrap_add16(m.pc, 1), bus: m.bus.tick(1), ..m };
    match decode(opcode) {
        Some(info) => (instr_step(m1, info.op, info.mode), None),
        None => (m1, Some(UnsupportedOpcode { opcode, pc: m1.pc })),
    }
}

impl CPU {
    /// Load accumulator.
    pub fn lda(&mut self, mode: AddressingMode)
        requires
            old(self)@.wf(),
            old(self)@.bus.cycles + 7 <= u64::MAX,
        ensures
            final(self)@.wf(),
            final(self)@ == lda_step(old(self)@, mode),
    {
        let (data, _address) = self.read_operand(mode);
        self.set_flag_zero_negative(data);
        self.a = data;
    }

    /// Load index X.
    pub fn ldx(&mut self, mode: AddressingMode)
        requires
            old(self)@.wf(),
            old(self)@.bus.cycles + 7 <= u64::MAX,
        ensures
            final(self)@.wf(),
            final(self)@ == ldx_step(old(self)@, mode),
    {
        let (data, _address) = self.read_operand(mode);
        self.set_flag_zero_negative(data);
        self.x = data;
    }

    /// Load index Y.
    pub fn ldy(&mut self, mode: AddressingMode)
        requires
            old(self)@.wf(),
            old(self)@.bus.cycles + 7 <= u64::MAX,
        ensures
            final(self)@.wf(),
            final(self)@ == ldy_step(old(self)@, mode),
    {
        let (data, _address) = self.read_operand(mode);
        self.set_flag_zero_negative(data);
        self.y = data;
    }

    /// Store accumulator.
    pub fn sta(&mut self, mode: AddressingMode)
        requires
            old(self)@.wf(),
            old(self)@.bus.cycles + 7 <= u64::MAX,
        ensures
            final(self)@.wf(),
            final(self)@ == sta_step(old(self)@, mode),
    {
        let address = self.read_operand_address(mode);
        let value = self.a;
        self.bus.write_byte(address, value);
    }

    /// Store index X.
    pub fn stx(&mut self, mode: AddressingMode)
        requires
            old(self)@.wf(),
            old(self)@.bus.cycles + 7 <= u64::MAX,
        ensures
            final(self)@.wf(),
            final(self)@ == stx_step(old(self)@, mode),
    {
        let address = self.read_operand_address(mode);
        let value = self.x;
        self.bus.write_byte(address, value);
    }

    /// Store index Y.
    pub fn sty(&mut self, mode: AddressingMode)
        requires
            old(self)@.wf(),
            old(self)@.bus.cycles + 7 <= u64::MAX,
        ensures
            final(self)@.wf(),
            final(self)@ == sty_step(old(self)@, mode),
    {
        let address = self.read_operand_address(mode);
        let value = self.y;
        self.bus.write_byte(address, value);
    }

    /// Transfer accumulator to X.
    pub fn tax(&mut self)
        ensures
            final(self)@ == tax_step(old(self)@),
    {
        self.x = self.a;
        let value = self.x;
        self.set_flag_zero_negative(value);
    }

    /// Transfer accumulator to Y.
    pub fn tay(&mut self)
        ensures
            final(self)@ == tay_step(old(self)@),
    {
        self.y = self.a;
        let value = self.y;
        self.set_flag_zero_negative(value);
    }

    /// Transfer stack pointer to X.
    pub fn tsx(&mut self)
        ensures
            final(self)@ == tsx_step(old(self)@),
    {
        self.x = self.sp;
        let value = self.x;
        self.set_flag_zero_negative(value);
    }

    /// Transfer X to accumulator.
    pub fn txa(&mut self)
        ensures
            final(self)@ == txa_step(old(self)@),
    {
        self.a = self.x;
        let value = self.a;
        self.set_flag_zero_negative(value);
    }

    /// Transfer X to stack pointer; flags untouched.
    pub fn txs(&mut self)
        ensures
            final(self)@ == txs_step(old(self)@),
    {
        self.sp = self.x;
    }

    /// Transfer Y to accumulator.
    pub fn tya(&mut self)
        ensures
            final(self)@ == tya_step(old(self)@),
    {
        self.a = self.y;
        let value = self.a;
        self.set_flag_zero_negative(value);
    }

    /// Push accumulator.
    pub fn pha(&mut self)
        requires
            old(self)@.wf(),
            old(self)@.bus.cycles + 7 <= u64::MAX,
        ensures
            final(self)@.wf(),
            final(self)@ == pha_step(old(self)@),
    {
        let value = self.a;
        self.push_byte(value);
    }

    /// Push the flag byte.
    pub fn php(&mut self)
        requires
            old(self)@.wf(),
            old(self)@.bus.cycles + 7 <= u64::MAX,
        ensures
            final(self)@.wf(),
            final(self)@ == php_step(old(self)@),
    {
        let value = self.flags;
        self.push_byte(value);
    }

    /// Pop into the accumulator.
    pub fn pla(&mut self)
        requires
            old(self)@.wf(),
            old(self)@.bus.cycles + 7 <= u64::MAX,
        ensures
            final(self)@.wf(),
            final(self)@ == pla_step(old(self)@),
    {
        let value = self.pop_byte();
        self.a = value;
        self.set_flag_zero_negative(value);
    }

    /// Pop the flag byte, forcing the Unused flag set.
    pub fn plp(&mut self)
        requires
            old(self)@.wf(),
            old(self)@.bus.cycles + 7 <= u64::MAX,
        ensures
            final(self)@.wf(),
            final(self)@ == plp_step(old(self)@),
    {
        let value = self.pop_byte();
        self.flags = value | mask_of(Flag::Unused);
    }

    /// Shared flag work of a left shift; returns the shifted value.
    pub fn do_asl(&mut self, data: u8) -> (result: u8)
        ensures
            final(self)@ == do_asl_step(old(self)@, data),
            result == data << 1,
    {
        let result = data << 1;
        self.set_flag(Flag::Carry, data & 0x80 != 0);
        self.set_flag_zero_negative(result);
        result
    }

    /// Left shift of a memory operand.
    pub fn asl(&mut self, mode: AddressingMode)
        requires
            old(self)@.wf(),
            old(self)@.bus.cycles + 7 <= u64::MAX,
        ensures
            final(self)@.wf(),
            final(self)@ == asl_step(old(self)@, mode),
    {
        let (data, address) = self.read_operand(mode);
        let result = self.do_asl(data);
        self.bus.write_byte(address, result);
    }

    /// Left shift of the accumulator.
    pub fn asl_a(&mut self)
        ensures
            final(self)@ == asl_a_step(old(self)@),
    {
        let data = self.a;
        self.a = self.do_asl(data);
    }

    /// Shared flag work of a right shift; returns the shifted value.
    pub fn do_lsr(&mut self, data: u8) -> (result: u8)
        ensures
            final(self)@ == do_lsr_step(old(self)@, data),
            result == data >> 1,
    {
        let result = data >> 1;
        self.set_flag(Flag::Carry, data & 0x01 != 0);
        self.set_flag_zero_negative(result);
        result
    }

    /// Right shift of a memory operand.
    pub fn lsr(&mut self, mode: AddressingMode)
        requires
            old(self)@.wf(),
            old(self)@.bus.cycles + 7 <= u64::MAX,
        ensures
            final(self)@.wf(),
            final(self)@ == lsr_step(old(self)@, mode),
    {
        let (data, address) = self.read_operand(mode);
        let result = self.do_lsr(data);
        self.bus.write_byte(address, result);
    }

    /// Right shift of the accumulator.
    pub fn lsr_a(&mut self)
        ensures
            final(self)@ == lsr_a_step(old(self)@),
    {
        let data = self.a;
        self.a = self.do_lsr(data);
    }

    /// Shared flag work of a left rotate; returns the rotated value.
    pub fn do_rol(&mut self, data: u8) -> (result: u8)
        ensures
            final(self)@ == do_rol_step(old(self)@, data),
            result == rol_result(old(self)@.flags, data),
    {
        let carry_in: u8 = if self.get_flag(Flag::Carry) {
            1
        } else {
            0
        };
        let result = (data << 1) | carry_in;
        self.set_flag(Flag::Carry, data & 0x80 != 0);
        self.set_flag_zero_negative(result);
        result
    }

    /// Left rotate of a memory operand.
    pub fn rol(&mut self, mode: AddressingMode)
        requires
            old(self)@.wf(),
            old(self)@.bus.cycles + 7 <= u64::MAX,
        ensures
            final(self)@.wf(),
            final(self)@ == rol_step(old(self)@, mode),
    {
        let (data, address) = self.read_operand(mode);
        let result = self.do_rol(data);
        self.bus.write_byte(address, result);
    }

    /// Left rotate of the accumulator.
    pub fn rol_a(&mut self)
        ensures
            final(self)@ == rol_a_step(old(self)@),
    {
        let data = self.a;
        self.a = self.do_rol(data);
    }

    /// Shared flag work of a right rotate; returns the rotated value.
    pub fn do_ror(&mut self, data: u8) -> (result: u8)
        ensures
            final(self)@ == do_ror_step(old(self)@, data),
            result == ror_result(old(self)@.flags, data),
    {
        let carry_in: u8 = if self.get_flag(Flag::Carry) {
            0x80
        } else {
            0
        };
        let result = (data >> 1) | carry_in;
        self.set_flag(Flag::Carry, data & 0x01 != 0);
        self.set_flag_zero_negative(result);
        result
    }

    /// Right rotate of a memory operand.
    pub fn ror(&mut self, mode: AddressingMode)
        requires
            old(self)@.wf(),
            old(self)@.bus.cycles + 7 <= u64::MAX,
        ensures
            final(self)@.wf(),
            final(self)@ == ror_step(old(self)@, mode),
    {
        let (data, address) = self.read_operand(mode);
        let result = self.do_ror(data);
        self.bus.write_byte(address, result);
    }

    /// Right rotate of the accumulator.
    pub fn ror_a(&mut self)
        ensures
            final(self)@ == ror_a_step(old(self)@),
    {
        let data = self.a;
        self.a = self.do_ror(data);
    }

    /// Bitwise AND with the accumulator.
    pub fn and(&mut self, mode: AddressingMode)
        requires
            old(self)@.wf(),
            old(self)@.bus.cycles + 7 <= u64::MAX,
        ensures
            final(self)@.wf(),
            final(self)@ == and_step(old(self)@, mode),
    {
        let (data, _address) = self.read_operand(mode);
        self.a = self.a & data;
        let value = self.a;
        self.set_flag_zero_negative(value);
    }

    /// Bit test.
    pub fn bit(&mut self, mode: AddressingMode)
        requires
            old(self)@.wf(),
            old(self)@.bus.cycles + 7 <= u64::MAX,
        ensures
            final(self)@.wf(),
            final(self)@ == bit_step(old(self)@, mode),
    {
        let (data, _address) = self.read_operand(mode);
        let result = self.a & data;
        self.set_flag(Flag::Zero, result == 0);
        self.set_flag(Flag::Overflow, data & 0x40 != 0);
        self.set_flag(Flag::Negative, data & 0x80 != 0);
    }

    /// Bitwise exclusive OR with the accumulator.
    pub fn eor(&mut self, mode: AddressingMode)
        requires
            old(self)@.wf(),
            old(self)@.bus.cycles + 7 <= u64::MAX,
        ensures
            final(self)@.wf(),
            final(self)@ == eor_step(old(self)@, mode),
    {
        let (data, _address) = self.read_operand(mode);
        self.a = self.a ^ data;
        let value = self.a;
        self.set_flag_zero_negative(value);
    }

    /// Bitwise OR with the accumulator.
    pub fn ora(&mut self, mode: AddressingMode)
        requires
            old(self)@.wf(),
            old(self)@.bus.cycles + 7 <= u64::MAX,
        ensures
            final(self)@.wf(),
            final(self)@ == ora_step(old(self)@, mode),
    {
        let (data, _address) = self.read_operand(mode);
        self.a = self.a | data;
        let value = self.a;
        self.set_flag_zero_negative(value);
    }

    /// Shared computation of add-with-carry (and, on a complemented
    /// operand, subtract-with-carry).
    pub fn do_adc(&mut self, data: u8)
        ensures
            final(self)@ == do_adc_step(old(self)@, data),
    {
        let carry_in: u16 = if self.get_flag(Flag::Carry) {
            1
        } else {
            0
        };
        let sum: u16 = self.a as u16 + data as u16 + carry_in;
        let result = (sum % 0x100) as u8;
        let acc = self.a;
        self.set_flag_zero_negative(result);
        self.set_flag(Flag::Carry, sum > 0xff);
        self.set_flag(Flag::Overflow, (!(acc ^ data) & (acc ^ result)) & 0x80 != 0);
        self.a = result;
    }

    /// Add with carry.
    pub fn adc(&mut self, mode: AddressingMode)
        requires
            old(self)@.wf(),
            old(self)@.bus.cycles + 7 <= u64::MAX,
        ensures
            final(self)@.wf(),
            final(self)@ == adc_step(old(self)@, mode),
    {
        let (data, _address) = self.read_operand(mode);
        self.do_adc(data);
    }

    /// Subtract with carry: add-with-carry of the complemented operand.
    pub fn sbc(&mut self, mode: AddressingMode)
        requires
            old(self)@.wf(),
            old(self)@.bus.cycles + 7 <= u64::MAX,
        ensures
            final(self)@.wf(),
            final(self)@ == sbc_step(old(self)@, mode),
    {
        let (data, _address) = self.read_operand(mode);
        self.do_adc(!data);
    }

    /// Compare accumulator with operand.
    pub fn cmp(&mut self, mode: AddressingMode)
        requires
            old(self)@.wf(),
            old(self)@.bus.cycles + 7 <= u64::MAX,
        ensures
            final(self)@.wf(),
            final(self)@ == cmp_step(old(self)@, mode),
    {
        let (data, _address) = self.read_operand(mode);
        let reg = self.a;
        let result = wrap_sub8(reg, data);
        self.set_flag(Flag::Carry, reg >= data);
        self.set_flag_zero_negative(result);
    }

    /// Compare X with operand.
    pub fn cpx(&mut self, mode: AddressingMode)
        requires
            old(self)@.wf(),
            old(self)@.bus.cycles + 7 <= u64::MAX,
        ensures
            final(self)@.wf(),
            final(self)@ == cpx_step(old(self)@, mode),
    {
        let (data, _address) = self.read_operand(mode);
        let reg = self.x;
        let result = wrap_sub8(reg, data);
        self.set_flag(Flag::Carry, reg >= data);
        self.set_flag_zero_negative(result);
    }

    /// Compare Y with operand.
    pub fn cpy(&mut self, mode: AddressingMode)
        requires
            old(self)@.wf(),
            old(self)@.bus.cycles + 7 <= u64::MAX,
        ensures
            final(self)@.wf(),
            final(self)@ == cpy_step(old(self)@, mode),
    {
        let (data, _address) = self.read_operand(mode);
        let reg = self.y;
        let result = wrap_sub8(reg, data);
        self.set_flag(Flag::Carry, reg >= data);
        self.set_flag_zero_negative(result);
    }

    /// Increment a memory operand.
    pub fn inc(&mut self, mode: AddressingMode)
        requires
            old(self)@.wf(),
            old(self)@.bus.cycles + 7 <= u64::MAX,
        ensures
            final(self)@.wf(),
            final(self)@ == inc_step(old(self)@, mode),
    {
        let (data, address) = self.read_operand(mode);
        let result = wrap_add8(data, 1);
        self.set_flag_zero_negative(result);
        self.bus.write_byte(address, result);
    }

    /// Increment X.
    pub fn inx(&mut self)
        ensures
            final(self)@ == inx_step(old(self)@),
    {
        self.x = wrap_add8(self.x, 1);
        let value = self.x;
        self.set_flag_zero_negative(value);
    }

    /// Increment Y.
    pub fn iny(&mut self)
        ensures
            final(self)@ == iny_step(old(self)@),
    {
        self.y = wrap_add8(self.y, 1);
        let value = self.y;
        self.set_flag_zero_negative(value);
    }

    /// Decrement a memory operand.
    pub fn dec(&mut self, mode: AddressingMode)
        requires
            old(self)@.wf(),
            old(self)@.bus.cycles + 7 <= u64::MAX,
        ensures
            final(self)@.wf(),
            final(self)@ == dec_step(old(self)@, mode),
    {
        let (data, address) = self.read_operand(mode);
        let result = wrap_sub8(data, 1);
        self.set_flag_zero_negative(result);
        self.bus.write_byte(address, result);
    }

    /// Decrement X.
    pub fn dex(&mut self)
        ensures
            final(self)@ == dex_step(old(self)@),
    {
        self.x = wrap_sub8(self.x, 1);
        let value = self.x;
        self.set_flag_zero_negative(value);
    }

    /// Decrement Y.
    pub fn dey(&mut self)
        ensures
            final(self)@ == dey_step(old(self)@),
    {
        self.y = wrap_sub8(self.y, 1);
        let value = self.y;
        self.set_flag_zero_negative(value);
    }

    /// Jump.
    pub fn jmp(&mut self, mode: AddressingMode)
        requires
            old(self)@.wf(),
            old(self)@.bus.cycles + 7 <= u64::MAX,
        ensures
            final(self)@.wf(),
            final(self)@ == jmp_step(old(self)@, mode),
    {
        let address = self.read_operand_address(mode);
        self.pc = address;
    }

    /// Software interrupt.
    pub fn brk(&mut self)
        requires
            old(self)@.wf(),
            old(self)@.bus.cycles + 7 <= u64::MAX,
        ensures
            final(self)@.wf(),
            final(self)@ == brk_step(old(self)@),
    {
        let pc = self.pc;
        self.push_word(pc);
        let flags = self.flags | mask_of(Flag::Break);
        self.push_byte(flags);
        self.pc = self.bus.read_word(0xfffe);
    }

    /// Subroutine call.
    pub fn jsr(&mut self, mode: AddressingMode)
        requires
            old(self)@.wf(),
            old(self)@.bus.cycles + 7 <= u64::MAX,
        ensures
            final(self)@.wf(),
            final(self)@ == jsr_step(old(self)@, mode),
    {
        let address = self.read_operand_address(mode);
        let return_address = wrap_sub16(self.pc, 1);
        self.push_word(return_address);
        self.pc = address;
    }

    /// Return from interrupt.
    pub fn rti(&mut self)
        requires
            old(self)@.wf(),
            old(self)@.bus.cycles + 7 <= u64::MAX,
        ensures
            final(self)@.wf(),
            final(self)@ == rti_step(old(self)@),
    {
        let value = self.pop_byte();
        self.flags = value | mask_of(Flag::Unused);
        self.pc = self.pop_word();
    }

    /// Return from subroutine.
    pub fn rts(&mut self)
        requires
            old(self)@.wf(),
            old(self)@.bus.cycles + 7 <= u64::MAX,
        ensures
            final(self)@.wf(),
            final(self)@ == rts_step(old(self)@),
    {
        let value = self.pop_word();
        self.pc = wrap_add16(value, 1);
    }

    /// Shared body of every branch: resolve the relative target and, when
    /// the branch is taken, charge the extra cycle (and a second on a page
    /// crossing) and load the program counter.
    pub fn branch_if(&mut self, take: bool)
        requires
            old(self)@.wf(),
            old(self)@.bus.cycles + 7 <= u64::MAX,
        ensures
            final(self)@.wf(),
            final(self)@ == branch_step(old(self)@, take),
    {
        let target = self.read_operand_address(AddressingMode::Relative);
        if take {
            self.bus.clock();
            if self.pc / 0x100 != target / 0x100 {
                self.bus.clock();
            }
            self.pc = target;
        }
    }

    /// Branch on Carry clear.
    pub fn bcc(&mut self)
        requires
            old(self)@.wf(),
            old(self)@.bus.cycles + 7 <= u64::MAX,
        ensures
            final(self)@.wf(),
            final(self)@ == bcc_step(old(self)@),
    {
        let c = self.get_flag(Flag::Carry);
        self.branch_if(!c);
    }

    /// Branch on Carry set.
    pub fn bcs(&mut self)
        requires
            old(self)@.wf(),
            old(self)@.bus.cycles + 7 <= u64::MAX,
        ensures
            final(self)@.wf(),
            final(self)@ == bcs_step(old(self)@),
    {
        let c = self.get_flag(Flag::Carry);
        self.branch_if(c);
    }

    /// Branch on Zero set.
    pub fn beq(&mut self)
        requires
            old(self)@.wf(),
            old(self)@.bus.cycles + 7 <= u64::MAX,
        ensures
            final(self)@.wf(),
            final(self)@ == beq_step(old(self)@),
    {
        let z = self.get_flag(Flag::Zero);
        self.branch_if(z);
    }

    /// Branch on Negative set.
    pub fn bmi(&mut self)
        requires
            old(self)@.wf(),
            old(self)@.bus.cycles + 7 <= u64::MAX,
        ensures
            final(self)@.wf(),
            final(self)@ == bmi_step(old(self)@),
    {
        let n = self.get_flag(Flag::Negative);
        self.branch_if(n);
    }

    /// Branch on Zero clear.
    pub fn bne(&mut self)
        requires
            old(self)@.wf(),
            old(self)@.bus.cycles + 7 <= u64::MAX,
        ensures
            final(self)@.wf(),
            final(self)@ == bne_step(old(self)@),
    {
        let z = self.get_flag(Flag::Zero);
        self.branch_if(!z);
    }

    /// Branch on Negative clear.
    pub fn bpl(&mut self)
        requires
            old(self)@.wf(),
            old(self)@.bus.cycles + 7 <= u64::MAX,
        ensures
            final(self)@.wf(),
            final(self)@ == bpl_step(old(self)@),
    {
        let n = self.get_flag(Flag::Negative);
        self.branch_if(!n);
    }

    /// Branch on Overflow clear.
    pub fn bvc(&mut self)
        requires
            old(self)@.wf(),
            old(self)@.bus.cycles + 7 <= u64::MAX,
        ensures
            final(self)@.wf(),
            final(self)@ == bvc_step(old(self)@),
    {
        let v = self.get_flag(Flag::Overflow);
        self.branch_if(!v);
    }

    /// Branch on Overflow set.
    pub fn bvs(&mut self)
        requires
            old(self)@.wf(),
            old(self)@.bus.cycles + 7 <= u64::MAX,
        ensures
            final(self)@.wf(),
            final(self)@ == bvs_step(old(self)@),
    {
        let v = self.get_flag(Flag::Overflow);
        self.branch_if(v);
    }

    /// Clear Carry.
    pub fn clc(&mut self)
        ensures
            final(self)@ == flag_write_step(old(self)@, Flag::Carry, false),
    {
        self.set_flag(Flag::Carry, false);
    }

    /// Clear Decimal mode.
    pub fn cld(&mut self)
        ensures
            final(self)@ == flag_write_step(old(self)@, Flag::DecimalMode, false),
    {
        self.set_flag(Flag::DecimalMode, false);
    }

    /// Clear Interrupt disable.
    pub fn cli(&mut self)
        ensures
            final(self)@ == flag_write_step(old(self)@, Flag::InterruptDisable, false),
    {
        self.set_flag(Flag::InterruptDisable, false);
    }

    /// Clear Overflow.
    pub fn clv(&mut self)
        ensures
            final(self)@ == flag_write_step(old(self)@, Flag::Overflow, false),
    {
        self.set_flag(Flag::Overflow, false);
    }

    /// Set Carry.
    pub fn sec(&mut self)
        ensures
            final(self)@ == flag_write_step(old(self)@, Flag::Carry, true),
    {
        self.set_flag(Flag::Carry, true);
    }

    /// Set Decimal mode.
    pub fn sed(&mut self)
        ensures
            final(self)@ == flag_write_step(old(self)@, Flag::DecimalMode, true),
    {
        self.set_flag(Flag::DecimalMode, true);
    }

    /// Set Interrupt disable.
    pub fn sei(&mut self)
        ensures
            final(self)@ == flag_write_step(old(self)@, Flag::InterruptDisable, true),
    {
        self.set_flag(Flag::InterruptDisable, true);
    }

    /// No operation.
    pub fn nop(&mut self)
        ensures
            final(self)@ == nop_step(old(self)@),
    {
    }

    /// Dispatch a decoded load, store, or register transfer.
    fn execute_load_store_transfer(&mut self, op: Op, mode: AddressingMode)
        requires
            old(self)@.wf(),
            old(self)@.bus.cycles + 7 <= u64::MAX,
            op is Lda || op is Ldx || op is Ldy || op is Sta || op is Stx || op is Sty || op
                is Tax || op is Tay || op is Tsx || op is Txa || op is Txs || op is Tya,
        ensures
            final(self)@.wf(),
            final(self)@ == instr_step(old(self)@, op, mode),
    {
        proof {
            reveal(instr_step);
        }
        match op {
            Op::Lda => self.lda(mode),
            Op::Ldx => self.ldx(mode),
            Op::Ldy => self.ldy(mode),
            Op::Sta => self.sta(mode),
            Op::Stx => self.stx(mode),
            Op::Sty => self.sty(mode),
            Op::Tax => self.tax(),
            Op::Tay => self.tay(),
            Op::Tsx => self.tsx(),
            Op::Txa => self.txa(),
            Op::Txs => self.txs(),
            _ => self.tya(),
        }
    }

    /// Dispatch a decoded stack operation, shift, or rotate.
    fn execute_stack_shift(&mut self, op: Op, mode: AddressingMode)
        requires
            old(self)@.wf(),
            old(self)@.bus.cycles + 7 <= u64::MAX,
            op is Pha || op is Php || op is Pla || op is Plp || op is AslA || op is Asl || op
                is LsrA || op is Lsr || op is RolA || op is Rol || op is RorA || op is Ror,
        ensures
            final(self)@.wf(),
            final(self)@ == instr_step(old(self)@, op, mode),
    {
        proof {
            reveal(instr_step);
        }
        match op {
            Op::Pha => self.pha(),
            Op::Php => self.php(),
            Op::Pla => self.pla(),
            Op::Plp => self.plp(),
            Op::AslA => self.asl_a(),
            Op::Asl => self.asl(mode),
            Op::LsrA => self.lsr_a(),
            Op::Lsr => self.lsr(mode),
            Op::RolA => self.rol_a(),
            Op::Rol => self.rol(mode),
            Op::RorA => self.ror_a(),
            _ => self.ror(mode),
        }
    }

    /// Dispatch a decoded bitwise, arithmetic, or compare operation.
    fn execute_bitwise_arith(&mut self, op: Op, mode: AddressingMode)
        requires
            old(self)@.wf(),
            old(self)@.bus.cycles + 7 <= u64::MAX,
            op is And || op is Bit || op is Eor || op is Ora || op is Adc || op is Sbc || op
                is Cmp || op is Cpx || op is Cpy,
        ensures
            final(self)@.wf(),
            final(self)@ == instr_step(old(self)@, op, mode),
    {
        proof {
            reveal(instr_step);
        }
        match op {
            Op::And => self.and(mode),
            Op::Bit => self.bit(mode),
            Op::Eor => self.eor(mode),
            Op::Ora => self.ora(mode),
            Op::Adc => self.adc(mode),
            Op::Sbc => self.sbc(mode),
            Op::Cmp => self.cmp(mode),
            Op::Cpx => self.cpx(mode),
            _ => self.cpy(mode),
        }
    }

    /// Dispatch a decoded increment or decrement.
    fn execute_inc_dec(&mut self, op: Op, mode: AddressingMode)
        requires
            old(self)@.wf(),
            old(self)@.bus.cycles + 7 <= u64::MAX,
            op is Inc || op is Inx || op is Iny || op is Dec || op is Dex || op is Dey,
        ensures
            final(self)@.wf(),
            final(self)@ == instr_step(old(self)@, op, mode),
    {
        proof {
            reveal(instr_step);
        }
        match op {
            Op::Inc => self.inc(mode),
            Op::Inx => self.inx(),
            Op::Iny => self.iny(),
            Op::Dec => self.dec(mode),
            Op::Dex => self.dex(),
            _ => self.dey(),
        }
    }

    /// Dispatch a decoded jump, call, return, or software interrupt.
    fn execute_control(&mut self, op: Op, mode: AddressingMode)
        requires
            old(self)@.wf(),
            old(self)@.bus.cycles + 7 <= u64::MAX,
            op is Jmp || op is Brk || op is Jsr || op is Rti || op is Rts,
        ensures
            final(self)@.wf(),
            final(self)@ == instr_step(old(self)@, op, mode),
    {
        proof {
            reveal(instr_step);
        }
        match op {
            Op::Jmp => self.jmp(mode),
            Op::Brk => self.brk(),
            Op::Jsr => self.jsr(mode),
            Op::Rti => self.rti(),
            _ => self.rts(),
        }
    }

    /// Dispatch a decoded branch.
    fn execute_branch(&mut self, op: Op, mode: AddressingMode)
        requires
            old(self)@.wf(),
            old(self)@.bus.cycles + 7 <= u64::MAX,
            op is Bcc || op is Bcs || op is Beq || op is Bmi || op is Bne || op is Bpl || op
                is Bvc || op is Bvs,
        ensures
            final(self)@.wf(),
            final(self)@ == instr_step(old(self)@, op, mode),
    {
        proof {
            reveal(instr_step);
        }
        match op {
            Op::Bcc => self.bcc(),
            Op::Bcs => self.bcs(),
            Op::Beq => self.beq(),
            Op::Bmi => self.bmi(),
            Op::Bne => self.bne(),
            Op::Bpl => self.bpl(),
            Op::Bvc => self.bvc(),
            _ => self.bvs(),
        }
    }

    /// Dispatch a decoded flag write or no-operation.
    fn execute_flag_op(&mut self, op: Op, mode: AddressingMode)
        requires
            old(self)@.wf(),
            old(self)@.bus.cycles + 7 <= u64::MAX,
            op is Clc || op is Cld || op is Cli || op is Clv || op is Sec || op is Sed || op
                is Sei || op is Nop,
        ensures
            final(self)@.wf(),
            final(self)@ == instr_step(old(self)@, op, mode),
    {
        proof {
            reveal(instr_step);
        }
        match op {
            Op::Clc => self.clc(),
            Op::Cld => self.cld(),
            Op::Cli => self.cli(),
            Op::Clv => self.clv(),
            Op::Sec => self.sec(),
            Op::Sed => self.sed(),
            Op::Sei => self.sei(),
            _ => self.nop(),
        }
    }

    /// Run one already-fetched opcode: dispatch through the table and
    /// execute, or refuse an unsupported opcode with the fault that names
    /// the byte and the program counter, changing nothing else.
    pub fn execute_instruction(&mut self, opcode: u8) -> (r: Result<(), UnsupportedOpcode>)
        requires
            old(self)@.wf(),
            old(self)@.bus.cycles + 7 <= u64::MAX,
        ensures
            final(self)@.wf(),
            match decode(opcode) {
                Some(info) => final(self)@ == instr_step(old(self)@, info.op, info.mode) && r
                    is Ok,
                None => final(self)@ == old(self)@ && r == Result::<
                    (),
                    UnsupportedOpcode,
                >::Err(UnsupportedOpcode { opcode, pc: old(self)@.pc }),
            },
    {
        match self.get_instruction_info(opcode) {
            None => Err(UnsupportedOpcode { opcode, pc: self.pc }),
            Some(info) => {
                match info.op {
                    Op::Lda | Op::Ldx | Op::Ldy | Op::Sta | Op::Stx | Op::Sty | Op::Tax | Op::Tay
                        | Op::Tsx | Op::Txa | Op::Txs | Op::Tya => self.execute_load_store_transfer(
                        info.op,
                        info.mode,
                    ),
                    Op::Pha | Op::Php | Op::Pla | Op::Plp | Op::AslA | Op::Asl | Op::LsrA
                        | Op::Lsr | Op::RolA | Op::Rol | Op::RorA | Op::Ror => self
                        .execute_stack_shift(info.op, info.mode),
                    Op::And | Op::Bit | Op::Eor | Op::Ora | Op::Adc | Op::Sbc | Op::Cmp | Op::Cpx
                        | Op::Cpy => self.execute_bitwise_arith(info.op, info.mode),
                    Op::Inc | Op::Inx | Op::Iny | Op::Dec | Op::Dex | Op::Dey => self
                        .execute_inc_dec(info.op, info.mode),
                    Op::Jmp | Op::Brk | Op::Jsr | Op::Rti | Op::Rts => self.execute_control(
                        info.op,
                        info.mode,
                    ),
                    Op::Bcc | Op::Bcs | Op::Beq | Op::Bmi | Op::Bne | Op::Bpl | Op::Bvc
                        | Op::Bvs => self.execute_branch(info.op, info.mode),
                    Op::Clc | Op::Cld | Op::Cli | Op::Clv | Op::Sec | Op::Sed | Op::Sei
                        | Op::Nop => self.execute_flag_op(info.op, info.mode),
                }
                Ok(())
            },
        }
    }

    /// Fetch the opcode byte at the program counter (one cycle, program
    /// counter advances by one) and execute the instruction it decodes to.
    /// An unsupported opcode is an unrecoverable fault: the fault names
    /// the byte and the program counter, and no further state changes.
    pub fn execute_next_instruction(&mut self) -> (r: Result<(), UnsupportedOpcode>)
        requires
            old(self)@.wf(),
            old(self)@.bus.cycles + 8 <= u64::MAX,
        ensures
            final(self)@.wf(),
            final(self)@ == step(old(self)@).0,
            match step(old(self)@).1 {
                None => r is Ok,
                Some(fault) => r == Result::<(), UnsupportedOpcode>::Err(fault),
            },
    {
        let pc = self.pc;
        let opcode = self.bus.read_byte(pc);
        self.pc = wrap_add16(pc, 1);
        self.execute_instruction(opcode)
    }
}

/// A load instruction sets Zero exactly when the loaded register is zero
/// and Negative exactly when its bit 7 is set, into whichever general
/// register it loads and from whatever addressing mode the operand came.
pub proof fn lemma_load_flags(m: CpuView, mode: AddressingMode)
    ensures
        flag_get(lda_step(m, mode).flags, Flag::Zero) <==> lda_step(m, mode).a == 0,
        flag_get(lda_step(m, mode).flags, Flag::Negative) <==> lda_step(m, mode).a & 0x80 != 0,
        flag_get(ldx_step(m, mode).flags, Flag::Zero) <==> ldx_step(m, mode).x == 0,
        flag_get(ldx_step(m, mode).flags, Flag::Negative) <==> ldx_step(m, mode).x & 0x80 != 0,
        flag_get(ldy_step(m, mode).flags, Flag::Zero) <==> ldy_step(m, mode).y == 0,
        flag_get(ldy_step(m, mode).flags, Flag::Negative) <==> ldy_step(m, mode).y & 0x80 != 0,
{
    let (m1, data, _address) = operand_read(m, mode);
    lemma_zero_negative_flags(m1.flags, data);
}

} // verus!
