//! The processor's flag byte: eight independent boolean flags packed one per
//! bit, together with the rules for reading and writing them.

use vstd::prelude::*;

verus! {

/// One of the eight processor status flags.
#[derive(Clone, Copy, PartialEq, Eq, Structural, Debug)]
pub enum Flag {
    Carry,
    Zero,
    InterruptDisable,
    DecimalMode,
    Break,
    Unused,
    Overflow,
    Negative,
}

/// The bit each flag occupies in the packed flag byte.
pub open spec fn flag_mask(flag: Flag) -> u8 {
    match flag {
        Flag::Carry => 0x01,
        Flag::Zero => 0x02,
        Flag::InterruptDisable => 0x04,
        Flag::DecimalMode => 0x08,
        Flag::Break => 0x10,
        Flag::Unused => 0x20,
        Flag::Overflow => 0x40,
        Flag::Negative => 0x80,
    }
}

/// The flag's bit as an executable value.
pub fn mask_of(flag: Flag) -> (m: u8)
    ensures
        m == flag_mask(flag),
{
    match flag {
        Flag::Carry => 0x01,
        Flag::Zero => 0x02,
        Flag::InterruptDisable => 0x04,
        Flag::DecimalMode => 0x08,
        Flag::Break => 0x10,
        Flag::Unused => 0x20,
        Flag::Overflow => 0x40,
        Flag::Negative => 0x80,
    }
}

/// Whether `flag` is set in the packed flag byte `flags`.
pub open spec fn flag_get(flags: u8, flag: Flag) -> bool {
    flags & flag_mask(flag) != 0
}

/// The flag byte `flags` with `flag` forced to `on`.
pub open spec fn flag_set(flags: u8, flag: Flag, on: bool) -> u8 {
    if on {
        flags | flag_mask(flag)
    } else {
        flags & !flag_mask(flag)
    }
}

/// The flag byte after an instruction derives Zero and Negative from the
/// 8-bit value `v`: Zero iff `v == 0`, Negative iff bit 7 of `v` is set.
pub open spec fn with_zn(flags: u8, v: u8) -> u8 {
    flag_set(flag_set(flags, Flag::Zero, v == 0), Flag::Negative, v & 0x80 != 0)
}

/// Deriving Zero and Negative from a value sets Zero exactly when the value
/// is 0, sets Negative exactly when bit 7 of the value is set, and leaves
/// every other flag as it was.
pub proof fn lemma_zero_negative_flags(flags: u8, v: u8)
    ensures
        flag_get(with_zn(flags, v), Flag::Zero) <==> v == 0,
        flag_get(with_zn(flags, v), Flag::Negative) <==> v & 0x80 != 0,
        forall|f: Flag|
            f != Flag::Zero && f != Flag::Negative ==> flag_get(with_zn(flags, v), f) == flag_get(
                flags,
                f,
            ),
{
    let r = with_zn(flags, v);
    assert(r == (if v & 0x80 != 0 {
        (if v == 0 {
            flags | 0x02
        } else {
            flags & !0x02
        }) | 0x80
    } else {
        (if v == 0 {
            flags | 0x02
        } else {
            flags & !0x02
        }) & !0x80u8
    }));
    assert(((if v & 0x80 != 0 {
        (if v == 0 {
            flags | 0x02
        } else {
            flags & !0x02
        }) | 0x80
    } else {
        (if v == 0 {
            flags | 0x02
        } else {
            flags & !0x02
        }) & !0x80u8
    }) & 0x02 != 0) <==> v == 0) by (bit_vector);
    assert(((if v & 0x80 != 0 {
        (if v == 0 {
            flags | 0x02
        } else {
            flags & !0x02
        }) | 0x80
    } else {
        (if v == 0 {
            flags | 0x02
        } else {
            flags & !0x02
        }) & !0x80u8
    }) & 0x80 != 0) <==> v & 0x80 != 0) by (bit_vector);
    assert({
        let s = (if v & 0x80 != 0 {
            (if v == 0 {
                flags | 0x02
            } else {
                flags & !0x02
            }) | 0x80
        } else {
            (if v == 0 {
                flags | 0x02
            } else {
                flags & !0x02
            }) & !0x80u8
        });
        (s & 0x01 == flags & 0x01) && (s & 0x04 == flags & 0x04) && (s & 0x08 == flags & 0x08) && (
        s & 0x10 == flags & 0x10) && (s & 0x20 == flags & 0x20) && (s & 0x40 == flags & 0x40)
    }) by (bit_vector);
    assert forall|f: Flag|
        f != Flag::Zero && f != Flag::Negative implies flag_get(with_zn(flags, v), f) == flag_get(
        flags,
        f,
    ) by {
        match f {
            Flag::Carry => assert(r & 0x01 == flags & 0x01),
            Flag::Zero => (),
            Flag::InterruptDisable => assert(r & 0x04 == flags & 0x04),
            Flag::DecimalMode => assert(r & 0x08 == flags & 0x08),
            Flag::Break => assert(r & 0x10 == flags & 0x10),
            Flag::Unused => assert(r & 0x20 == flags & 0x20),
            Flag::Overflow => assert(r & 0x40 == flags & 0x40),
            Flag::Negative => (),
        }
    }
}

/// Setting the Unused flag leaves it set, whatever flag byte it is applied
/// to. Relied on by the reset sequence and the flag restores from the stack.
pub proof fn lemma_unused_forced(flags: u8)
    ensures
        flag_get(flags | 0x20, Flag::Unused),
{
    assert((flags | 0x20u8) & 0x20 != 0) by (bit_vector);
}

} // verus!
