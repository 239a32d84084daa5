//! Wrapping arithmetic on the machine's 8-bit and 16-bit quantities.
//!
//! Every register of the processor wraps: the 8-bit registers modulo 256 and
//! the program counter modulo 65536. These helpers perform the wrapped
//! operations in widened arithmetic so that the executable code provably
//! never overflows.

use vstd::prelude::*;

verus! {

/// `a + b` wrapped modulo 256.
pub open spec fn spec_wrap_add8(a: u8, b: u8) -> u8 {
    ((a + b) % 0x100) as u8
}

#[verifier::when_used_as_spec(spec_wrap_add8)]
pub fn wrap_add8(a: u8, b: u8) -> (r: u8)
    ensures
        r == spec_wrap_add8(a, b),
{
    (((a as u16) + (b as u16)) % 0x100) as u8
}

/// `a - b` wrapped modulo 256.
pub open spec fn spec_wrap_sub8(a: u8, b: u8) -> u8 {
    ((a + 0x100 - b) % 0x100) as u8
}

#[verifier::when_used_as_spec(spec_wrap_sub8)]
pub fn wrap_sub8(a: u8, b: u8) -> (r: u8)
    ensures
        r == spec_wrap_sub8(a, b),
{
    (((a as u16) + 0x100 - (b as u16)) % 0x100) as u8
}

/// `a + b` wrapped modulo 65536.
pub open spec fn spec_wrap_add16(a: u16, b: u16) -> u16 {
    ((a + b) % 0x10000) as u16
}

#[verifier::when_used_as_spec(spec_wrap_add16)]
pub fn wrap_add16(a: u16, b: u16) -> (r: u16)
    ensures
        r == spec_wrap_add16(a, b),
{
    (((a as u32) + (b as u32)) % 0x10000) as u16
}

/// `a - b` wrapped modulo 65536.
pub open spec fn spec_wrap_sub16(a: u16, b: u16) -> u16 {
    ((a + 0x10000 - b) % 0x10000) as u16
}

#[verifier::when_used_as_spec(spec_wrap_sub16)]
pub fn wrap_sub16(a: u16, b: u16) -> (r: u16)
    ensures
        r == spec_wrap_sub16(a, b),
{
    (((a as u32) + 0x10000 - (b as u32)) % 0x10000) as u16
}

/// The 16-bit value whose low byte is `low` and whose high byte is `high`,
/// as the bus assembles words (little-endian).
pub open spec fn spec_word_from_bytes(low: u8, high: u8) -> u16 {
    (low + high * 0x100) as u16
}

#[verifier::when_used_as_spec(spec_word_from_bytes)]
pub fn word_from_bytes(low: u8, high: u8) -> (r: u16)
    ensures
        r == spec_word_from_bytes(low, high),
{
    (low as u16) + (high as u16) * 0x100
}

/// The low byte of a 16-bit value.
pub open spec fn spec_low_byte(v: u16) -> u8 {
    (v % 0x100) as u8
}

#[verifier::when_used_as_spec(spec_low_byte)]
pub fn low_byte(v: u16) -> (r: u8)
    ensures
        r == spec_low_byte(v),
{
    (v % 0x100) as u8
}

/// The high byte of a 16-bit value.
pub open spec fn spec_high_byte(v: u16) -> u8 {
    (v / 0x100) as u8
}

#[verifier::when_used_as_spec(spec_high_byte)]
pub fn high_byte(v: u16) -> (r: u8)
    ensures
        r == spec_high_byte(v),
{
    (v / 0x100) as u8
}

/// An 8-bit branch offset sign-extended to the 16-bit value that, added to
/// the program counter modulo 65536, lands on the branch target.
pub open spec fn spec_sign_extend8(v: u8) -> u16 {
    if v < 0x80 {
        v as u16
    } else {
        (v + 0xff00) as u16
    }
}

#[verifier::when_used_as_spec(spec_sign_extend8)]
pub fn sign_extend8(v: u8) -> (r: u16)
    ensures
        r == spec_sign_extend8(v),
{
    if v < 0x80 {
        v as u16
    } else {
        (v as u16) + 0xff00
    }
}

} // verus!
