//! Arithmetic on IEEE-754 binary64 values, carried as their bit patterns.
//!
//! Verus does not reason about floating-point numbers, so every binary64
//! value in this crate is held as the `u64` bit pattern of its in-memory
//! representation. The arithmetic itself is done by `rustc_apfloat`, a
//! software implementation of IEEE-754 whose basic operations round to
//! nearest, ties to even. Each operation is a pure function of the operand
//! bits alone, named here by an uninterpreted spec function; the wrappers
//! below are the only places where the outside crate is called.

use vstd::prelude::*;
use rustc_apfloat::Float;

verus! {

/// The bit pattern of the binary64 sum `a + b`.
pub uninterp spec fn add_bits(a: u64, b: u64) -> u64;

/// The bit pattern of the binary64 difference `a - b`.
pub uninterp spec fn sub_bits(a: u64, b: u64) -> u64;

/// The bit pattern of the binary64 product `a * b`.
pub uninterp spec fn mul_bits(a: u64, b: u64) -> u64;

/// The bit pattern of the binary64 quotient `a / b`.
pub uninterp spec fn div_bits(a: u64, b: u64) -> u64;

/// The bit pattern of the binary64 value nearest the count `n`.
pub uninterp spec fn count_bits(n: usize) -> u64;

/// Relies on `rustc_apfloat::ieee::Double`'s `Add` (`add_r` rounding to
/// nearest, ties to even): the sum is a function of the operand bits alone.
#[verifier::external_body]
pub fn add64(a: u64, b: u64) -> (r: u64)
    ensures
        r == add_bits(a, b),
{
    let x = rustc_apfloat::ieee::Double::from_bits(a as u128);
    let y = rustc_apfloat::ieee::Double::from_bits(b as u128);
    (x + y).value.to_bits() as u64
}

/// Relies on `rustc_apfloat::ieee::Double`'s `Sub` (`sub_r` rounding to
/// nearest, ties to even): the difference is a function of the operand bits
/// alone.
#[verifier::external_body]
pub fn sub64(a: u64, b: u64) -> (r: u64)
    ensures
        r == sub_bits(a, b),
{
    let x = rustc_apfloat::ieee::Double::from_bits(a as u128);
    let y = rustc_apfloat::ieee::Double::from_bits(b as u128);
    (x - y).value.to_bits() as u64
}

/// Relies on `rustc_apfloat::ieee::Double`'s `Mul` (`mul_r` rounding to
/// nearest, ties to even): the product is a function of the operand bits
/// alone.
#[verifier::external_body]
pub fn mul64(a: u64, b: u64) -> (r: u64)
    ensures
        r == mul_bits(a, b),
{
    let x = rustc_apfloat::ieee::Double::from_bits(a as u128);
    let y = rustc_apfloat::ieee::Double::from_bits(b as u128);
    (x * y).value.to_bits() as u64
}

/// Relies on `rustc_apfloat::ieee::Double`'s `Div` (`div_r` rounding to
/// nearest, ties to even): the quotient is a function of the operand bits
/// alone. A zero divisor yields an infinity or NaN bit pattern, never a
/// panic.
#[verifier::external_body]
pub fn div64(a: u64, b: u64) -> (r: u64)
    ensures
        r == div_bits(a, b),
{
    let x = rustc_apfloat::ieee::Double::from_bits(a as u128);
    let y = rustc_apfloat::ieee::Double::from_bits(b as u128);
    (x / y).value.to_bits() as u64
}

/// Relies on `rustc_apfloat`'s `Float::from_u128` (rounding to nearest,
/// ties to even): the binary64 value nearest `n`, a function of `n` alone.
#[verifier::external_body]
pub fn count64(n: usize) -> (r: u64)
    ensures
        r == count_bits(n),
{
    rustc_apfloat::ieee::Double::from_u128(n as u128).value.to_bits() as u64
}

} // verus!
