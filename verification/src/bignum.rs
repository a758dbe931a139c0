//! The unsigned big integers that scalars live in, taken from the
//! `num-bigint` crate behind a small trusted boundary.
//!
//! A `BigUint` is opaque here; `big_value` names the unsigned value it
//! holds, and each wrapper states over that name what the crate's own
//! source shows of the one operation it calls.

use vstd::prelude::*;
use num_bigint::BigUint;
use crate::bytes_spec::be_val;
use crate::bytes_spec::min_be;

verus! {

/// The `num_bigint::BigUint` type, declared so that values of it can run
/// through the engine.
#[verifier::external_type_specification]
#[verifier::external_body]
pub struct ExBigUint(BigUint);

/// The unsigned value a `BigUint` holds.
pub uninterp spec fn big_value(b: BigUint) -> nat;

/// Relies on `BigUint::from_bytes_be`: reads an unsigned value from
/// big-endian bytes; an empty slice reads as zero.
#[verifier::external_body]
pub(crate) fn big_from_bytes_be(b: &[u8]) -> (r: BigUint)
    ensures
        big_value(r) == be_val(b@),
{
    BigUint::from_bytes_be(b)
}

/// Relies on `BigUint::to_bytes_be`: writes the minimal big-endian
/// encoding, a single zero byte for zero.
#[verifier::external_body]
pub(crate) fn big_to_bytes_be(a: &BigUint) -> (r: Vec<u8>)
    ensures
        r@ == min_be(big_value(*a)),
{
    a.to_bytes_be()
}

/// Relies on `BigUint::from`: a machine word as a big integer.
#[verifier::external_body]
pub(crate) fn big_from_u64(x: u64) -> (r: BigUint)
    ensures
        big_value(r) == x,
{
    BigUint::from(x)
}

/// Relies on the `Add` impl of `&BigUint`.
#[verifier::external_body]
pub(crate) fn big_add(a: &BigUint, b: &BigUint) -> (r: BigUint)
    ensures
        big_value(r) == big_value(*a) + big_value(*b),
{
    a + b
}

/// Relies on the `Sub` impl of `&BigUint`, which panics on underflow:
/// the precondition keeps that out.
#[verifier::external_body]
pub(crate) fn big_sub(a: &BigUint, b: &BigUint) -> (r: BigUint)
    requires
        big_value(*b) <= big_value(*a),
    ensures
        big_value(r) == big_value(*a) - big_value(*b),
{
    a - b
}

/// Relies on the `Mul` impl of `&BigUint`.
#[verifier::external_body]
pub(crate) fn big_mul(a: &BigUint, b: &BigUint) -> (r: BigUint)
    ensures
        big_value(r) == big_value(*a) * big_value(*b),
{
    a * b
}

/// Relies on the `Rem` impl of `&BigUint`, which panics on a zero
/// modulus: the precondition keeps that out.
#[verifier::external_body]
pub(crate) fn big_mod(a: &BigUint, m: &BigUint) -> (r: BigUint)
    requires
        big_value(*m) > 0,
    ensures
        big_value(r) == big_value(*a) % big_value(*m),
{
    a % m
}

/// Relies on the `PartialOrd` impl of `BigUint`: the order of the values.
#[verifier::external_body]
pub(crate) fn big_ge(a: &BigUint, b: &BigUint) -> (r: bool)
    ensures
        r == (big_value(*a) >= big_value(*b)),
{
    a >= b
}

} // verus!
