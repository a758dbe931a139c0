//! The SM2 curve engine, taken from the `libsm` crate behind a trusted
//! boundary.
//!
//! The curve parameters are those of the SM2 recommended curve over the
//! prime field of order `sm2_p`, with coefficients `sm2_a`, `sm2_b`, base
//! point `G` and group order `sm2_n`; the group has prime order, so a
//! multiple of an on-curve point is the point at infinity exactly when the
//! scalar is a multiple of `sm2_n`.  Points and field elements are opaque
//! here: `point_xy`, `point_inf` and `field_value` name what they hold,
//! `point_mul` names the affine result of scalar multiplication, and each
//! wrapper states over those names what the crate's source shows of the
//! one call it makes.

use vstd::prelude::*;
use libsm::sm2::ecc::EccCtx;
use libsm::sm2::ecc::Point;
use libsm::sm2::field::FieldElem;
use num_bigint::BigUint;
use crate::bignum::big_value;
use crate::bytes_spec::be_bytes;
use crate::bytes_spec::be_val;

verus! {

/// The `libsm` curve context, declared so that it can stand in fields and
/// signatures.  `EccCtx::new` is its only constructor, so every value of
/// it carries the same SM2 parameters.
#[verifier::external_type_specification]
#[verifier::external_body]
pub struct ExEccCtx(EccCtx);

/// A `libsm` curve point, in Jacobian form internally.
#[verifier::external_type_specification]
#[verifier::external_body]
pub struct ExPoint(Point);

/// A `libsm` element of the SM2 prime field: eight 32-bit words, so its
/// value is always below `256^32`.
#[verifier::external_type_specification]
#[verifier::external_body]
pub struct ExFieldElem(FieldElem);

/// The prime order of the SM2 base field.
pub open spec fn sm2_p() -> nat {
    0xFFFFFFFE_FFFFFFFF_FFFFFFFF_FFFFFFFF_FFFFFFFF_00000000_FFFFFFFF_FFFFFFFF_nat
}

/// The coefficient `a` of the curve equation; for SM2 it is `p - 3`.
pub open spec fn sm2_a() -> nat {
    0xFFFFFFFE_FFFFFFFF_FFFFFFFF_FFFFFFFF_FFFFFFFF_00000000_FFFFFFFF_FFFFFFFC_nat
}

/// The coefficient `b` of the curve equation.
pub open spec fn sm2_b() -> nat {
    0x28E9FA9E_9D9F5E34_4D5A9E4B_CF6509A7_F39789F5_15AB8F92_DDBCBD41_4D940E93_nat
}

/// The prime order of the curve group generated by the base point.
pub open spec fn sm2_n() -> nat {
    0xFFFFFFFE_FFFFFFFF_FFFFFFFF_FFFFFFFF_7203DF6B_21C6052B_53BBF409_39D54123_nat
}

/// The x coordinate of the base point `G`.
pub open spec fn sm2_gx() -> nat {
    0x32C4AE2C_1F198119_5F990446_6A39C994_8FE30BBF_F2660BE1_715A4589_334C74C7_nat
}

/// The y coordinate of the base point `G`.
pub open spec fn sm2_gy() -> nat {
    0xBC3736A2_F4F6779C_59BDCEE3_6B692153_D0A9877C_C62A4740_02DF32E5_2139F0A0_nat
}

/// Whether `(x, y)` is an affine point of the curve:
/// `y^2 = x^3 + a*x + b` over the base field.
pub open spec fn on_curve(x: nat, y: nat) -> bool {
    &&& x < sm2_p()
    &&& y < sm2_p()
    &&& (y * y) % sm2_p() == (x * x * x + sm2_a() * x + sm2_b()) % sm2_p()
}

/// The affine coordinates a point holds (meaningful when the point is not
/// the point at infinity).
pub uninterp spec fn point_xy(p: Point) -> (nat, nat);

/// Whether a point is the point at infinity.
pub uninterp spec fn point_inf(p: Point) -> bool;

/// The value a field element holds.
pub uninterp spec fn field_value(f: FieldElem) -> nat;

/// The affine coordinates of `k * G`, for `k` in `[1, sm2_n - 1]`.
pub open spec fn base_mul(k: nat) -> (nat, nat) {
    point_mul(k, sm2_gx(), sm2_gy())
}

/// The affine coordinates of `k * (x, y)`, for `k` in `[1, sm2_n - 1]`
/// and `(x, y)` on the curve.
pub uninterp spec fn point_mul(k: nat, x: nat, y: nat) -> (nat, nat);

/// Relies on `EccCtx::new`: the SM2 curve context.
#[verifier::external_body]
pub(crate) fn ecc_new() -> EccCtx {
    EccCtx::new()
}

/// Relies on `EccCtx::get_n`: the order of the curve group.
#[verifier::external_body]
pub(crate) fn ecc_get_n(ecc: &EccCtx) -> (r: BigUint)
    ensures
        big_value(r) == sm2_n(),
{
    ecc.get_n().clone()
}

/// Relies on `EccCtx::get_a`: the curve coefficient `a`, which for SM2 is
/// `p - 3`; the engine recovers `p` from it.
#[verifier::external_body]
pub(crate) fn ecc_get_a(ecc: &EccCtx) -> (r: FieldElem)
    ensures
        field_value(r) == sm2_a(),
{
    *ecc.get_a()
}

/// Relies on `EccCtx::random_uint`: a fresh scalar drawn from a CSPRNG,
/// rejected until it lands in `[1, sm2_n - 2]`.  Nothing relates two
/// draws: every call may return anything in that range.
#[verifier::external_body]
pub(crate) fn ecc_random(ecc: &EccCtx) -> (r: BigUint)
    ensures
        0 < big_value(r),
        big_value(r) < sm2_n() - 1,
{
    ecc.random_uint()
}

/// Relies on `EccCtx::generator`: the base point `G`, at its published
/// coordinates.
#[verifier::external_body]
pub(crate) fn ecc_generator(ecc: &EccCtx) -> (r: Result<Point, ()>)
    ensures
        r is Ok,
        r matches Ok(g) ==> {
            &&& !point_inf(g)
            &&& point_xy(g) == (sm2_gx(), sm2_gy())
            &&& on_curve(sm2_gx(), sm2_gy())
        },
{
    ecc.generator().map_err(|_| ())
}

/// Relies on `EccCtx::mul`: reduces the scalar mod `sm2_n` and multiplies
/// the given on-curve point by it.  The curve group has prime order
/// `sm2_n`, so the result is the point at infinity exactly when the
/// reduced scalar is zero.
#[verifier::external_body]
pub(crate) fn ecc_mul(ecc: &EccCtx, m: &BigUint, p: &Point) -> (r: Result<Point, ()>)
    requires
        !point_inf(*p),
        on_curve(point_xy(*p).0, point_xy(*p).1),
    ensures
        r is Ok,
        r matches Ok(q) ==> {
            &&& (point_inf(q) <==> big_value(*m) % sm2_n() == 0)
            &&& !point_inf(q) ==> point_xy(q) == point_mul(
                big_value(*m) % sm2_n(),
                point_xy(*p).0,
                point_xy(*p).1,
            )
            &&& !point_inf(q) ==> on_curve(point_xy(q).0, point_xy(q).1)
        },
{
    ecc.mul(m, p).map_err(|_| ())
}

/// Relies on `EccCtx::to_affine`: fails exactly on the point at infinity,
/// and otherwise returns the affine coordinates as reduced field elements.
#[verifier::external_body]
pub(crate) fn ecc_to_affine(ecc: &EccCtx, p: &Point) -> (r: Result<(FieldElem, FieldElem), ()>)
    ensures
        r is Ok <==> !point_inf(*p),
        r matches Ok(xy) ==> {
            &&& field_value(xy.0) == point_xy(*p).0
            &&& field_value(xy.1) == point_xy(*p).1
            &&& field_value(xy.0) < sm2_p()
            &&& field_value(xy.1) < sm2_p()
        },
{
    ecc.to_affine(p).map_err(|_| ())
}

/// Relies on `EccCtx::new_point`: checks the curve equation on the given
/// reduced coordinates and builds the affine point when it holds.
#[verifier::external_body]
pub(crate) fn ecc_new_point(ecc: &EccCtx, x: &FieldElem, y: &FieldElem) -> (r: Result<
    Point,
    (),
>)
    requires
        field_value(*x) < sm2_p(),
        field_value(*y) < sm2_p(),
    ensures
        r is Ok <==> on_curve(field_value(*x), field_value(*y)),
        r matches Ok(p) ==> {
            &&& !point_inf(p)
            &&& point_xy(p) == (field_value(*x), field_value(*y))
        },
{
    ecc.new_point(x, y).map_err(|_| ())
}

/// Relies on `FieldElem::from_bytes`: fails exactly when the slice is not
/// 32 bytes, and otherwise loads them big-endian, without reduction.
#[verifier::external_body]
pub(crate) fn fe_from_bytes(b: &[u8]) -> (r: Result<FieldElem, ()>)
    ensures
        r is Ok <==> b@.len() == 32,
        r matches Ok(f) ==> field_value(f) == be_val(b@),
{
    FieldElem::from_bytes(b).map_err(|_| ())
}

/// Relies on `FieldElem::to_bytes`: exactly the 32-byte big-endian
/// encoding of the element's value.
#[verifier::external_body]
pub(crate) fn fe_to_bytes(f: &FieldElem) -> (r: Vec<u8>)
    ensures
        r@ == be_bytes(field_value(*f), 32),
        be_val(r@) == field_value(*f),
{
    f.to_bytes()
}

/// Relies on `FieldElem::to_biguint`: the element's value as a big
/// integer.
#[verifier::external_body]
pub(crate) fn fe_to_biguint(f: &FieldElem) -> (r: BigUint)
    ensures
        big_value(r) == field_value(*f),
{
    f.to_biguint()
}

} // verus!
