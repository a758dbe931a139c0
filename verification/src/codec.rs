//! Fixed-width encodings at the protocol boundary: a scalar is 32
//! big-endian bytes, zero-padded on the left; a point is its two 32-byte
//! coordinates.  Encoding and decoding are exact inverses for all valid
//! values, and decoding validates that the value read is in range and on
//! the curve.

use vstd::prelude::*;
use num_bigint::BigUint;
use libsm::sm2::ecc::EccCtx;
use libsm::sm2::ecc::Point;
use crate::bignum::big_add;
use crate::bignum::big_from_bytes_be;
use crate::bignum::big_from_u64;
use crate::bignum::big_ge;
use crate::bignum::big_to_bytes_be;
use crate::bignum::big_value;
use crate::bytes_spec::be_bytes;
use crate::bytes_spec::be_val;
use crate::bytes_spec::byte_len;
use crate::bytes_spec::lemma_be_bytes_len;
use crate::bytes_spec::lemma_be_bytes_of_val;
use crate::bytes_spec::lemma_be_bytes_val_small;
use crate::bytes_spec::lemma_be_val_zero_prefix;
use crate::bytes_spec::lemma_byte_len_bound;
use crate::bytes_spec::lemma_byte_len_le;
use crate::bytes_spec::lemma_byte_len_lower;
use crate::bytes_spec::lemma_min_be;
use crate::bytes_spec::lemma_pow256_mono;
use crate::bytes_spec::min_be;
use crate::bytes_spec::pow256;
use crate::bytes_spec::zero_bytes;
use crate::curve::ecc_get_a;
use crate::curve::ecc_new_point;
use crate::curve::ecc_to_affine;
use crate::curve::fe_from_bytes;
use crate::curve::fe_to_biguint;
use crate::curve::fe_to_bytes;
use crate::curve::field_value;
use crate::curve::on_curve;
use crate::curve::point_inf;
use crate::curve::point_xy;
use crate::curve::sm2_a;
use crate::curve::sm2_p;
use crate::error::Error;

verus! {

/// The canonical 32-byte big-endian encoding of a scalar value.
pub open spec fn scalar_enc(v: nat) -> Seq<u8> {
    be_bytes(v, 32)
}

/// The canonical 64-byte encoding of an affine point: `x` then `y`.
pub open spec fn point_enc(x: nat, y: nat) -> Seq<u8> {
    be_bytes(x, 32) + be_bytes(y, 32)
}

/// What decoding a point buffer yields: the coordinate pair when the
/// buffer is 64 bytes and reads back as a point of the curve, nothing
/// otherwise.
pub open spec fn point_dec(b: Seq<u8>) -> Option<(nat, nat)> {
    if b.len() == 64 {
        let x = be_val(b.subrange(0, 32));
        let y = be_val(b.subrange(32, 64));
        if on_curve(x, y) {
            Some((x, y))
        } else {
            None
        }
    } else {
        None
    }
}

/// `256^32`, the bound of every 32-byte value, as a literal.
pub proof fn lemma_pow256_32()
    ensures
        pow256(32) == 0x1_00000000_00000000_00000000_00000000_00000000_00000000_00000000_00000000_nat,
{
    reveal_with_fuel(pow256, 33);
}

/// Law: reading back the 32-byte encoding of any in-range scalar value
/// gives exactly that value, so `decode_scalar` inverts `encode_scalar`.
pub proof fn lemma_scalar_round_trip(v: nat)
    requires
        v < pow256(32),
    ensures
        scalar_enc(v).len() == 32,
        be_val(scalar_enc(v)) == v,
{
    lemma_be_bytes_len(v, 32);
    lemma_be_bytes_val_small(v, 32);
}

/// Law: a 64-byte buffer written by `point_enc` from a point of the curve
/// decodes to exactly that point, so `decode_point` inverts `encode_point`.
pub proof fn lemma_point_round_trip(x: nat, y: nat)
    requires
        on_curve(x, y),
    ensures
        point_enc(x, y).len() == 64,
        point_dec(point_enc(x, y)) == Some((x, y)),
{
    lemma_pow256_32();
    let bx = be_bytes(x, 32);
    let by = be_bytes(y, 32);
    lemma_be_bytes_len(x, 32);
    lemma_be_bytes_len(y, 32);
    assert(point_enc(x, y).subrange(0, 32) =~= bx);
    assert(point_enc(x, y).subrange(32, 64) =~= by);
    lemma_be_bytes_val_small(x, 32);
    lemma_be_bytes_val_small(y, 32);
}

/// Left-pads a big-endian byte string to the canonical 32-byte width.
fn left_pad_32(b: &Vec<u8>) -> (r: Vec<u8>)
    requires
        b@.len() <= 32,
    ensures
        r@ == be_bytes(be_val(b@), 32),
{
    let pad: usize = 32 - b.len();
    let mut r: Vec<u8> = Vec::new();
    let mut i: usize = 0;
    while i < pad
        invariant
            i <= pad,
            pad == 32 - b@.len(),
            r@ =~= zero_bytes(i as nat),
        decreases pad - i,
    {
        r.push(0u8);
        assert(r@ =~= zero_bytes((i + 1) as nat));
        i = i + 1;
    }
    let mut j: usize = 0;
    while j < b.len()
        invariant
            j <= b@.len(),
            b@.len() + pad == 32,
            r@ =~= zero_bytes(pad as nat) + b@.subrange(0, j as int),
        decreases b@.len() - j,
    {
        r.push(b[j]);
        assert(r@ =~= zero_bytes(pad as nat) + b@.subrange(0, (j + 1) as int));
        j = j + 1;
    }
    proof {
        assert(b@.subrange(0, b@.len() as int) =~= b@);
        lemma_be_val_zero_prefix(pad as nat, b@);
        lemma_be_bytes_of_val(r@);
        assert(r@.len() == 32);
    }
    r
}

/// Encodes a scalar as exactly 32 big-endian bytes, zero-padded on the
/// left; a value too wide for 32 bytes is rejected.
pub fn encode_scalar(s: &BigUint) -> (r: Result<Vec<u8>, Error>)
    ensures
        r is Ok <==> big_value(*s) < pow256(32),
        r matches Ok(v) ==> v@ == scalar_enc(big_value(*s)),
        big_value(*s) >= pow256(32) ==> r matches Err(Error::InvalidParam(_)),
{
    let b = big_to_bytes_be(s);
    let ghost v = big_value(*s);
    proof {
        lemma_min_be(v);
        if b@.len() > 32 {
            lemma_byte_len_lower(v);
            lemma_pow256_mono(32, (byte_len(v) - 1) as nat);
        } else {
            lemma_byte_len_bound(v);
            lemma_pow256_mono(byte_len(v), 32);
        }
    }
    if b.len() > 32 {
        Err(Error::InvalidParam(String::from_str("scalar does not fit in 32 bytes")))
    } else {
        Ok(left_pad_32(&b))
    }
}

/// Decodes a 32-byte big-endian buffer as a scalar; any other length is
/// rejected.
pub fn decode_scalar(b: &[u8]) -> (r: Result<BigUint, Error>)
    ensures
        r is Ok <==> b@.len() == 32,
        r matches Ok(s) ==> big_value(s) == be_val(b@),
        b@.len() != 32 ==> r matches Err(Error::Encoding(_)),
{
    if b.len() != 32 {
        Err(Error::Encoding(String::from_str("a scalar must be 32 bytes")))
    } else {
        Ok(big_from_bytes_be(b))
    }
}

/// Encodes a point as its two 32-byte coordinates; the point at infinity
/// has no such form and is rejected.
pub fn encode_point(ecc: &EccCtx, p: &Point) -> (r: Result<Vec<u8>, Error>)
    ensures
        r is Ok <==> !point_inf(*p),
        r matches Ok(v) ==> v@ == point_enc(point_xy(*p).0, point_xy(*p).1) && v@.len() == 64,
        point_inf(*p) ==> r matches Err(Error::Crypto(_)),
{
    match ecc_to_affine(ecc, p) {
        Ok((x, y)) => {
            let mut v = fe_to_bytes(&x);
            let yb = fe_to_bytes(&y);
            let ghost xpart = v@;
            let mut j: usize = 0;
            while j < yb.len()
                invariant
                    j <= yb@.len(),
                    v@ =~= xpart + yb@.subrange(0, j as int),
                decreases yb@.len() - j,
            {
                v.push(yb[j]);
                assert(v@ =~= xpart + yb@.subrange(0, (j + 1) as int));
                j = j + 1;
            }
            proof {
                assert(yb@.subrange(0, yb@.len() as int) =~= yb@);
                lemma_be_bytes_len(field_value(x), 32);
                lemma_be_bytes_len(field_value(y), 32);
            }
            Ok(v)
        },
        Err(_) => Err(Error::Crypto(String::from_str("cannot encode the point at infinity"))),
    }
}

/// Builds the field prime `p` from the curve's own coefficient `a`,
/// which is `p - 3`.
fn field_prime(ecc: &EccCtx) -> (r: BigUint)
    ensures
        big_value(r) == sm2_p(),
{
    let a = ecc_get_a(ecc);
    let av = fe_to_biguint(&a);
    let three = big_from_u64(3);
    let r = big_add(&av, &three);
    proof {
        assert(sm2_a() + 3 == sm2_p());
    }
    r
}

/// Decodes a 64-byte buffer as a point of the curve.  Anything else is
/// rejected: a wrong length or an out-of-field coordinate as an encoding
/// error, a coordinate pair off the curve as a cryptographic error; no
/// invalid point is ever produced.
pub fn decode_point(ecc: &EccCtx, b: &[u8]) -> (r: Result<Point, Error>)
    ensures
        r is Ok <==> point_dec(b@) is Some,
        r matches Ok(p) ==> (point_dec(b@) matches Some(xy) && !point_inf(p) && point_xy(p)
            == xy),
        b@.len() != 64 ==> r matches Err(Error::Encoding(_)),
        b@.len() == 64 && point_dec(b@) is None ==> (r matches Err(Error::Encoding(_))
            || r matches Err(Error::Crypto(_))),
{
    if b.len() != 64 {
        return Err(Error::Encoding(String::from_str("a point must be 64 bytes")));
    }
    let xs = vstd::slice::slice_subrange(b, 0, 32);
    let ys = vstd::slice::slice_subrange(b, 32, 64);
    let xf = match fe_from_bytes(xs) {
        Ok(f) => f,
        Err(_) => {
            return Err(Error::Encoding(String::from_str("unreadable x coordinate")));
        },
    };
    let yf = match fe_from_bytes(ys) {
        Ok(f) => f,
        Err(_) => {
            return Err(Error::Encoding(String::from_str("unreadable y coordinate")));
        },
    };
    let p_big = field_prime(ecc);
    let xv = fe_to_biguint(&xf);
    let yv = fe_to_biguint(&yf);
    if big_ge(&xv, &p_big) || big_ge(&yv, &p_big) {
        return Err(Error::Encoding(String::from_str("coordinate out of the base field")));
    }
    match ecc_new_point(ecc, &xf, &yf) {
        Ok(p) => Ok(p),
        Err(_) => Err(Error::Crypto(String::from_str("the coordinates are not on the curve"))),
    }
}

} // verus!
