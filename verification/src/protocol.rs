//! The collaborative SM2 protocol engine: the client-side halves of key
//! generation, signing and decryption.
//!
//! Every operation is a pure function of its explicit inputs and a CSPRNG:
//! the engine keeps no state between the prepare and complete halves of a
//! round beyond the caller-held nonce and key share, so concurrent use
//! needs no locking.
//!
//! The rounds are:
//! - key init: the client picks its share `d1` and sends the commitment
//!   `P1 = d1 * G`;
//! - sign: the client sends `Q1 = k1 * G` and the message hash `e`, the
//!   peer answers `(r, s2, s3)`, and the client finishes with
//!   `s = ((k1 * s3 - r * d1) mod n) * s2 mod n`;
//! - decrypt: the client sends `T1 = d1 * C1`, the peer answers `T2`, and
//!   the client recovers the plaintext as `C2 xor kdf(T2, |C2|)`.

use vstd::prelude::*;
use libsm::sm2::ecc::EccCtx;
use crate::bignum::big_add;
use crate::bignum::big_from_bytes_be;
use crate::bignum::big_from_u64;
use crate::bignum::big_ge;
use crate::bignum::big_mod;
use crate::bignum::big_mul;
use crate::bignum::big_sub;
use crate::bignum::big_to_bytes_be;
use crate::bignum::big_value;
use crate::bytes_spec::be_val;
use crate::bytes_spec::lemma_byte_len_le;
use crate::bytes_spec::lemma_min_be;

use crate::bytes_spec::pow256;
use crate::bytes_spec::xor_seq;
use crate::codec::encode_point;
use crate::codec::encode_scalar;
use crate::codec::decode_point;
use crate::codec::lemma_point_round_trip;
use crate::codec::lemma_pow256_32;
use crate::codec::lemma_scalar_round_trip;
use crate::codec::point_dec;
use crate::codec::point_enc;
use crate::codec::scalar_enc;
use crate::curve::base_mul;
use crate::curve::ecc_generator;
use crate::curve::ecc_get_n;
use crate::curve::ecc_mul;
use crate::curve::ecc_new;
use crate::curve::ecc_random;
use crate::curve::point_mul;
use crate::curve::point_xy;
use crate::curve::sm2_n;
use crate::error::Error;
use crate::hash::append_bytes;
use crate::hash::kdf;
use crate::hash::kdf_spec;
use crate::hash::sm3;
use crate::hash::sm3_hash;

verus! {

/// The wrap-safe modular subtraction `(a - b) mod m` on unsigned values:
/// when `a - b` would underflow, `(a + m - b) mod m` is taken instead.
pub open spec fn submod(a: nat, b: nat, m: nat) -> nat {
    if a >= b {
        ((a - b) as nat) % m
    } else {
        (((a + m) - b) as nat) % m
    }
}

/// The client's final signature scalar:
/// `s = ((k1 * s3 - r * d1) mod n) * s2 mod n`, with the subtraction
/// wrap-safe.
pub open spec fn combine_s(k1: nat, d1: nat, r: nat, s2: nat, s3: nat) -> nat {
    (submod((k1 * s3) % sm2_n(), (r * d1) % sm2_n(), sm2_n()) * s2) % sm2_n()
}

/// Law: for reduced operands the wrap-safe subtraction agrees with the
/// single expression `(a + m - b) mod m`, and its result is reduced; it
/// never underflows and never leaves an unreduced value.
pub proof fn lemma_submod_wrap(a: nat, b: nat, m: nat)
    requires
        a < m,
        b < m,
        0 < m,
    ensures
        submod(a, b, m) == ((a + m) - b) % (m as int),
        submod(a, b, m) < m,
{
    if a >= b {
        let d = (a - b) as nat;
        vstd::arithmetic::div_mod::lemma_small_mod(d, m);
        vstd::arithmetic::div_mod::lemma_mod_add_multiples_vanish(d as int, m as int);
        assert((((a + m) - b) as nat) % m == (m + d) % m);
    } else {
        let d = ((a + m) - b) as nat;
        vstd::arithmetic::div_mod::lemma_small_mod(d, m);
    }
    vstd::arithmetic::div_mod::lemma_mod_bound(((a + m) - b) as int, m as int);
}

/// Law: the commitment is a pure function of the share: any two encoded
/// commitments that `calculate_p1` may return for the same share bytes
/// are equal.
pub proof fn lemma_commit_deterministic(d1: Seq<u8>, r1: Seq<u8>, r2: Seq<u8>)
    requires
        r1 == point_enc(
            base_mul(be_val(d1) % sm2_n()).0,
            base_mul(be_val(d1) % sm2_n()).1,
        ),
        r2 == point_enc(
            base_mul(be_val(d1) % sm2_n()).0,
            base_mul(be_val(d1) % sm2_n()).1,
        ),
    ensures
        r1 == r2,
{
}

/// The `rand` thread-local generator, declared so that it can be drawn
/// from.
#[verifier::external_type_specification]
#[verifier::external_body]
pub struct ExThreadRng(rand::rngs::ThreadRng);

/// Relies on `rand::thread_rng`: a handle to the thread-local CSPRNG.
#[verifier::external_body]
fn rng_new() -> rand::rngs::ThreadRng {
    rand::thread_rng()
}

/// Relies on `RngCore::fill_bytes`: fills the buffer with random bytes.
/// Nothing relates two draws, so nothing more is stated.
#[verifier::external_body]
fn rng_fill(rng: &mut rand::rngs::ThreadRng, buf: &mut Vec<u8>)
    ensures
        final(buf)@.len() == old(buf)@.len(),
{
    rand::RngCore::fill_bytes(rng, buf.as_mut_slice());
}

/// Base64 text of the given bytes, under the standard alphabet with
/// padding.
pub uninterp spec fn b64_enc(data: Seq<u8>) -> Seq<char>;

/// What decoding base64 text yields: the bytes, or nothing when the text
/// is not valid base64.
pub uninterp spec fn b64_dec(s: Seq<char>) -> Option<Seq<u8>>;

/// Relies on the base64 `STANDARD` engine's `encode`: four output
/// characters for every three input bytes, the last group padded, and
/// decoding under the same engine gives the input back.
#[verifier::external_body]
pub fn base64_encode(data: &[u8]) -> (r: String)
    ensures
        r@ == b64_enc(data@),
        r@.len() == 4 * ((data@.len() + 2) / 3),
        b64_dec(r@) == Some(data@),
{
    base64::Engine::encode(&base64::engine::general_purpose::STANDARD, data)
}

/// Relies on the base64 `STANDARD` engine's `decode`: fails exactly on
/// text that is not valid base64.
#[verifier::external_body]
fn b64_decode_raw(data: &str) -> (r: Result<Vec<u8>, ()>)
    ensures
        r is Ok <==> b64_dec(data@) is Some,
        r matches Ok(v) ==> b64_dec(data@) == Some(v@),
{
    base64::Engine::decode(&base64::engine::general_purpose::STANDARD, data).map_err(|_| ())
}

/// Decodes base64 text; text that is not valid base64 is rejected as an
/// encoding error.
pub fn base64_decode(data: &str) -> (r: Result<Vec<u8>, Error>)
    ensures
        r is Ok <==> b64_dec(data@) is Some,
        r matches Ok(v) ==> b64_dec(data@) == Some(v@),
        b64_dec(data@) is None ==> r matches Err(Error::Encoding(_)),
{
    match b64_decode_raw(data) {
        Ok(v) => Ok(v),
        Err(_) => Err(Error::Encoding(String::from_str("invalid base64 text"))),
    }
}

/// Byte-wise exclusive or of `c` with the first `|c|` bytes of the
/// keystream `k`.
fn xor_bytes(c: &[u8], k: &[u8]) -> (r: Vec<u8>)
    requires
        k@.len() >= c@.len(),
    ensures
        r@ == xor_seq(c@, k@),
{
    let mut r: Vec<u8> = Vec::new();
    let mut i: usize = 0;
    while i < c.len()
        invariant
            i <= c@.len(),
            k@.len() >= c@.len(),
            r@.len() == i,
            forall|j: int| 0 <= j < i ==> r@[j] == (c@[j] ^ k@[j]),
        decreases c@.len() - i,
    {
        let b = *vstd::slice::slice_index_get(c, i) ^ *vstd::slice::slice_index_get(k, i);
        r.push(b);
        i = i + 1;
    }
    assert(r@ =~= xor_seq(c@, k@));
    r
}

/// Whether two byte strings are equal.
fn bytes_eq(a: &[u8], b: &[u8]) -> (r: bool)
    ensures
        r == (a@ == b@),
{
    if a.len() != b.len() {
        assert(a@ != b@);
        return false;
    }
    let mut i: usize = 0;
    while i < a.len()
        invariant
            i <= a@.len(),
            a@.len() == b@.len(),
            forall|j: int| 0 <= j < i ==> a@[j] == b@[j],
        decreases a@.len() - i,
    {
        if *vstd::slice::slice_index_get(a, i) != *vstd::slice::slice_index_get(b, i) {
            return false;
        }
        i = i + 1;
    }
    proof {
        assert(a@ =~= b@);
    }
    true
}

/// The bytes of a standalone ciphertext produced under the ephemeral
/// scalar `k` for the public key `(px, py)`: the prefixed point
/// `k * G`, the tag `sm3(t || msg)` and the masked payload, where `t` is
/// the encoded shared point `k * (px, py)`.
pub open spec fn cipher_of(k: nat, px: nat, py: nat, msg: Seq<u8>) -> Seq<u8> {
    let c1 = base_mul(k);
    let t = point_mul(k, px, py);
    let tb = point_enc(t.0, t.1);
    seq![4u8] + point_enc(c1.0, c1.1) + sm3(tb + msg) + xor_seq(msg, kdf_spec(tb, msg.len()))
}

/// The encoded shared point `d * C1` that masks a ciphertext's payload.
pub open spec fn shared_point_bytes(d: nat, c1x: nat, c1y: nat) -> Seq<u8> {
    let t = point_mul(d % sm2_n(), c1x, c1y);
    point_enc(t.0, t.1)
}

/// The collaborative protocol engine.  It holds only the fixed curve
/// context: no state survives between calls.
pub struct CoSignProtocol {
    ecc: EccCtx,
}

impl CoSignProtocol {
    /// A fresh engine over the SM2 curve.
    pub fn new() -> (r: Result<Self, Error>)
        ensures
            r is Ok,
    {
        Ok(CoSignProtocol { ecc: ecc_new() })
    }

    /// `bytes` random bytes from the thread-local CSPRNG.
    pub fn generate_random(bytes: usize) -> (r: Vec<u8>)
        ensures
            r@.len() == bytes,
    {
        let mut rng = rng_new();
        let mut data: Vec<u8> = Vec::new();
        let mut i: usize = 0;
        while i < bytes
            invariant
                data@.len() == i,
                i <= bytes,
            decreases bytes - i,
        {
            data.push(0u8);
            i = i + 1;
        }
        rng_fill(&mut rng, &mut data);
        data
    }

    /// The SM3 digest of `data`, as 32 bytes.
    pub fn sm3_hash(data: &[u8]) -> (r: Vec<u8>)
        ensures
            r@ == sm3(data@),
            r@.len() == 32,
    {
        sm3_hash(data)
    }

    /// Draws the client's secret share `d1`: a uniformly random scalar in
    /// `[1, n - 2]`, returned as its minimal big-endian bytes.
    pub fn generate_d1(&self) -> (r: Result<Vec<u8>, Error>)
        ensures
            r is Ok,
            r matches Ok(v) ==> {
                &&& 0 < be_val(v@)
                &&& be_val(v@) < sm2_n() - 1
                &&& 1 <= v@.len() <= 32
            },
    {
        let d1 = ecc_random(&self.ecc);
        let out = big_to_bytes_be(&d1);
        proof {
            let v = big_value(d1);
            lemma_min_be(v);
            lemma_pow256_32();
            lemma_byte_len_le(v, 32);
        }
        Ok(out)
    }

    /// The public commitment of a share: `P1 = d1 * G`, encoded as 64
    /// bytes.  A share that is a multiple of the group order has no
    /// commitment and is rejected.
    pub fn calculate_p1(&self, d1: &[u8]) -> (r: Result<Vec<u8>, Error>)
        ensures
            r is Ok <==> be_val(d1@) % sm2_n() != 0,
            r matches Ok(v) ==> ({
                let xy = base_mul(be_val(d1@) % sm2_n());
                &&& v@ == point_enc(xy.0, xy.1)
                &&& v@.len() == 64
                &&& point_dec(v@) == Some(xy)
            }),
            be_val(d1@) % sm2_n() == 0 ==> r matches Err(Error::Crypto(_)),
    {
        let d = big_from_bytes_be(d1);
        let g = match ecc_generator(&self.ecc) {
            Ok(g) => g,
            Err(_) => {
                return Err(Error::Crypto(String::from_str("the curve context has no base point")));
            },
        };
        match ecc_mul(&self.ecc, &d, &g) {
            Ok(p) => {
                match encode_point(&self.ecc, &p) {
                    Ok(v) => {
                        proof {
                            lemma_point_round_trip(point_xy(p).0, point_xy(p).1);
                        }
                        Ok(v)
                    },
                    Err(e) => Err(e),
                }
            },
            Err(_) => Err(Error::Crypto(String::from_str("base point multiplication failed"))),
        }
    }

    /// The prepare half of a signing round: draws the ephemeral nonce
    /// `k1` and returns it with the encoded `Q1 = k1 * G`.  The nonce is
    /// in `[1, n - 2]`; it must be held only by the caller across the
    /// round trip and never reused.
    pub fn sign_prepare(&self) -> (r: Result<(Vec<u8>, Vec<u8>), Error>)
        ensures
            r is Ok,
            r matches Ok(kq) ==> ({
                let kv = be_val(kq.0@);
                let xy = base_mul(kv);
                &&& 0 < kv < sm2_n() - 1
                &&& 1 <= kq.0@.len() <= 32
                &&& kq.1@ == point_enc(xy.0, xy.1)
                &&& kq.1@.len() == 64
                &&& point_dec(kq.1@) == Some(xy)
            }),
    {
        let k1 = ecc_random(&self.ecc);
        proof {
            vstd::arithmetic::div_mod::lemma_small_mod(big_value(k1), sm2_n());
        }
        let g = match ecc_generator(&self.ecc) {
            Ok(g) => g,
            Err(_) => {
                return Err(Error::Crypto(String::from_str("the curve context has no base point")));
            },
        };
        let q1 = match ecc_mul(&self.ecc, &k1, &g) {
            Ok(p) => p,
            Err(_) => {
                return Err(Error::Crypto(String::from_str("base point multiplication failed")));
            },
        };
        let q1_bytes = match encode_point(&self.ecc, &q1) {
            Ok(v) => v,
            Err(_) => {
                return Err(Error::Crypto(String::from_str("the nonce commitment is infinite")));
            },
        };
        proof {
            lemma_point_round_trip(point_xy(q1).0, point_xy(q1).1);
        }
        let k1_bytes = big_to_bytes_be(&k1);
        proof {
            let v = big_value(k1);
            lemma_min_be(v);
            lemma_pow256_32();
            lemma_byte_len_le(v, 32);
        }
        Ok((k1_bytes, q1_bytes))
    }

    /// The message hash `e` sent to the peer: the SM3 digest of the raw
    /// message.  The public key is not mixed in; the peer expects the raw
    /// digest.
    pub fn calculate_message_hash(&self, message: &[u8], _public_key: &[u8]) -> (r: Result<
        Vec<u8>,
        Error,
    >)
        ensures
            r is Ok,
            r matches Ok(v) ==> v@ == sm3(message@) && v@.len() == 32,
    {
        Ok(sm3_hash(message))
    }

    /// The complete half of a signing round: combines the caller-held
    /// nonce and share with the peer's partial results into the final
    /// signature `(r, s)`, where
    /// `s = ((k1 * s3 - r * d1) mod n) * s2 mod n` with the wrap-safe
    /// subtraction.  `r` passes through unchanged; `s` is returned as
    /// exactly 32 big-endian bytes, zero-padded on the left.
    pub fn complete_signature(
        &self,
        k1: &[u8],
        d1: &[u8],
        r: &[u8],
        s2: &[u8],
        s3: &[u8],
    ) -> (out: Result<(Vec<u8>, Vec<u8>), Error>)
        ensures
            out is Ok,
            out matches Ok(rs) ==> ({
                let s = combine_s(be_val(k1@), be_val(d1@), be_val(r@), be_val(s2@), be_val(s3@));
                &&& rs.0@ == r@
                &&& be_val(rs.1@) == s
                &&& rs.1@ == scalar_enc(s)
                &&& rs.1@.len() == 32
            }),
    {
        let n = ecc_get_n(&self.ecc);
        let k1_big = big_from_bytes_be(k1);
        let d1_big = big_from_bytes_be(d1);
        let r_big = big_from_bytes_be(r);
        let s2_big = big_from_bytes_be(s2);
        let s3_big = big_from_bytes_be(s3);

        let r_d1 = big_mod(&big_mul(&r_big, &d1_big), &n);
        let k1_s3 = big_mod(&big_mul(&k1_big, &s3_big), &n);
        proof {
            vstd::arithmetic::div_mod::lemma_mod_bound(
                (be_val(r@) * be_val(d1@)) as int,
                sm2_n() as int,
            );
            vstd::arithmetic::div_mod::lemma_mod_bound(
                (be_val(k1@) * be_val(s3@)) as int,
                sm2_n() as int,
            );
        }
        let s1 = if big_ge(&k1_s3, &r_d1) {
            big_mod(&big_sub(&k1_s3, &r_d1), &n)
        } else {
            big_mod(&big_sub(&big_add(&k1_s3, &n), &r_d1), &n)
        };
        let s = big_mod(&big_mul(&s1, &s2_big), &n);
        proof {
            let sv = big_value(s);
            vstd::arithmetic::div_mod::lemma_mod_bound(
                (big_value(s1) * be_val(s2@)) as int,
                sm2_n() as int,
            );
            lemma_pow256_32();
            lemma_scalar_round_trip(sv);
        }
        let s_bytes = match encode_scalar(&s) {
            Ok(v) => v,
            Err(e) => {
                return Err(e);
            },
        };
        Ok((vstd::slice::slice_to_vec(r), s_bytes))
    }

    /// Splits a ciphertext into `C1` (65 bytes: the `0x04` prefix and two
    /// 32-byte coordinates), the 32-byte tag `C3`, and the masked payload
    /// `C2`.  A ciphertext shorter than the 97-byte minimum is rejected
    /// before any curve arithmetic is attempted.
    pub fn parse_ciphertext(ciphertext: &[u8]) -> (r: Result<(Vec<u8>, Vec<u8>, Vec<u8>), Error>)
        ensures
            r is Ok <==> ciphertext@.len() >= 97,
            ciphertext@.len() < 97 ==> r matches Err(Error::InvalidParam(_)),
            r matches Ok(parts) ==> {
                &&& parts.0@ == ciphertext@.subrange(0, 65)
                &&& parts.1@ == ciphertext@.subrange(65, 97)
                &&& parts.2@ == ciphertext@.subrange(97, ciphertext@.len() as int)
            },
    {
        if ciphertext.len() < 97 {
            return Err(Error::InvalidParam(String::from_str("ciphertext too short")));
        }
        let c1 = vstd::slice::slice_to_vec(vstd::slice::slice_subrange(ciphertext, 0, 65));
        let c3 = vstd::slice::slice_to_vec(vstd::slice::slice_subrange(ciphertext, 65, 97));
        let c2 = vstd::slice::slice_to_vec(
            vstd::slice::slice_subrange(ciphertext, 97, ciphertext.len()),
        );
        Ok((c1, c3, c2))
    }

    /// The prepare half of a decryption round: decodes the embedded point
    /// `C1` (65 bytes, `0x04` prefix) and returns the encoded
    /// `T1 = d1 * C1`.  A malformed block is rejected as an encoding
    /// error, an off-curve point or a degenerate share as a
    /// cryptographic one.
    pub fn decrypt_prepare(&self, d1: &[u8], c1: &[u8]) -> (r: Result<Vec<u8>, Error>)
        ensures
            r is Ok <==> (c1@.len() == 65 && c1@[0] == 4 && point_dec(
                c1@.subrange(1, c1@.len() as int),
            ) is Some && be_val(d1@) % sm2_n() != 0),
            r matches Ok(v) ==> ({
                let xy = point_dec(c1@.subrange(1, c1@.len() as int))->Some_0;
                let t = point_mul(be_val(d1@) % sm2_n(), xy.0, xy.1);
                v@ == point_enc(t.0, t.1) && v@.len() == 64
            }),
            !(c1@.len() == 65 && c1@[0] == 4) ==> r matches Err(Error::Encoding(_)),
            c1@.len() == 65 && c1@[0] == 4 && point_dec(
                c1@.subrange(1, c1@.len() as int),
            ) is None ==> (r matches Err(Error::Encoding(_)) || r matches Err(
                Error::Crypto(_),
            )),
    {
        if c1.len() != 65 {
            return Err(Error::Encoding(String::from_str("C1 must be 65 bytes")));
        }
        if *vstd::slice::slice_index_get(c1, 0) != 4u8 {
            return Err(Error::Encoding(String::from_str("C1 must carry the 0x04 prefix")));
        }
        let body = vstd::slice::slice_subrange(c1, 1, 65);
        let c1_point = match decode_point(&self.ecc, body) {
            Ok(p) => p,
            Err(e) => {
                return Err(e);
            },
        };
        let d1_big = big_from_bytes_be(d1);
        let t1_point = match ecc_mul(&self.ecc, &d1_big, &c1_point) {
            Ok(p) => p,
            Err(_) => {
                return Err(Error::Crypto(String::from_str("point multiplication failed")));
            },
        };
        match encode_point(&self.ecc, &t1_point) {
            Ok(v) => Ok(v),
            Err(_) => Err(Error::Crypto(String::from_str("the share is a multiple of the group order"))),
        }
    }

    /// The complete half of a decryption round: derives the keystream
    /// `kdf(T2, |C2|)` and unmasks the payload.  The tag `C3` is not
    /// checked here — the recovered plaintext is unauthenticated; see
    /// `complete_decryption_checked` for the authenticated mode.
    pub fn complete_decryption(&self, t2: &[u8], _c3: &[u8], c2: &[u8]) -> (r: Result<
        Vec<u8>,
        Error,
    >)
        requires
            c2@.len() <= 32 * 0xffff_fffe,
        ensures
            r is Ok,
            r matches Ok(v) ==> v@ == xor_seq(c2@, kdf_spec(t2@, c2@.len())) && v@.len()
                == c2@.len(),
    {
        let k = kdf(t2, c2.len());
        Ok(xor_bytes(c2, k.as_slice()))
    }

    /// The authenticated completion of a decryption round: as
    /// `complete_decryption`, but the plaintext is handed out only when
    /// the tag `C3` equals `sm3(T2 || plaintext)`; a mismatch yields no
    /// plaintext rather than an error.
    pub fn complete_decryption_checked(&self, t2: &[u8], c3: &[u8], c2: &[u8]) -> (r: Result<
        Option<Vec<u8>>,
        Error,
    >)
        requires
            c2@.len() <= 32 * 0xffff_fffe,
        ensures
            r is Ok,
            r matches Ok(opt) ==> ({
                let pt = xor_seq(c2@, kdf_spec(t2@, c2@.len()));
                &&& (opt is Some <==> c3@ == sm3(t2@ + pt))
                &&& opt matches Some(v) ==> v@ == pt
            }),
    {
        let k = kdf(t2, c2.len());
        let pt = xor_bytes(c2, k.as_slice());
        let mut tag_input = vstd::slice::slice_to_vec(t2);
        crate::hash::append_bytes(&mut tag_input, pt.as_slice());
        let tag = sm3_hash(tag_input.as_slice());
        if bytes_eq(tag.as_slice(), c3) {
            Ok(Some(pt))
        } else {
            Ok(None)
        }
    }

    /// Standalone SM2 encryption under a 64-byte public key: draws an
    /// ephemeral scalar `k` and returns
    /// `0x04 || k*G || sm3(t || msg) || (msg xor kdf(t, |msg|))` where
    /// `t` encodes the shared point `k * Pa`.  An unusable key is
    /// rejected; the payload length is bounded by the keystream counter.
    pub fn encrypt(public_key: &[u8], message: &[u8]) -> (out: Result<Vec<u8>, Error>)
        requires
            message@.len() <= 32 * 0xffff_fffe,
        ensures
            out is Ok <==> (public_key@.len() == 64 && point_dec(public_key@) is Some),
            public_key@.len() != 64 ==> out matches Err(Error::Crypto(_)),
            public_key@.len() == 64 && point_dec(public_key@) is None ==> (out matches Err(
                Error::Encoding(_),
            ) || out matches Err(Error::Crypto(_))),
            out matches Ok(v) ==> ({
                let pxy = point_dec(public_key@)->Some_0;
                &&& v@.len() == 97 + message@.len()
                &&& exists|k: nat|
                    #![auto]
                    0 < k < sm2_n() - 1 && v@ == cipher_of(k, pxy.0, pxy.1, message@)
            }),
    {
        if public_key.len() != 64 {
            return Err(Error::Crypto(String::from_str("Invalid public key length")));
        }
        let ecc = ecc_new();
        let pub_point = match decode_point(&ecc, public_key) {
            Ok(p) => p,
            Err(e) => {
                return Err(e);
            },
        };
        let k = ecc_random(&ecc);
        proof {
            vstd::arithmetic::div_mod::lemma_small_mod(big_value(k), sm2_n());
        }
        let g = match ecc_generator(&ecc) {
            Ok(g) => g,
            Err(_) => {
                return Err(Error::Crypto(String::from_str("the curve context has no base point")));
            },
        };
        let c1_point = match ecc_mul(&ecc, &k, &g) {
            Ok(p) => p,
            Err(_) => {
                return Err(Error::Crypto(String::from_str("base point multiplication failed")));
            },
        };
        let c1_bytes = match encode_point(&ecc, &c1_point) {
            Ok(v) => v,
            Err(e) => {
                return Err(e);
            },
        };
        let k_pa = match ecc_mul(&ecc, &k, &pub_point) {
            Ok(p) => p,
            Err(_) => {
                return Err(Error::Crypto(String::from_str("point multiplication failed")));
            },
        };
        let t_bytes = match encode_point(&ecc, &k_pa) {
            Ok(v) => v,
            Err(e) => {
                return Err(e);
            },
        };
        let keystream = kdf(t_bytes.as_slice(), message.len());
        let c2 = xor_bytes(message, keystream.as_slice());
        let mut c3_input = vstd::slice::slice_to_vec(t_bytes.as_slice());
        append_bytes(&mut c3_input, message);
        let c3 = sm3_hash(c3_input.as_slice());
        let mut out: Vec<u8> = Vec::new();
        out.push(4u8);
        append_bytes(&mut out, c1_bytes.as_slice());
        append_bytes(&mut out, c3.as_slice());
        append_bytes(&mut out, c2.as_slice());
        proof {
            let kv = big_value(k);
            let pxy = point_dec(public_key@)->Some_0;
            assert(seq![4u8] =~= Seq::empty().push(4u8));
            assert(out@ =~= seq![4u8] + c1_bytes@ + c3@ + c2@);
            assert(out@ == cipher_of(kv, pxy.0, pxy.1, message@));
        }
        Ok(out)
    }

    /// Standalone SM2 decryption over the whole private key: splits the
    /// ciphertext, recovers the shared point `d * C1`, unmasks the
    /// payload, and hands the plaintext out only when the tag matches.
    /// A too-short buffer or a wrong prefix yields no plaintext rather
    /// than an error, as does a failed tag check; a malformed point or
    /// an unusable key is an error.
    pub fn decrypt(private_key: &[u8], ciphertext: &[u8]) -> (out: Result<Option<Vec<u8>>, Error>)
        requires
            ciphertext@.len() <= 32 * 0xffff_fffe,
        ensures
            ciphertext@.len() < 97 ==> (out matches Ok(o) && o is None),
            ciphertext@.len() >= 97 && ciphertext@[0] != 4 ==> (out matches Ok(o) && o is None),
            ciphertext@.len() >= 97 && ciphertext@[0] == 4 && point_dec(
                ciphertext@.subrange(1, 65),
            ) is None ==> out is Err,
            ciphertext@.len() >= 97 && ciphertext@[0] == 4 && point_dec(
                ciphertext@.subrange(1, 65),
            ) is Some && be_val(private_key@) % sm2_n() == 0 ==> out matches Err(Error::Crypto(_)),
            ciphertext@.len() >= 97 && ciphertext@[0] == 4 && point_dec(
                ciphertext@.subrange(1, 65),
            ) is Some && be_val(private_key@) % sm2_n() != 0 ==> ({
                let xy = point_dec(ciphertext@.subrange(1, 65))->Some_0;
                let tb = shared_point_bytes(be_val(private_key@), xy.0, xy.1);
                let c3 = ciphertext@.subrange(65, 97);
                let c2 = ciphertext@.subrange(97, ciphertext@.len() as int);
                let pt = xor_seq(c2, kdf_spec(tb, c2.len()));
                &&& out matches Ok(o)
                &&& (o is Some <==> c3 == sm3(tb + pt))
                &&& (o matches Some(v) ==> v@ == pt)
            }),
    {
        if ciphertext.len() < 97 {
            return Ok(None);
        }
        if *vstd::slice::slice_index_get(ciphertext, 0) != 4u8 {
            return Ok(None);
        }
        let ecc = ecc_new();
        let body = vstd::slice::slice_subrange(ciphertext, 1, 65);
        let c1_point = match decode_point(&ecc, body) {
            Ok(p) => p,
            Err(e) => {
                return Err(e);
            },
        };
        let c3 = vstd::slice::slice_subrange(ciphertext, 65, 97);
        let c2 = vstd::slice::slice_subrange(ciphertext, 97, ciphertext.len());
        let d = big_from_bytes_be(private_key);
        let n = ecc_get_n(&ecc);
        let m = big_mod(&d, &n);
        let one = big_from_u64(1);
        if !big_ge(&m, &one) {
            return Err(Error::Crypto(String::from_str("the private key is a multiple of the group order")));
        }
        let t_point = match ecc_mul(&ecc, &d, &c1_point) {
            Ok(p) => p,
            Err(_) => {
                return Err(Error::Crypto(String::from_str("point multiplication failed")));
            },
        };
        let t_bytes = match encode_point(&ecc, &t_point) {
            Ok(v) => v,
            Err(e) => {
                return Err(e);
            },
        };
        let keystream = kdf(t_bytes.as_slice(), c2.len());
        let pt = xor_bytes(c2, keystream.as_slice());
        let mut c3_input = vstd::slice::slice_to_vec(t_bytes.as_slice());
        append_bytes(&mut c3_input, pt.as_slice());
        let c3_check = sm3_hash(c3_input.as_slice());
        if bytes_eq(c3_check.as_slice(), c3) {
            Ok(Some(pt))
        } else {
            Ok(None)
        }
    }
}

impl Default for CoSignProtocol {
    /// As `CoSignProtocol::new`, which cannot fail.
    fn default() -> Self {
        CoSignProtocol { ecc: ecc_new() }
    }
}

} // verus!
