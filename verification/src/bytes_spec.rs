//! Big-endian byte encodings of unsigned values, and what holds of them.
//!
//! Every value that crosses the protocol boundary is a fixed-width
//! big-endian byte string: scalars are 32 bytes, points are two 32-byte
//! coordinates.  This module defines the value of a byte string, the
//! canonical fixed-width and minimal encodings of a value, and proves the
//! facts the rest of the crate leans on: bounds, canonicity, and that
//! encoding and decoding are exact inverses.

use vstd::prelude::*;

verus! {

/// `256^n`.
pub open spec fn pow256(n: nat) -> nat
    decreases n,
{
    if n == 0 {
        1
    } else {
        256 * pow256((n - 1) as nat)
    }
}

/// The value of a big-endian byte string.
pub open spec fn be_val(s: Seq<u8>) -> nat
    decreases s.len(),
{
    if s.len() == 0 {
        0
    } else {
        (be_val(s.drop_last()) * 256 + s.last()) as nat
    }
}

/// The fixed-width big-endian encoding of `v` in `len` bytes
/// (the low `len` bytes of `v`, zero-padded on the left).
pub open spec fn be_bytes(v: nat, len: nat) -> Seq<u8>
    decreases len,
{
    if len == 0 {
        Seq::empty()
    } else {
        be_bytes(v / 256, (len - 1) as nat).push((v % 256) as u8)
    }
}

/// How many bytes the minimal big-endian encoding of `v` has (0 for 0).
pub open spec fn byte_len(v: nat) -> nat
    decreases v,
{
    if v == 0 {
        0
    } else {
        1 + byte_len(v / 256)
    }
}

/// The minimal big-endian encoding of `v`: no leading zero byte, except
/// that 0 is encoded as the single byte 0.
pub open spec fn min_be(v: nat) -> Seq<u8> {
    if v == 0 {
        seq![0u8]
    } else {
        be_bytes(v, byte_len(v))
    }
}

/// A run of `n` zero bytes.
pub open spec fn zero_bytes(n: nat) -> Seq<u8> {
    Seq::new(n, |i: int| 0u8)
}

/// Byte-wise exclusive or of `a` with a keystream `b` at least as long.
pub open spec fn xor_seq(a: Seq<u8>, b: Seq<u8>) -> Seq<u8> {
    Seq::new(a.len(), |i: int| a[i] ^ b[i])
}

pub proof fn lemma_pow256_pos(n: nat)
    ensures
        pow256(n) >= 1,
    decreases n,
{
    if n > 0 {
        lemma_pow256_pos((n - 1) as nat);
    }
}

pub proof fn lemma_pow256_mono(a: nat, b: nat)
    requires
        a <= b,
    ensures
        pow256(a) <= pow256(b),
    decreases b,
{
    if a < b {
        lemma_pow256_mono(a, (b - 1) as nat);
        lemma_pow256_pos((b - 1) as nat);
    }
}

pub proof fn lemma_be_bytes_len(v: nat, len: nat)
    ensures
        be_bytes(v, len).len() == len,
    decreases len,
{
    if len > 0 {
        lemma_be_bytes_len(v / 256, (len - 1) as nat);
    }
}

/// The value of a byte string is below `256^len`.
pub proof fn lemma_be_val_bound(s: Seq<u8>)
    ensures
        be_val(s) < pow256(s.len()),
    decreases s.len(),
{
    if s.len() > 0 {
        lemma_be_val_bound(s.drop_last());
        assert(be_val(s.drop_last()) * 256 + 256 <= pow256((s.len() - 1) as nat) * 256) by (nonlinear_arith)
            requires
                be_val(s.drop_last()) < pow256((s.len() - 1) as nat),
        ;
    }
}

/// Reading back the fixed-width encoding gives the value, reduced to the
/// width.
pub proof fn lemma_be_bytes_val(v: nat, len: nat)
    ensures
        be_val(be_bytes(v, len)) == v % pow256(len),
    decreases len,
{
    lemma_pow256_pos(len);
    if len == 0 {
        assert(v % 1 == 0) by (nonlinear_arith);
    } else {
        let prefix = be_bytes(v / 256, (len - 1) as nat);
        let whole = be_bytes(v, len);
        lemma_be_bytes_val(v / 256, (len - 1) as nat);
        assert(whole.drop_last() =~= prefix);
        assert(be_val(whole) == be_val(prefix) * 256 + (v % 256));
        let p = pow256((len - 1) as nat);
        lemma_pow256_pos((len - 1) as nat);
        assert(((v / 256) % p) * 256 + (v % 256) == v % (256 * p)) by (nonlinear_arith)
            requires
                p >= 1,
        ;
    }
}

/// The fixed-width encoding of a value already below the bound reads back
/// to exactly that value.
pub proof fn lemma_be_bytes_val_small(v: nat, len: nat)
    requires
        v < pow256(len),
    ensures
        be_val(be_bytes(v, len)) == v,
{
    lemma_be_bytes_val(v, len);
    vstd::arithmetic::div_mod::lemma_small_mod(v, pow256(len));
}

/// Canonicity: a byte string is the fixed-width encoding of its own value.
pub proof fn lemma_be_bytes_of_val(s: Seq<u8>)
    ensures
        be_bytes(be_val(s), s.len()) == s,
    decreases s.len(),
{
    if s.len() == 0 {
        assert(be_bytes(be_val(s), 0) =~= s);
    } else {
        let d = s.drop_last();
        let b = s.last();
        lemma_be_bytes_of_val(d);
        let v = be_val(s);
        assert(v == be_val(d) * 256 + b);
        assert(v / 256 == be_val(d) && v % 256 == b) by (nonlinear_arith)
            requires
                v == be_val(d) * 256 + b,
                0 <= b < 256,
        ;
        assert(be_bytes(v, s.len()) =~= s);
    }
}

/// Leading zero bytes do not change the value.
pub proof fn lemma_be_val_zero_prefix(k: nat, s: Seq<u8>)
    ensures
        be_val(zero_bytes(k) + s) == be_val(s),
    decreases s.len(),
{
    if s.len() == 0 {
        lemma_be_val_zeros(k);
        assert(zero_bytes(k) + s =~= zero_bytes(k));
    } else {
        let t = zero_bytes(k) + s;
        assert(t.drop_last() =~= zero_bytes(k) + s.drop_last());
        lemma_be_val_zero_prefix(k, s.drop_last());
    }
}

/// A run of zeros has value zero.
pub proof fn lemma_be_val_zeros(k: nat)
    ensures
        be_val(zero_bytes(k)) == 0,
    decreases k,
{
    if k > 0 {
        assert(zero_bytes(k).drop_last() =~= zero_bytes((k - 1) as nat));
        lemma_be_val_zeros((k - 1) as nat);
    }
}

/// The minimal encoding is as short as any width that can hold the value.
pub proof fn lemma_byte_len_le(v: nat, k: nat)
    requires
        v < pow256(k),
    ensures
        byte_len(v) <= k,
    decreases v,
{
    if v > 0 {
        if k == 0 {
            // pow256(0) == 1 contradicts v >= 1
        } else {
            assert(v / 256 < pow256((k - 1) as nat)) by (nonlinear_arith)
                requires
                    v < 256 * pow256((k - 1) as nat),
            ;
            assert(v / 256 < v) by (nonlinear_arith)
                requires
                    v >= 1,
            ;
            lemma_byte_len_le(v / 256, (k - 1) as nat);
        }
    }
}

/// A positive value needs all the bytes its minimal encoding has.
pub proof fn lemma_byte_len_lower(v: nat)
    requires
        v > 0,
    ensures
        byte_len(v) >= 1,
        pow256((byte_len(v) - 1) as nat) <= v,
    decreases v,
{
    assert(byte_len(v) == 1 + byte_len(v / 256));
    if v / 256 == 0 {
        assert(byte_len(v / 256) == 0);
        assert(pow256(0) == 1);
    } else {
        assert(v / 256 < v) by (nonlinear_arith)
            requires
                v >= 1,
        ;
        lemma_byte_len_lower(v / 256);
        let m = (byte_len(v / 256) - 1) as nat;
        assert(pow256(m) <= v / 256);
        assert(256 * (v / 256) <= v) by (nonlinear_arith);
        assert(256 * pow256(m) <= 256 * (v / 256)) by (nonlinear_arith)
            requires
                pow256(m) <= v / 256,
        ;
        assert(byte_len(v) - 1 == m + 1);
        assert(pow256((m + 1) as nat) == 256 * pow256(m));
    }
}

/// What the minimal encoding satisfies: its value is the value encoded,
/// and it fits in any width that the value fits in.
pub proof fn lemma_min_be(v: nat)
    ensures
        be_val(min_be(v)) == v,
        min_be(v).len() == if byte_len(v) == 0 { 1nat } else { byte_len(v) },
        v > 0 ==> min_be(v).len() == byte_len(v),
    decreases v,
{
    if v == 0 {
        let s = seq![0u8];
        assert(s.len() == 1 && s.last() == 0);
        assert(s.drop_last() =~= Seq::<u8>::empty());
        assert(be_val(s) == (be_val(s.drop_last()) * 256 + s.last()) as nat);
        assert(be_val(s.drop_last()) == 0);
    } else {
        let l = byte_len(v);
        assert(l >= 1);
        lemma_byte_len_bound(v);
        lemma_be_bytes_val_small(v, l);
        lemma_be_bytes_len(v, l);
    }
}

/// The value fits in the width of its own minimal encoding.
pub proof fn lemma_byte_len_bound(v: nat)
    ensures
        v < pow256(byte_len(v)),
    decreases v,
{
    if v > 0 {
        assert(v / 256 < v) by (nonlinear_arith)
            requires
                v >= 1,
        ;
        lemma_byte_len_bound(v / 256);
        let m = byte_len(v / 256);
        assert(v < 256 * pow256(m)) by (nonlinear_arith)
            requires
                v / 256 < pow256(m),
        ;
    }
}

} // verus!
