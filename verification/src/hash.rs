//! The SM3 hash, taken from the `libsm` crate behind a trusted boundary,
//! and the key-derivation function built on it.
//!
//! What SM3 returns takes pages to state, so `sm3` only names it: the
//! digest is a function of the hashed bytes alone, and is 32 bytes long.
//! The KDF is the engine's own verified code: it hashes the seed followed
//! by a 4-byte big-endian counter 1, 2, 3, ..., concatenates the digests,
//! and truncates to the requested length.

use vstd::prelude::*;
use libsm::sm3::hash::Sm3Hash;
use crate::bytes_spec::be_bytes;
use crate::bytes_spec::lemma_be_bytes_len;

verus! {

/// The `libsm` SM3 hasher state.
#[verifier::external_type_specification]
#[verifier::external_body]
pub struct ExSm3Hash(Sm3Hash);

/// The SM3 digest of the given bytes.
pub uninterp spec fn sm3(data: Seq<u8>) -> Seq<u8>;

/// The bytes a hasher state has absorbed.
pub uninterp spec fn sm3_absorbed(h: Sm3Hash) -> Seq<u8>;

/// Relies on `Sm3Hash::new`: starts a hash over the given bytes.
#[verifier::external_body]
fn sm3_new(data: &[u8]) -> (r: Sm3Hash)
    ensures
        sm3_absorbed(r) == data@,
{
    Sm3Hash::new(data)
}

/// Relies on `Sm3Hash::get_hash`: the 32-byte SM3 digest, a function of
/// the absorbed bytes alone.  The hasher is consumed: it pads itself in
/// place, so finishing the same state twice would hash the padded bytes.
#[verifier::external_body]
fn sm3_finish(h: Sm3Hash) -> (r: Vec<u8>)
    ensures
        r@ == sm3(sm3_absorbed(h)),
        r@.len() == 32,
{
    let mut hasher = h;
    hasher.get_hash().to_vec()
}

/// The SM3 digest of `data`, as 32 bytes.
pub fn sm3_hash(data: &[u8]) -> (r: Vec<u8>)
    ensures
        r@ == sm3(data@),
        r@.len() == 32,
{
    sm3_finish(sm3_new(data))
}

/// The first `m` keystream blocks: the SM3 digests of the seed followed
/// by the counters 1 through `m`, concatenated.
pub open spec fn kdf_blocks(z: Seq<u8>, m: nat) -> Seq<u8>
    decreases m,
{
    if m == 0 {
        Seq::empty()
    } else {
        kdf_blocks(z, (m - 1) as nat) + sm3(z + be_bytes(m, 4))
    }
}

/// The keystream of length `klen` derived from seed `z`: enough blocks to
/// cover `klen` bytes, truncated to exactly `klen`.
pub open spec fn kdf_spec(z: Seq<u8>, klen: nat) -> Seq<u8> {
    kdf_blocks(z, ((klen + 31) / 32) as nat).take(klen as int)
}

/// Appends `src` to `dst`.
pub(crate) fn append_bytes(dst: &mut Vec<u8>, src: &[u8])
    ensures
        final(dst)@ == old(dst)@ + src@,
{
    let ghost d0 = dst@;
    let mut i: usize = 0;
    while i < src.len()
        invariant
            i <= src@.len(),
            dst@ =~= d0 + src@.subrange(0, i as int),
        decreases src@.len() - i,
    {
        dst.push(*vstd::slice::slice_index_get(src, i));
        assert(dst@ =~= d0 + src@.subrange(0, (i + 1) as int));
        i = i + 1;
    }
    assert(src@.subrange(0, src@.len() as int) =~= src@);
}

/// The 4-byte big-endian form of a 32-bit counter.
fn u32_be_bytes(x: u32) -> (r: Vec<u8>)
    ensures
        r@ == be_bytes(x as nat, 4),
{
    let mut r: Vec<u8> = Vec::new();
    r.push((x / 0x1000000) as u8);
    r.push(((x / 0x10000) % 256) as u8);
    r.push(((x / 0x100) % 256) as u8);
    r.push((x % 256) as u8);
    proof {
        let v = x as nat;
        reveal_with_fuel(be_bytes, 5);
        assert(v / 256 / 256 / 256 == v / 0x1000000) by (nonlinear_arith);
        assert(v / 256 / 256 == v / 0x10000) by (nonlinear_arith);
        assert(v / 0x1000000 < 256) by (nonlinear_arith)
            requires
                v < 0x100000000,
        ;
        assert((v / 0x1000000) % 256 == v / 0x1000000) by (nonlinear_arith)
            requires
                v / 0x1000000 < 256,
        ;
        assert(r@ =~= be_bytes(v, 4));
    }
    r
}

/// Derives a keystream of exactly `klen` bytes from the seed `z`, hashing
/// `z` with a 4-byte big-endian counter and truncating the concatenated
/// digests.  The width of the counter bounds how long a stream one call
/// can produce.
pub fn kdf(z: &[u8], klen: usize) -> (r: Vec<u8>)
    requires
        klen <= 32 * 0xffff_fffe,
    ensures
        r@ == kdf_spec(z@, klen as nat),
        r@.len() == klen,
{
    let mut result: Vec<u8> = Vec::new();
    let mut ct: u32 = 1;
    while result.len() < klen
        invariant
            klen <= 32 * 0xffff_fffe,
            1 <= ct,
            result@ == kdf_blocks(z@, (ct - 1) as nat),
            result@.len() == 32 * ((ct - 1) as nat),
            32 * ((ct - 1) as nat) < klen + 32,
        decreases klen + 32 - result@.len(),
    {
        let mut input: Vec<u8> = vstd::slice::slice_to_vec(z);
        let ctb = u32_be_bytes(ct);
        append_bytes(&mut input, ctb.as_slice());
        let h = sm3_hash(input.as_slice());
        append_bytes(&mut result, h.as_slice());
        proof {
            assert(input@ == z@ + be_bytes(ct as nat, 4));
            assert(result@ == kdf_blocks(z@, ct as nat));
        }
        ct = ct + 1;
    }
    let ghost blocks = (ct - 1) as nat;
    proof {
        assert(32 * blocks >= klen);
        assert(blocks == ((klen + 31) / 32) as nat) by (nonlinear_arith)
            requires
                32 * blocks >= klen,
                32 * blocks < klen + 32,
        ;
    }
    result.truncate(klen);
    proof {
        assert(result@ =~= kdf_blocks(z@, blocks).take(klen as int));
    }
    result
}

} // verus!
