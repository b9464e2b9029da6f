//! SCALE-style integer renderings used by the extrinsic layout: the
//! compact (variable-length) encoding of unsigned integers, big-endian
//! byte renderings of version and nonce fields, and the little-endian
//! rendering of balances.

use vstd::prelude::*;
use parity_scale_codec::Encode;

verus! {

/// Number of bytes needed to hold `v` in little-endian form, at least one.
pub open spec fn min_len_bytes(v: nat) -> nat
    decreases v,
{
    if v < 256 {
        1
    } else {
        1 + min_len_bytes(v / 256)
    }
}

/// The `n` low-order bytes of `v`, least significant first.
pub open spec fn le_bytes_n(v: nat, n: nat) -> Seq<u8>
    decreases n,
{
    if n == 0 {
        Seq::empty()
    } else {
        seq![(v % 256) as u8] + le_bytes_n(v / 256, (n - 1) as nat)
    }
}

/// The SCALE compact encoding of `v`: two low bits of the first byte select
/// the mode (single byte, two bytes, four bytes, or length-prefixed).
pub open spec fn spec_compact(v: nat) -> Seq<u8> {
    if v < 64 {
        seq![(v * 4) as u8]
    } else if v < 16384 {
        le_bytes_n(v * 4 + 1, 2)
    } else if v < 1073741824 {
        le_bytes_n(v * 4 + 2, 4)
    } else {
        seq![(3 + (min_len_bytes(v) - 4) * 4) as u8] + le_bytes_n(v, min_len_bytes(v))
    }
}

/// Relies on `parity_scale_codec::Compact<u32>`'s `Encode` impl: mode
/// selection on the value, then the shifted value or the minimal
/// little-endian bytes behind a length byte.
#[verifier::external_body]
pub(crate) fn compact_u32(v: u32) -> (r: Vec<u8>)
    ensures
        r@ == spec_compact(v as nat),
{
    parity_scale_codec::Compact(v).encode()
}

/// Relies on `parity_scale_codec::Compact<u64>`'s `Encode` impl, which
/// realizes the same mode selection as the `u32` one.
#[verifier::external_body]
pub(crate) fn compact_u64(v: u64) -> (r: Vec<u8>)
    ensures
        r@ == spec_compact(v as nat),
{
    parity_scale_codec::Compact(v).encode()
}

/// Relies on `parity_scale_codec::Compact<u128>`'s `Encode` impl, which
/// realizes the same mode selection as the `u32` one.
#[verifier::external_body]
pub(crate) fn compact_u128(v: u128) -> (r: Vec<u8>)
    ensures
        r@ == spec_compact(v as nat),
{
    parity_scale_codec::Compact(v).encode()
}

/// The four bytes of `x`, most significant first.
pub open spec fn spec_u32_be(x: u32) -> Seq<u8> {
    seq![
        (x / 0x1000000 % 256) as u8,
        (x / 0x10000 % 256) as u8,
        (x / 0x100 % 256) as u8,
        (x % 256) as u8,
    ]
}

pub fn u32_be_bytes(x: u32) -> (r: Vec<u8>)
    ensures
        r@ == spec_u32_be(x),
{
    let mut r: Vec<u8> = Vec::new();
    r.push((x / 0x1000000 % 256) as u8);
    r.push((x / 0x10000 % 256) as u8);
    r.push((x / 0x100 % 256) as u8);
    r.push((x % 256) as u8);
    proof {
        assert(r@ =~= spec_u32_be(x));
    }
    r
}

/// The eight bytes of `x`, most significant first.
pub open spec fn spec_u64_be(x: u64) -> Seq<u8> {
    seq![
        (x / 0x100000000000000 % 256) as u8,
        (x / 0x1000000000000 % 256) as u8,
        (x / 0x10000000000 % 256) as u8,
        (x / 0x100000000 % 256) as u8,
        (x / 0x1000000 % 256) as u8,
        (x / 0x10000 % 256) as u8,
        (x / 0x100 % 256) as u8,
        (x % 256) as u8,
    ]
}

pub fn u64_be_bytes(x: u64) -> (r: Vec<u8>)
    ensures
        r@ == spec_u64_be(x),
{
    let mut r: Vec<u8> = Vec::new();
    r.push((x / 0x100000000000000 % 256) as u8);
    r.push((x / 0x1000000000000 % 256) as u8);
    r.push((x / 0x10000000000 % 256) as u8);
    r.push((x / 0x100000000 % 256) as u8);
    r.push((x / 0x1000000 % 256) as u8);
    r.push((x / 0x10000 % 256) as u8);
    r.push((x / 0x100 % 256) as u8);
    r.push((x % 256) as u8);
    proof {
        assert(r@ =~= spec_u64_be(x));
    }
    r
}

/// The sixteen bytes of `x`, least significant first.
pub open spec fn spec_u128_le(x: u128) -> Seq<u8> {
    le_bytes_n(x as nat, 16)
}

pub fn u128_le_bytes(x: u128) -> (r: Vec<u8>)
    ensures
        r@ == spec_u128_le(x),
{
    let mut r: Vec<u8> = Vec::new();
    let mut v: u128 = x;
    let mut i: usize = 0;
    while i < 16
        invariant
            i <= 16,
            r@.len() == i,
            le_bytes_n(x as nat, 16) == r@ + le_bytes_n(v as nat, (16 - i) as nat),
        decreases 16 - i,
    {
        proof {
            assert(le_bytes_n(v as nat, (16 - i) as nat) == seq![(v as nat % 256) as u8]
                + le_bytes_n(v as nat / 256, (15 - i) as nat));
        }
        r.push((v % 256) as u8);
        v = v / 256;
        i = i + 1;
        proof {
            assert(le_bytes_n(x as nat, 16) =~= r@ + le_bytes_n(v as nat, (16 - i) as nat));
        }
    }
    proof {
        assert(le_bytes_n(v as nat, 0) == Seq::<u8>::empty());
        assert(r@ =~= spec_u128_le(x));
    }
    r
}

} // verus!
