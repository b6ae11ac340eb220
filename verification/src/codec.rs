//! Byte encodings of integers in the SCALE format that the host and the
//! transaction hash use: little-endian fixed width, and the compact form.

use vstd::prelude::*;

use parity_scale_codec::Encode;

verus! {

/// The `len` lowest bytes of `v`, least significant first.
pub open spec fn spec_le_bytes(v: nat, len: nat) -> Seq<u8>
    decreases len,
{
    if len == 0 {
        Seq::empty()
    } else {
        seq![(v % 256) as u8] + spec_le_bytes(v / 256, (len - 1) as nat)
    }
}

/// The SCALE compact encoding of a `u32`: one byte below 2^6, two below
/// 2^14, four below 2^30, and otherwise the marker `3` and four bytes.
pub open spec fn spec_compact_u32(n: u32) -> Seq<u8> {
    if n < 0x40 {
        spec_le_bytes((n * 4) as nat, 1)
    } else if n < 0x4000 {
        spec_le_bytes((n * 4 + 1) as nat, 2)
    } else if n < 0x4000_0000 {
        spec_le_bytes((n * 4 + 2) as nat, 4)
    } else {
        seq![3u8] + spec_le_bytes(n as nat, 4)
    }
}

/// The four bytes of a `u32`, least significant first.
pub fn u32_to_le_bytes(n: u32) -> (r: [u8; 4])
    ensures
        r@ == spec_le_bytes(n as nat, 4),
{
    let r = [
        (n % 256) as u8,
        ((n / 256) % 256) as u8,
        ((n / 65536) % 256) as u8,
        ((n / 16777216) % 256) as u8,
    ];
    proof {
        let v = n as nat;
        assert(v / 256 / 256 == v / 65536) by (nonlinear_arith);
        assert(v / 65536 / 256 == v / 16777216) by (nonlinear_arith);
        reveal_with_fuel(spec_le_bytes, 5);
        assert(r@ =~= spec_le_bytes(v, 4));
    }
    r
}

/// The SCALE compact encoding of a number, as `parity_scale_codec` writes it.
///
/// Calls `parity_scale_codec::Compact::<u32>::encode`; the contract states the
/// four forms of the encoding that its `CompactRef<u32>` implementation writes.
#[verifier::external_body]
pub fn encode_as_compact(num: u32) -> (r: Vec<u8>)
    ensures
        r@ == spec_compact_u32(num),
{
    parity_scale_codec::Compact::<u32>(num).encode()
}

/// The number of bytes that a number needs: at least one.
pub open spec fn spec_bytes_needed(v: nat) -> nat
    decreases v,
{
    if v < 256 {
        1
    } else {
        1 + spec_bytes_needed(v / 256)
    }
}

/// The SCALE compact encoding of a number: one byte below 2^6, two below
/// 2^14, four below 2^30, and otherwise a byte that gives the number of
/// bytes the number needs, then those bytes.
pub open spec fn spec_compact(v: nat) -> Seq<u8> {
    if v < 0x40 {
        spec_le_bytes(v * 4, 1)
    } else if v < 0x4000 {
        spec_le_bytes(v * 4 + 1, 2)
    } else if v < 0x4000_0000 {
        spec_le_bytes(v * 4 + 2, 4)
    } else {
        seq![((spec_bytes_needed(v) - 4) * 4 + 3) as u8] + spec_le_bytes(v, spec_bytes_needed(v))
    }
}

/// Appends the `n` lowest bytes of `v`, least significant first.
pub fn push_le_bytes(out: &mut Vec<u8>, v: u128, n: u128)
    ensures
        final(out)@ == old(out)@ + spec_le_bytes(v as nat, n as nat),
    decreases n,
{
    if n > 0 {
        out.push((v % 256) as u8);
        push_le_bytes(out, v / 256, n - 1);
        proof {
            assert(spec_le_bytes(v as nat, n as nat) == seq![(v % 256) as u8] + spec_le_bytes(
                (v / 256) as nat,
                (n - 1) as nat,
            ));
            assert(final(out)@ =~= old(out)@ + spec_le_bytes(v as nat, n as nat));
        }
    } else {
        assert(old(out)@ + spec_le_bytes(v as nat, 0) =~= old(out)@);
    }
}

/// The number of bytes that `v` needs.
fn bytes_needed(v: u128) -> (r: u128)
    ensures
        r == spec_bytes_needed(v as nat),
        r <= v + 1,
    decreases v,
{
    if v < 256 {
        1
    } else {
        1 + bytes_needed(v / 256)
    }
}

/// A number from 2^24 on needs at least four bytes.
proof fn lemma_four_bytes(v: nat)
    requires
        v >= 0x100_0000,
    ensures
        spec_bytes_needed(v) >= 4,
{
    assert(v / 256 >= 0x1_0000);
    assert(v / 256 / 256 >= 0x100);
    reveal_with_fuel(spec_bytes_needed, 4);
}

/// 256 to the power `k`.
pub open spec fn spec_pow256(k: nat) -> nat
    decreases k,
{
    if k == 0 {
        1
    } else {
        256 * spec_pow256((k - 1) as nat)
    }
}

/// A number below 256^k needs at most `k` bytes.
proof fn lemma_bytes_needed_bound(v: nat, k: nat)
    requires
        k >= 1,
        v < spec_pow256(k),
    ensures
        spec_bytes_needed(v) <= k,
    decreases k,
{
    if v >= 256 {
        if k == 1 {
            assert(spec_pow256(1) == 256 * spec_pow256(0));
        } else {
            let p = spec_pow256((k - 1) as nat);
            assert(v / 256 < p) by (nonlinear_arith)
                requires
                    v < 256 * p,
            ;
            lemma_bytes_needed_bound(v / 256, (k - 1) as nat);
        }
    }
}

/// A `u128` needs at most sixteen bytes.
proof fn lemma_u128_bytes(v: u128)
    ensures
        spec_bytes_needed(v as nat) <= 16,
{
    reveal_with_fuel(spec_pow256, 17);
    assert(spec_pow256(16) == 0x1_0000_0000_0000_0000_0000_0000_0000_0000nat);
    lemma_bytes_needed_bound(v as nat, 16);
}

/// Appends the SCALE compact encoding of a number.
pub fn push_compact(out: &mut Vec<u8>, v: u128)
    ensures
        final(out)@ == old(out)@ + spec_compact(v as nat),
{
    if v < 0x40 {
        push_le_bytes(out, v * 4, 1);
    } else if v < 0x4000 {
        push_le_bytes(out, v * 4 + 1, 2);
    } else if v < 0x4000_0000 {
        push_le_bytes(out, v * 4 + 2, 4);
    } else {
        let n = bytes_needed(v);
        proof {
            lemma_four_bytes(v as nat);
            lemma_u128_bytes(v);
        }
        out.push(((n - 4) * 4 + 3) as u8);
        push_le_bytes(out, v, n);
        proof {
            assert(final(out)@ =~= old(out)@ + spec_compact(v as nat));
        }
    }
}

/// A `u32` has the same compact encoding as a `u32` and as a number: from
/// 2^30 on it needs exactly four bytes.
pub proof fn lemma_compact_u32(n: u32)
    ensures
        spec_compact_u32(n) == spec_compact(n as nat),
{
    if n >= 0x4000_0000 {
        lemma_four_bytes(n as nat);
        reveal_with_fuel(spec_pow256, 5);
        lemma_bytes_needed_bound(n as nat, 4);
    }
}

} // verus!
