//! Little-endian byte encodings of the integers that evidence records carry.

use vstd::prelude::*;

verus! {

/// The `width` low-order base-256 digits of `value`, least significant first.
pub open spec fn le_bytes(value: nat, width: nat) -> Seq<u8>
    decreases width,
{
    if width == 0 {
        Seq::empty()
    } else {
        seq![(value % 256) as u8] + le_bytes(value / 256, (width - 1) as nat)
    }
}

/// 256 raised to `exp`.
pub open spec fn pow256(exp: nat) -> nat
    decreases exp,
{
    if exp == 0 {
        1
    } else {
        256 * pow256((exp - 1) as nat)
    }
}

/// The four bytes that stand for a `u32` on the wire.
pub open spec fn u32_le(value: u32) -> Seq<u8> {
    le_bytes(value as nat, 4)
}

/// The eight bytes that stand for a `u64` on the wire.
pub open spec fn u64_le(value: u64) -> Seq<u8> {
    le_bytes(value as nat, 8)
}

/// An encoding has exactly as many bytes as were asked for.
pub proof fn lemma_le_bytes_len(value: nat, width: nat)
    ensures
        le_bytes(value, width).len() == width,
    decreases width,
{
    if width > 0 {
        lemma_le_bytes_len(value / 256, (width - 1) as nat);
    }
}

/// Two values below `256^width` with the same `width`-byte encoding are equal.
pub proof fn lemma_le_bytes_injective(a: nat, b: nat, width: nat)
    requires
        a < pow256(width),
        b < pow256(width),
        le_bytes(a, width) == le_bytes(b, width),
    ensures
        a == b,
    decreases width,
{
    if width > 0 {
        let rest_a = le_bytes(a / 256, (width - 1) as nat);
        let rest_b = le_bytes(b / 256, (width - 1) as nat);
        let all_a = le_bytes(a, width);
        let all_b = le_bytes(b, width);
        assert(all_a[0] == (a % 256) as u8);
        assert(all_b[0] == (b % 256) as u8);
        assert(all_a.drop_first() =~= rest_a);
        assert(all_b.drop_first() =~= rest_b);
        lemma_le_bytes_injective(a / 256, b / 256, (width - 1) as nat);
    }
}

/// A `u32` is below `256^4`, and a `u64` below `256^8`.
pub proof fn lemma_pow256_bounds()
    ensures
        pow256(4) == 0x1_0000_0000,
        pow256(8) == 0x1_0000_0000_0000_0000,
{
    reveal_with_fuel(pow256, 9);
}

/// Distinct `u32` values have distinct encodings.
pub proof fn lemma_u32_le_injective(a: u32, b: u32)
    requires
        u32_le(a) == u32_le(b),
    ensures
        a == b,
{
    lemma_pow256_bounds();
    lemma_le_bytes_injective(a as nat, b as nat, 4);
}

/// Distinct `u64` values have distinct encodings.
pub proof fn lemma_u64_le_injective(a: u64, b: u64)
    requires
        u64_le(a) == u64_le(b),
    ensures
        a == b,
{
    lemma_pow256_bounds();
    lemma_le_bytes_injective(a as nat, b as nat, 8);
}

/// Encodes a `u32` as four bytes, least significant first.
pub fn u32_to_le(value: u32) -> (bytes: [u8; 4])
    ensures
        bytes@ == u32_le(value),
{
    let b0: u8 = (value % 256) as u8;
    let r1: u32 = value / 256;
    let b1: u8 = (r1 % 256) as u8;
    let r2: u32 = r1 / 256;
    let b2: u8 = (r2 % 256) as u8;
    let r3: u32 = r2 / 256;
    let b3: u8 = (r3 % 256) as u8;
    let bytes: [u8; 4] = [b0, b1, b2, b3];
    proof {
        reveal_with_fuel(le_bytes, 5);
        assert(bytes@ =~= u32_le(value));
    }
    bytes
}

/// Encodes a `u64` as eight bytes, least significant first.
pub fn u64_to_le(value: u64) -> (bytes: [u8; 8])
    ensures
        bytes@ == u64_le(value),
{
    let b0: u8 = (value % 256) as u8;
    let r1: u64 = value / 256;
    let b1: u8 = (r1 % 256) as u8;
    let r2: u64 = r1 / 256;
    let b2: u8 = (r2 % 256) as u8;
    let r3: u64 = r2 / 256;
    let b3: u8 = (r3 % 256) as u8;
    let r4: u64 = r3 / 256;
    let b4: u8 = (r4 % 256) as u8;
    let r5: u64 = r4 / 256;
    let b5: u8 = (r5 % 256) as u8;
    let r6: u64 = r5 / 256;
    let b6: u8 = (r6 % 256) as u8;
    let r7: u64 = r6 / 256;
    let b7: u8 = (r7 % 256) as u8;
    let bytes: [u8; 8] = [b0, b1, b2, b3, b4, b5, b6, b7];
    proof {
        reveal_with_fuel(le_bytes, 9);
        assert(bytes@ =~= u64_le(value));
    }
    bytes
}

} // verus!
