//! Byte-level helpers for the canonical message encodings: appending slices to
//! a growing message, comparing byte strings, and the 8-byte little-endian
//! two's-complement encoding of signed timestamps.

use vstd::prelude::*;
use vstd::bytes::{spec_u64_to_le_bytes, u64_to_le_bytes};

verus! {

/// The 8-byte little-endian two's-complement encoding of an `i64`.
pub open spec fn spec_i64_to_le_bytes(x: i64) -> Seq<u8> {
    spec_u64_to_le_bytes(spec_i64_bits(x))
}

/// The two's-complement bit pattern of an `i64`, as a `u64`.
pub open spec fn spec_i64_bits(x: i64) -> u64 {
    if x >= 0 {
        x as u64
    } else {
        (x + 0x1_0000_0000_0000_0000) as u64
    }
}

/// Encodes a signed 64-bit value as its 8 little-endian two's-complement bytes.
pub fn i64_to_le_bytes(x: i64) -> (r: Vec<u8>)
    ensures
        r@ == spec_i64_to_le_bytes(x),
        r@.len() == 8,
{
    let bits: u64 = if x >= 0 {
        x as u64
    } else {
        let wide: i128 = (x as i128) + 0x1_0000_0000_0000_0000i128;
        wide as u64
    };
    u64_to_le_bytes(bits)
}

/// Appends every byte of `s` to `out`, in order.
pub fn push_bytes(out: &mut Vec<u8>, s: &[u8])
    ensures
        final(out)@ == old(out)@ + s@,
{
    let mut i: usize = 0;
    while i < s.len()
        invariant
            i <= s@.len(),
            out@ == old(out)@ + s@.subrange(0, i as int),
        decreases s@.len() - i,
    {
        out.push(s[i]);
        proof {
            assert(s@.subrange(0, i + 1) =~= s@.subrange(0, i as int).push(s@[i as int]));
        }
        i = i + 1;
    }
    proof {
        assert(s@.subrange(0, s@.len() as int) =~= s@);
    }
}

/// Compares two byte strings for equality.
pub fn bytes_eq(a: &[u8], b: &[u8]) -> (r: bool)
    ensures
        r == (a@ == b@),
{
    if a.len() != b.len() {
        return false;
    }
    let mut i: usize = 0;
    while i < a.len()
        invariant
            a@.len() == b@.len(),
            i <= a@.len(),
            forall|j: int| 0 <= j < i ==> a@[j] == b@[j],
        decreases a@.len() - i,
    {
        if a[i] != b[i] {
            return false;
        }
        i = i + 1;
    }
    proof {
        assert(a@ =~= b@);
    }
    true
}

/// The all-zero key: it designates the absent routing destination.
pub open spec fn zero_key() -> Seq<u8> {
    Seq::<u8>::new(32, |i: int| 0u8)
}

/// True when every byte of `a` is zero; the all-zero key designates the
/// absent routing destination.
pub fn is_zero32(a: &[u8; 32]) -> (r: bool)
    ensures
        r == (a@ == zero_key()),
{
    let mut i: usize = 0;
    while i < 32
        invariant
            i <= 32,
            forall|j: int| 0 <= j < i ==> a@[j] == 0u8,
        decreases 32 - i,
    {
        if a[i] != 0 {
            proof {
                assert(a@[i as int] != zero_key()[i as int]);
            }
            return false;
        }
        i = i + 1;
    }
    proof {
        assert(a@ =~= zero_key());
    }
    true
}

} // verus!
