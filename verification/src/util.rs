//! Small helpers.

use vstd::prelude::*;
use vstd::string::StringSliceAdditionalSpecFns;

verus! {

/// A type-level boolean.
pub struct If<const B: bool>;

/// Implemented by `If<true>` only: a bound on it states a condition at
/// compile time.
pub trait True {

}

impl True for If<true> {

}

} // verus!

verus! {

/// What one byte of a name adds to its identifier in round `j`: the byte
/// shifted left by the place `i` of the byte, plus `(j + 1) * (i + 1)`, both
/// wrapping.
pub open spec fn spec_mix(c: u8, i: int, j: int) -> u128 {
    (c as u128).wrapping_shl((i % 0x1_0000_0000) as u32).wrapping_add(
        ((j + 1) as u128).wrapping_mul((i + 1) as u128),
    )
}

/// The identifier after the rounds `j` to 15 of the byte at place `i`.
pub open spec fn spec_mix_rounds(acc: u128, c: u8, i: int, j: int) -> u128
    decreases 16 - j,
{
    if j >= 16 || j < 0 {
        acc
    } else {
        spec_mix_rounds(acc ^ spec_mix(c, i, j), c, i, j + 1)
    }
}

/// The identifier after the bytes from place `i` on.
pub open spec fn spec_mix_bytes(acc: u128, bytes: Seq<u8>, i: int) -> u128
    decreases bytes.len() - i,
{
    if i >= bytes.len() || i < 0 {
        acc
    } else {
        spec_mix_bytes(spec_mix_rounds(acc, bytes[i], i, 0), bytes, i + 1)
    }
}

/// The 128-bit identifier of the asset handle with the given name: every
/// byte of the name is mixed into the identifier in sixteen rounds. The
/// name must not be empty.
pub fn weak_str_handle(value: &str) -> (r: u128)
    requires
        value.spec_bytes().len() > 0,
    ensures
        r == spec_mix_bytes(0, value.spec_bytes(), 0),
{
    let bytes = value.as_bytes();
    let mut acc: u128 = 0;
    let mut i: usize = 0;
    while i < bytes.len()
        invariant
            i <= bytes@.len(),
            bytes@ == value.spec_bytes(),
            spec_mix_bytes(acc, bytes@, i as int) == spec_mix_bytes(0, bytes@, 0),
        decreases bytes@.len() - i,
    {
        let c = bytes[i];
        let shift: u32 = (i as u64 % 0x1_0000_0000) as u32;
        let mut j: u8 = 0;
        let ghost start = acc;
        while j < 16
            invariant
                j <= 16,
                i < bytes@.len(),
                c == bytes@[i as int],
                shift == (i as int % 0x1_0000_0000),
                spec_mix_rounds(acc, c, i as int, j as int) == spec_mix_rounds(start, c, i as int, 0),
            decreases 16 - j,
        {
            acc ^= (c as u128).wrapping_shl(shift).wrapping_add(
                (j as u128 + 1).wrapping_mul(i as u128 + 1),
            );
            j += 1;
        }
        i += 1;
    }
    acc
}

} // verus!
