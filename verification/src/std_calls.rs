use vstd::prelude::*;

verus! {

/// `u8::unbounded_shl`: std documents it as `self << rhs` when `rhs` is less
/// than the bit width, and 0 once every bit has been shifted out.
pub assume_specification[ <u8>::unbounded_shl ](x: u8, rhs: u32) -> (r: u8)
    ensures
        rhs < 8 ==> r == x << rhs,
        rhs >= 8 ==> r == 0,
;

/// `u8::unbounded_shr`: std documents it as `self >> rhs` when `rhs` is less
/// than the bit width, and 0 once every bit has been shifted out.
pub assume_specification[ <u8>::unbounded_shr ](x: u8, rhs: u32) -> (r: u8)
    ensures
        rhs < 8 ==> r == x >> rhs,
        rhs >= 8 ==> r == 0,
;

/// Calls `u16::to_be_bytes`, which std documents as the big-endian memory
/// representation: most significant byte first.
#[verifier::external_body]
pub(crate) fn u16_to_be_bytes(x: u16) -> (r: [u8; 2])
    ensures
        r@ == seq![(x / 256) as u8, (x % 256) as u8],
{
    x.to_be_bytes()
}

/// Calls `<str as PartialEq>::eq`, which std documents as comparing the two
/// strings' contents.
#[verifier::external_body]
pub(crate) fn str_eq(a: &str, b: &str) -> (r: bool)
    ensures
        r == (a@ == b@),
{
    a == b
}

} // verus!
