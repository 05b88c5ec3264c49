//! The prime field in which block heights, timestamps and digests live.

use vstd::prelude::*;

verus! {

/// The field's prime, 2^64 - 2^32 + 1.
pub const P: u64 = 0xffff_ffff_0000_0001;

/// The largest value of a field element.
pub const FIELD_MAX: u64 = 0xffff_ffff_0000_0000;

/// Calls `twenty_first`'s `BFieldElement::new` and `value`: the canonical representative of a
/// number is its remainder modulo [`P`].
#[verifier::external_body]
pub(crate) fn field_reduce(a: u64) -> (r: u64)
    ensures
        r == (a as int) % (P as int),
{
    twenty_first::prelude::BFieldElement::new(a).value()
}

/// Calls `twenty_first`'s addition of `BFieldElement`s: the sum modulo [`P`].
#[verifier::external_body]
pub(crate) fn field_add(a: u64, b: u64) -> (r: u64)
    ensures
        r == (a + b) % (P as int),
{
    let left = twenty_first::prelude::BFieldElement::new(a);
    let right = twenty_first::prelude::BFieldElement::new(b);
    (left + right).value()
}

/// Calls `twenty_first`'s subtraction of `BFieldElement`s: the difference modulo [`P`].
#[verifier::external_body]
pub(crate) fn field_sub(a: u64, b: u64) -> (r: u64)
    ensures
        r == (a - b) % (P as int),
{
    let left = twenty_first::prelude::BFieldElement::new(a);
    let right = twenty_first::prelude::BFieldElement::new(b);
    (left - right).value()
}

/// Calls `twenty_first`'s `BFieldElement::increment`: the successor modulo [`P`].
#[verifier::external_body]
pub(crate) fn field_increment(a: u64) -> (r: u64)
    ensures
        r == (a + 1) % (P as int),
{
    let mut element = twenty_first::prelude::BFieldElement::new(a);
    element.increment();
    element.value()
}

} // verus!
