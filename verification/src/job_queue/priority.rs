//! The order of priorities.

use core::cmp::Ordering;
use vstd::laws_cmp::obeys_cmp;
use vstd::laws_cmp::obeys_cmp_ord;
use vstd::laws_cmp::obeys_cmp_partial_ord;
use vstd::laws_cmp::obeys_partial_cmp_spec_properties;
use vstd::laws_eq::obeys_eq_spec_properties;
use vstd::prelude::*;
use vstd::std_specs::cmp::OrdSpec;
use vstd::std_specs::cmp::PartialEqSpec;
use vstd::std_specs::cmp::PartialOrdSpec;

verus! {

/// The type's comparison is what `Ord` demands: a total order.
pub open spec fn totally_ordered<P: Ord>() -> bool {
    obeys_cmp::<P>()
}

/// The first priority is higher than the second one.
pub open spec fn higher<P: Ord>(a: P, b: P) -> bool {
    a.cmp_spec(&b) == Ordering::Greater
}

/// Neither priority is higher than the other one.
pub open spec fn same_rank<P: Ord>(a: P, b: P) -> bool {
    a.cmp_spec(&b) == Ordering::Equal
}

/// Of two priorities, one is higher, or they have the same rank; and both relations are
/// transitive.
pub proof fn lemma_order<P: Ord>(a: P, b: P, c: P)
    requires
        totally_ordered::<P>(),
    ensures
        higher(a, b) || higher(b, a) || same_rank(a, b),
        !(higher(a, b) && higher(b, a)),
        !(higher(a, b) && same_rank(a, b)),
        same_rank(a, b) <==> same_rank(b, a),
        same_rank(a, a),
        higher(a, b) && higher(b, c) ==> higher(a, c),
        higher(a, b) && same_rank(b, c) ==> higher(a, c),
        same_rank(a, b) && higher(b, c) ==> higher(a, c),
        same_rank(a, b) && same_rank(b, c) ==> same_rank(a, c),
{
    reveal(obeys_cmp_ord);
    reveal(obeys_cmp_partial_ord);
    reveal(obeys_partial_cmp_spec_properties);
    reveal(obeys_eq_spec_properties);
    assert(a.partial_cmp_spec(&b) == Some(a.cmp_spec(&b)));
    assert(b.partial_cmp_spec(&a) == Some(b.cmp_spec(&a)));
    assert(b.partial_cmp_spec(&c) == Some(b.cmp_spec(&c)));
    assert(c.partial_cmp_spec(&b) == Some(c.cmp_spec(&b)));
    assert(a.partial_cmp_spec(&c) == Some(a.cmp_spec(&c)));
    assert(c.partial_cmp_spec(&a) == Some(c.cmp_spec(&a)));
    assert(a.partial_cmp_spec(&a) == Some(a.cmp_spec(&a)));
}

/// Whether the first priority is higher than the second one.
pub fn is_higher<P: Ord>(a: &P, b: &P) -> (r: bool)
    requires
        totally_ordered::<P>(),
    ensures
        r == higher(*a, *b),
{
    proof {
        reveal(obeys_cmp_ord);
    }
    match a.cmp(b) {
        Ordering::Greater => true,
        _ => false,
    }
}

} // verus!
