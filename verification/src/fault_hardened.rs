//! Fault-hardened building blocks: a redundantly encoded boolean and a value
//! holder whose equality is decided by two independent comparisons.

use crate::compare_never_inlined;
use vstd::laws_eq::obeys_concrete_eq;
use vstd::prelude::*;
use vstd::std_specs::cmp::PartialEqSpec;

pub mod bool;

verus! {

/// A value whose comparison with a candidate must not be flipped by a single
/// fault.
///
/// `Protected(x) == &y` compares twice, once in each operand order, and is
/// `true` only if both comparisons say so. Where the first says equal and the
/// second does not, the answer is `false`: without a fault that can only
/// happen for a type whose own `==` is not symmetric, and under a fault it is
/// the safe answer.
pub struct Protected<T: PartialEq>(pub T);

impl<T: PartialEq> PartialEq<&T> for Protected<T> {
    #[inline(always)]
    fn eq(&self, rhs: &&T) -> (r: bool)
    {
        if compare_never_inlined(rhs, &&self.0) {
            if compare_never_inlined(&self.0, rhs) {
                true
            } else {
                false
            }
        } else {
            false
        }
    }
}

impl<T: PartialEq> vstd::std_specs::cmp::PartialEqSpecImpl<&T> for Protected<T> {
    open spec fn obeys_eq_spec() -> bool {
        T::obeys_eq_spec()
    }

    open spec fn eq_spec(&self, rhs: &&T) -> bool {
        (**rhs).eq_spec(&self.0) && self.0.eq_spec(*rhs)
    }
}

/// Where the two comparisons agree, a protected value equals a candidate
/// exactly when the plain comparison says so.
pub proof fn lemma_protected_eq_follows_comparison<T: PartialEq>(x: Protected<T>, y: &T)
    requires
        y.eq_spec(&x.0) == x.0.eq_spec(y),
    ensures
        x.eq_spec(&y) == x.0.eq_spec(y),
{
}

/// For a type whose `==` is equality of values, a protected value equals a
/// candidate exactly when the two values are equal.
pub proof fn lemma_protected_eq_iff_equal<T: PartialEq>(x: Protected<T>, y: &T)
    requires
        obeys_concrete_eq::<T>(),
    ensures
        x.eq_spec(&y) <==> (x.0 == *y),
{
    reveal(obeys_concrete_eq);
}

} // verus!
