//! Countermeasures against transient fault injection on comparison routines,
//! with the machine-checked guarantees that hold of them when no fault occurs.
//!
//! The root of the crate holds the baseline: an early-exit comparison, its
//! doubled form, and [`IntegrityProtected`], a holder that compares twice.
//! [`pin_verif`] holds the hardened candidates, [`fault_hardened`] the encoded
//! boolean and the holder built on it, [`rust_fi`] the classifier that turns a
//! result into one of two observable outcomes, [`harness`] the generator of
//! the symbols a fault-injection tool aims at, and [`tvla`] a target for
//! leakage assessment.

use crate::pin_verif::{fold_answer, lemma_comparisons_agree, same_digits, paired_len};
use vstd::prelude::*;
use vstd::std_specs::cmp::PartialEqSpec;

pub mod bool_protected;
pub mod fault_hardened;
pub mod harness;
pub mod pin_verif;
pub mod rust_fi;
pub mod tvla;

pub use crate::pin_verif::compare_pin_fp;

verus! {

/// The unprotected baseline: compares the paired digits in order and returns
/// `false` at the first mismatch.
///
/// Digits that one sequence has beyond the end of the other are not looked
/// at.
#[inline(never)]
pub fn compare_pin(user_pin: &[u8], ref_pin: &[u8]) -> (good: bool)
    ensures
        good == fold_answer(user_pin@, ref_pin@),
        user_pin@.len() == ref_pin@.len() ==> good == (user_pin@ == ref_pin@),
{
    let n = if user_pin.len() <= ref_pin.len() {
        user_pin.len()
    } else {
        ref_pin.len()
    };
    proof {
        if user_pin@.len() == ref_pin@.len() {
            lemma_comparisons_agree(user_pin@, ref_pin@);
        }
    }
    for i in 0..n
        invariant
            n == paired_len(user_pin@, ref_pin@),
            same_digits(user_pin@, ref_pin@, i as nat),
    {
        if user_pin[i] != ref_pin[i] {
            return false;
        }
    }
    true
}

/// Calls [`compare_pin`] twice, the second time with the operands swapped,
/// and answers `true` only if both calls do.
pub fn compare_pin_double(user_pin: &[u8], ref_pin: &[u8]) -> (good: bool)
    ensures
        good == (fold_answer(user_pin@, ref_pin@) && fold_answer(ref_pin@, user_pin@)),
        good == fold_answer(user_pin@, ref_pin@),
        user_pin@.len() == ref_pin@.len() ==> good == (user_pin@ == ref_pin@),
{
    if compare_pin(user_pin, ref_pin) {
        if compare_pin(ref_pin, user_pin) {
            return true;
        } else {
            return false;
        }
    } else {
        return false;
    }
}

/// The low-level comparison, kept out of line so that two calls of it stay
/// two comparisons in the compiled code.
#[inline(never)]
pub fn compare_never_inlined<T: PartialEq>(a: T, b: T) -> (r: bool)
    ensures
        call_ensures(T::eq, (&a, &b), r),
        T::obeys_eq_spec() ==> r == a.eq_spec(&b),
{
    a == b
}

/// A value whose comparison with a candidate must not be flipped by a single
/// fault.
///
/// `IntegrityProtected(x) == &y` compares twice, once in each operand order,
/// and is `true` only if both comparisons say so. Where the first says equal
/// and the second does not, the answer is `false`.
pub struct IntegrityProtected<T: PartialEq>(pub T);

impl<T: PartialEq> PartialEq<&T> for IntegrityProtected<T> {
    #[inline(always)]
    fn eq(&self, rhs: &&T) -> (r: bool)
    {
        if compare_never_inlined(rhs, &&self.0) {
            if compare_never_inlined(&self.0, rhs) {
                return true;
            } else {
                return false;
            }
        } else {
            return false;
        }
    }
}

impl<T: PartialEq> vstd::std_specs::cmp::PartialEqSpecImpl<&T> for IntegrityProtected<T> {
    open spec fn obeys_eq_spec() -> bool {
        T::obeys_eq_spec()
    }

    open spec fn eq_spec(&self, rhs: &&T) -> bool {
        (**rhs).eq_spec(&self.0) && self.0.eq_spec(*rhs)
    }
}

/// Where the two comparisons agree, a protected value equals a candidate
/// exactly when the plain comparison says so.
pub proof fn lemma_integrity_eq_follows_comparison<T: PartialEq>(x: IntegrityProtected<T>, y: &T)
    requires
        y.eq_spec(&x.0) == x.0.eq_spec(y),
    ensures
        x.eq_spec(&y) == x.0.eq_spec(y),
{
}

/// For a type whose `==` is equality of values, a protected value equals a
/// candidate exactly when the two values are equal.
pub proof fn lemma_integrity_eq_iff_equal<T: PartialEq>(x: IntegrityProtected<T>, y: &T)
    requires
        vstd::laws_eq::obeys_concrete_eq::<T>(),
    ensures
        x.eq_spec(&y) <==> (x.0 == *y),
{
    reveal(vstd::laws_eq::obeys_concrete_eq);
}

} // verus!
