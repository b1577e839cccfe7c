//! Candidate PIN comparisons with different resistance to faults.
//!
//! All of them answer one question, whether the entered digits are the
//! reference digits. They differ in how a glitch during the comparison can
//! change the answer, and in whether the answer is a native boolean or a
//! [`Bool`].

use crate::fault_hardened::bool::Bool;
use core::ops::{BitAnd, Not};
use vstd::prelude::*;

verus! {

/// Whether `a` and `b` hold the same byte at each of the first `n` positions.
pub open spec fn same_digits(a: Seq<u8>, b: Seq<u8>, n: nat) -> bool {
    forall|i: int| 0 <= i < n ==> a[i] == b[i]
}

/// The number of positions that both `a` and `b` have.
pub open spec fn paired_len(a: Seq<u8>, b: Seq<u8>) -> nat {
    if a.len() <= b.len() {
        a.len()
    } else {
        b.len()
    }
}

/// What the position-by-position comparison answers.
pub open spec fn naive_answer(user: Seq<u8>, reference: Seq<u8>) -> bool {
    same_digits(user, reference, reference.len())
}

/// What the doubled comparison answers.
pub open spec fn double_answer(user: Seq<u8>, reference: Seq<u8>) -> bool {
    naive_answer(user, reference) && naive_answer(reference, user)
}

/// What the folds over the paired positions answer.
pub open spec fn fold_answer(user: Seq<u8>, reference: Seq<u8>) -> bool {
    same_digits(user, reference, paired_len(user, reference))
}

/// What the protected fold answers: an empty reference and a length mismatch
/// are refused.
pub open spec fn protected_fold_answer(user: Seq<u8>, reference: Seq<u8>) -> bool {
    reference.len() > 0 && user.len() == reference.len() && fold_answer(user, reference)
}

/// Sequences of one length hold the same digits everywhere exactly when they
/// are equal.
pub proof fn lemma_same_digits_is_equality(a: Seq<u8>, b: Seq<u8>)
    requires
        a.len() == b.len(),
    ensures
        same_digits(a, b, a.len()) <==> a == b,
{
    if same_digits(a, b, a.len()) {
        assert(a =~= b);
    }
}

/// On sequences of one length, the naive, the doubled and the folded
/// comparison all answer whether the two are equal, and so does the protected
/// fold unless the sequences are empty.
pub proof fn lemma_comparisons_agree(user: Seq<u8>, reference: Seq<u8>)
    requires
        user.len() == reference.len(),
    ensures
        naive_answer(user, reference) == (user == reference),
        double_answer(user, reference) == (user == reference),
        fold_answer(user, reference) == (user == reference),
        reference.len() > 0 ==> protected_fold_answer(user, reference) == (user == reference),
        reference.len() == 0 ==> !protected_fold_answer(user, reference),
{
    lemma_same_digits_is_equality(user, reference);
    lemma_same_digits_is_equality(reference, user);
}

/// Accumulating the difference of two bytes leaves zero exactly when the
/// accumulator was zero and the bytes are equal.
proof fn lemma_accumulate_difference(acc: u8, a: u8, b: u8)
    ensures
        ((acc | (a ^ b)) == 0) == (acc == 0 && a == b),
{
    assert(((acc | (a ^ b)) == 0) == (acc == 0 && a == b)) by (bit_vector);
}

/// `&` on two booleans (`BitAnd::bitand` of `bool`), which evaluates both
/// operands and branches on neither: the contract claims that it returns
/// their conjunction.
#[verifier::external_body]
#[inline(always)]
fn and_both(x: bool, y: bool) -> (r: bool)
    ensures
        r == (x && y),
{
    x.bitand(y)
}

/// The reference candidate: compares position by position and remembers a
/// mismatch instead of returning at once, so that one skipped branch does not
/// decide the answer.
///
/// `user_pin` must have a digit for each digit of `ref_pin`.
#[inline(never)]
pub fn compare_pin(user_pin: &[u8], ref_pin: &[u8]) -> (good: bool)
    requires
        ref_pin@.len() <= user_pin@.len(),
    ensures
        good == naive_answer(user_pin@, ref_pin@),
        user_pin@.len() == ref_pin@.len() ==> good == (user_pin@ == ref_pin@),
{
    let mut good = true;
    for i in 0..ref_pin.len()
        invariant
            ref_pin@.len() <= user_pin@.len(),
            good == same_digits(user_pin@, ref_pin@, i as nat),
    {
        if user_pin[i] != ref_pin[i] {
            good = false;
        }
    }
    proof {
        if user_pin@.len() == ref_pin@.len() {
            lemma_comparisons_agree(user_pin@, ref_pin@);
        }
    }
    good
}

/// Calls [`compare_pin`] twice, the second time with the operands swapped,
/// and answers `true` only if both calls do.
#[inline(never)]
pub fn compare_pin_double(user_pin: &[u8], ref_pin: &[u8]) -> (good: bool)
    requires
        user_pin@.len() == ref_pin@.len(),
    ensures
        good == double_answer(user_pin@, ref_pin@),
        good == (user_pin@ == ref_pin@),
{
    proof {
        lemma_comparisons_agree(user_pin@, ref_pin@);
    }
    if compare_pin(user_pin, ref_pin) {
        compare_pin(ref_pin, user_pin)
    } else {
        false
    }
}

/// [`compare_pin_double`], placed inline at each call site.
#[inline(always)]
pub fn compare_pin_double_inline(user_pin: &[u8], ref_pin: &[u8]) -> (good: bool)
    requires
        user_pin@.len() == ref_pin@.len(),
    ensures
        good == double_answer(user_pin@, ref_pin@),
        good == (user_pin@ == ref_pin@),
{
    proof {
        lemma_comparisons_agree(user_pin@, ref_pin@);
    }
    if compare_pin(user_pin, ref_pin) {
        compare_pin(ref_pin, user_pin)
    } else {
        false
    }
}

/// [`compare_pin`] with the answer kept in a [`Bool`], so that a corrupted
/// answer is noticed when it is used.
///
/// `user_pin` must have a digit for each digit of `ref_pin`.
#[inline(never)]
pub fn compare_pin_protected(user_pin: &[u8], ref_pin: &[u8]) -> (good: Bool)
    requires
        ref_pin@.len() <= user_pin@.len(),
    ensures
        good@ == naive_answer(user_pin@, ref_pin@),
        user_pin@.len() == ref_pin@.len() ==> good@ == (user_pin@ == ref_pin@),
{
    let mut good = Bool::from(true);
    for i in 0..ref_pin.len()
        invariant
            ref_pin@.len() <= user_pin@.len(),
            good@ == same_digits(user_pin@, ref_pin@, i as nat),
    {
        if user_pin[i] != ref_pin[i] {
            good = Bool::from(false);
        }
    }
    proof {
        if user_pin@.len() == ref_pin@.len() {
            lemma_comparisons_agree(user_pin@, ref_pin@);
        }
    }
    good
}

/// Folds the differences of the paired digits into one byte and answers
/// whether it stayed zero: no early exit and no branch on the digits.
///
/// Digits that one sequence has beyond the end of the other are not looked
/// at.
#[inline(never)]
pub fn compare_pin_fp(user_pin: &[u8], ref_pin: &[u8]) -> (good: bool)
    ensures
        good == fold_answer(user_pin@, ref_pin@),
        user_pin@.len() == ref_pin@.len() ==> good == (user_pin@ == ref_pin@),
{
    let n = if user_pin.len() <= ref_pin.len() {
        user_pin.len()
    } else {
        ref_pin.len()
    };
    let mut acc: u8 = 0;
    for i in 0..n
        invariant
            n == paired_len(user_pin@, ref_pin@),
            (acc == 0) == same_digits(user_pin@, ref_pin@, i as nat),
    {
        proof {
            lemma_accumulate_difference(acc, user_pin@[i as int], ref_pin@[i as int]);
        }
        acc = acc | (user_pin[i] ^ ref_pin[i]);
    }
    proof {
        if user_pin@.len() == ref_pin@.len() {
            lemma_comparisons_agree(user_pin@, ref_pin@);
        }
    }
    acc == 0
}

/// Folds the equality of the paired digits into one boolean with `&`, which
/// branches on neither operand.
///
/// Digits that one sequence has beyond the end of the other are not looked
/// at.
#[inline(never)]
pub fn compare_pin_fp_variant(user_pin: &[u8], ref_pin: &[u8]) -> (good: bool)
    ensures
        good == fold_answer(user_pin@, ref_pin@),
        user_pin@.len() == ref_pin@.len() ==> good == (user_pin@ == ref_pin@),
{
    let n = if user_pin.len() <= ref_pin.len() {
        user_pin.len()
    } else {
        ref_pin.len()
    };
    let mut acc = true;
    for i in 0..n
        invariant
            n == paired_len(user_pin@, ref_pin@),
            acc == same_digits(user_pin@, ref_pin@, i as nat),
    {
        acc = and_both(acc, user_pin[i] == ref_pin[i]);
    }
    proof {
        if user_pin@.len() == ref_pin@.len() {
            lemma_comparisons_agree(user_pin@, ref_pin@);
        }
    }
    acc
}

/// The fold of [`compare_pin_fp_variant`] over [`Bool`] values: a corrupted
/// accumulator stops the program at its next use.
///
/// An empty reference and sequences of different lengths give `false`.
#[inline(never)]
pub fn compare_pin_fp_protected(user_pin: &[u8], ref_pin: &[u8]) -> (good: Bool)
    ensures
        good@ == protected_fold_answer(user_pin@, ref_pin@),
        good@ == (ref_pin@.len() > 0 && user_pin@ == ref_pin@),
{
    if ref_pin.len() == 0 || user_pin.len() != ref_pin.len() {
        return Bool::from(false);
    }
    let mut differ = Bool::from(false);
    for i in 0..ref_pin.len()
        invariant
            user_pin@.len() == ref_pin@.len(),
            differ@ == !same_digits(user_pin@, ref_pin@, i as nat),
    {
        differ = differ | Bool::from(user_pin[i] != ref_pin[i]);
    }
    proof {
        lemma_comparisons_agree(user_pin@, ref_pin@);
    }
    differ.not()
}

} // verus!
