use fault_hardening::fault_hardened::bool::Bool;
use fault_hardening::pin_verif::{
    compare_pin, compare_pin_double, compare_pin_double_inline, compare_pin_fp,
    compare_pin_fp_protected, compare_pin_fp_variant, compare_pin_protected,
};

const CORRECT_PIN: [u8; 4] = [1, 2, 3, 4];

#[test]
fn fp_rejects_a_pin_with_only_the_first_digit_right() {
    assert_eq!(compare_pin_fp(&[1, 0, 0, 0], &CORRECT_PIN), false);
}

#[test]
fn naive_keeps_a_mismatch_that_a_later_match_follows() {
    assert_eq!(compare_pin(&[0, 2, 3, 4], &CORRECT_PIN), false);
    assert_eq!(compare_pin(&[1, 2, 3, 0], &CORRECT_PIN), false);
    assert_eq!(compare_pin(&[1, 2, 0, 4], &CORRECT_PIN), false);
}

#[test]
fn naive_reads_as_many_digits_as_the_reference_has() {
    assert_eq!(compare_pin(&[1, 2, 3, 4, 9], &CORRECT_PIN), true);
    assert_eq!(compare_pin(&[], &[]), true);
}

#[test]
fn double_inline_answers_like_double() {
    assert_eq!(compare_pin_double_inline(&[1, 2, 3, 4], &CORRECT_PIN), true);
    assert_eq!(compare_pin_double_inline(&[0; 4], &CORRECT_PIN), false);
    assert_eq!(compare_pin_double(&[1, 2, 3, 5], &CORRECT_PIN), false);
}

#[test]
fn protected_naive_answers_in_encoded_form() {
    assert_eq!(compare_pin_protected(&[1, 2, 3, 4], &CORRECT_PIN), Bool::from(true));
    assert_eq!(compare_pin_protected(&[0; 4], &CORRECT_PIN), Bool::from(false));
    assert_eq!(compare_pin_protected(&[1, 2, 3, 5], &CORRECT_PIN), Bool::from(false));
}

#[test]
fn fp_variant_folds_every_digit() {
    assert_eq!(compare_pin_fp_variant(&[1, 2, 3, 4], &CORRECT_PIN), true);
    assert_eq!(compare_pin_fp_variant(&[0; 4], &CORRECT_PIN), false);
    assert_eq!(compare_pin_fp_variant(&[0, 2, 3, 4], &CORRECT_PIN), false);
    assert_eq!(compare_pin_fp_variant(&[1, 2, 3, 0], &CORRECT_PIN), false);
}

#[test]
fn folds_look_at_the_paired_digits_only() {
    assert_eq!(compare_pin_fp(&[1, 2, 3, 4, 5], &CORRECT_PIN), true);
    assert_eq!(compare_pin_fp(&[1, 2], &CORRECT_PIN), true);
    assert_eq!(compare_pin_fp_variant(&[1, 2, 3], &CORRECT_PIN), true);
    assert_eq!(compare_pin_fp_variant(&[1, 3], &CORRECT_PIN), false);
}

#[test]
fn fp_protected_answers_in_encoded_form() {
    assert_eq!(compare_pin_fp_protected(&[1, 2, 3, 4], &CORRECT_PIN), Bool::from(true));
    assert_eq!(compare_pin_fp_protected(&[0; 4], &CORRECT_PIN), Bool::from(false));
    assert_eq!(compare_pin_fp_protected(&[1, 0, 0, 0], &CORRECT_PIN), Bool::from(false));
}

#[test]
fn fp_protected_refuses_an_empty_reference() {
    assert_eq!(compare_pin_fp_protected(&[], &[]), Bool::from(false));
    assert_eq!(compare_pin_fp_protected(&[1], &[]), Bool::from(false));
}

#[test]
fn fp_protected_refuses_a_length_mismatch() {
    assert_eq!(compare_pin_fp_protected(&[1, 2, 3], &CORRECT_PIN), Bool::from(false));
    assert_eq!(compare_pin_fp_protected(&[1, 2, 3, 4, 5], &CORRECT_PIN), Bool::from(false));
}

#[test]
fn all_candidates_agree_with_slice_equality() {
    let pins: [[u8; 3]; 5] = [[0, 0, 0], [1, 2, 3], [1, 2, 4], [9, 2, 3], [1, 0, 3]];
    for a in pins.iter() {
        for b in pins.iter() {
            let equal = a == b;
            assert_eq!(compare_pin(a, b), equal);
            assert_eq!(compare_pin_double(a, b), equal);
            assert_eq!(compare_pin_double_inline(a, b), equal);
            assert_eq!(compare_pin_fp(a, b), equal);
            assert_eq!(compare_pin_fp_variant(a, b), equal);
            assert_eq!(bool::from(compare_pin_protected(a, b)), equal);
            assert_eq!(bool::from(compare_pin_fp_protected(a, b)), equal);
            assert_eq!(fault_hardening::compare_pin(a, b), equal);
            assert_eq!(fault_hardening::compare_pin_double(a, b), equal);
        }
    }
}

#[test]
fn baseline_stops_at_the_first_mismatch_of_the_paired_digits() {
    assert_eq!(fault_hardening::compare_pin(&[1, 2, 3, 4, 5], &CORRECT_PIN), true);
    assert_eq!(fault_hardening::compare_pin(&[1, 2], &CORRECT_PIN), true);
    assert_eq!(fault_hardening::compare_pin(&[2, 2], &CORRECT_PIN), false);
    assert_eq!(fault_hardening::compare_pin_double(&[1, 2], &CORRECT_PIN), true);
}
