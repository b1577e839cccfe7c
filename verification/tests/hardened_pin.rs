use fault_hardening::pin_verif::{compare_pin, compare_pin_double, compare_pin_fp};

const CORRECT_PIN: [u8; 4] = [1, 2, 3, 4];

#[test]
fn lib_valid_pin() {
    assert_eq!(compare_pin(&[1, 2, 3, 4], &CORRECT_PIN), true);
}

#[test]
fn lib_invalid_pin() {
    assert_eq!(compare_pin(&[0, 0, 0, 0], &CORRECT_PIN), false);
}

#[test]
fn lib_valid_pin_fp() {
    assert_eq!(compare_pin_fp(&[1, 2, 3, 4], &CORRECT_PIN), true);
}

#[test]
fn lib_invalid_pin_fp() {
    assert_eq!(compare_pin_fp(&[0, 0, 0, 0], &CORRECT_PIN), false);
}

#[test]
fn lib_valid_pin_double() {
    assert_eq!(compare_pin_double(&[1, 2, 3, 4], &CORRECT_PIN), true);
}

#[test]
fn lib_invalid_pin_double() {
    assert_eq!(compare_pin_double(&[0, 0, 0, 0], &CORRECT_PIN), false);
}
