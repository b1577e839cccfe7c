use fault_hardening::fault_hardened::bool::Bool;

#[test]
fn and_false_false() {
    assert_eq!(Bool::from(false) & Bool::from(false), Bool::from(false));
}

#[test]
fn and_false_true() {
    assert_eq!(Bool::from(false) & Bool::from(true), Bool::from(false));
}

#[test]
fn and_true_true() {
    assert_eq!(Bool::from(true) & Bool::from(true), Bool::from(true));
}

#[test]
fn or_false_false() {
    assert_eq!(Bool::from(false) | Bool::from(false), Bool::from(false));
}

#[test]
fn or_false_true() {
    assert_eq!(Bool::from(false) | Bool::from(true), Bool::from(true));
}

#[test]
fn or_true_true() {
    assert_eq!(Bool::from(true) | Bool::from(true), Bool::from(true));
}

#[test]
fn xor_false_false() {
    assert_eq!(Bool::from(false) ^ Bool::from(false), Bool::from(false));
}

#[test]
fn xor_false_true() {
    assert_eq!(Bool::from(false) ^ Bool::from(true), Bool::from(true));
}

#[test]
fn xor_true_true() {
    assert_eq!(Bool::from(true) ^ Bool::from(true), Bool::from(false));
}

#[test]
fn not_false() {
    assert_eq!(!Bool::from(false), Bool::from(true));
}

#[test]
fn not_true() {
    assert_eq!(!Bool::from(true), Bool::from(false));
}
