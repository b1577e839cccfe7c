use fault_hardening::harness::{
    entry_symbol, nominal_symbol, reached_leaf, test_fi, Branch, Candidate,
};
use fault_hardening::pin_verif::compare_pin;
use fault_hardening::rust_fi::{classify, Outcome, RunState};

#[test]
fn symbols_derive_from_the_name() {
    assert_eq!(entry_symbol("simple"), "test_fi_simple");
    assert_eq!(nominal_symbol("simple"), "nominal_behavior_test_fi_simple");
    assert_eq!(entry_symbol(""), "test_fi_");
    assert_eq!(nominal_symbol(""), "nominal_behavior_test_fi_");
}

#[test]
fn harness_appends_the_nominal_call() {
    let candidate = Candidate {
        name: "double_call".to_string(),
        stmts: vec!["let user_pin = [0; 4];".to_string(), "check(&user_pin);".to_string()],
    };
    let harness = test_fi(candidate);
    assert_eq!(harness.entry_symbol, "test_fi_double_call");
    assert_eq!(harness.nominal_symbol, "nominal_behavior_test_fi_double_call");
    assert_eq!(
        harness.entry_attributes,
        "#[export_name = \"test_fi_double_call\"] #[inline(never)]"
    );
    assert_eq!(
        harness.nominal_leaf,
        "#[no_mangle] #[inline(never)] fn nominal_behavior_test_fi_double_call() \
         { println!(\"nominal behavior\") }"
    );
    assert_eq!(
        harness.stmts,
        vec![
            "let user_pin = [0; 4];".to_string(),
            "check(&user_pin);".to_string(),
            "nominal_behavior_test_fi_double_call();".to_string(),
        ]
    );
}

#[test]
fn harness_of_an_empty_candidate_only_calls_the_leaf() {
    let harness = test_fi(Candidate { name: "hard".to_string(), stmts: vec![] });
    assert_eq!(harness.stmts, vec!["nominal_behavior_test_fi_hard();".to_string()]);
}

#[test]
fn two_branch_candidate_has_two_distinct_symbols_and_runs_nominal() {
    let harness = test_fi(Candidate { name: "simple".to_string(), stmts: vec![] });
    assert_ne!(harness.entry_symbol, harness.nominal_symbol);

    let rejected = compare_pin(&[0; 4], &[1, 2, 3, 4]) == false;
    let branches = [Branch::new(rejected, true), Branch::new(true, false)];
    assert_eq!(branches[0].leaf, Outcome::Nominal);
    assert_eq!(branches[1].leaf, Outcome::Faulted);
    let leaf = reached_leaf(&branches);
    assert_eq!(leaf, Some(Outcome::Nominal));
    assert_eq!(RunState::new().record(leaf), RunState::RanNominal);
    assert!(!RunState::new().record(leaf).is_finding());
}

#[test]
fn different_names_give_different_symbols() {
    let names = ["simple", "double_call", "simple_fp", "simple_fp2", "hard", "hard2"];
    let mut symbols: Vec<String> = Vec::new();
    for name in names {
        symbols.push(entry_symbol(name));
        symbols.push(nominal_symbol(name));
    }
    for i in 0..symbols.len() {
        for j in 0..symbols.len() {
            assert_eq!(symbols[i] == symbols[j], i == j);
        }
    }
}

#[test]
fn first_taken_branch_decides() {
    let faulted_first = [
        Branch { taken: false, leaf: Outcome::Nominal },
        Branch { taken: true, leaf: Outcome::Faulted },
        Branch { taken: true, leaf: Outcome::Nominal },
    ];
    assert_eq!(reached_leaf(&faulted_first), Some(Outcome::Faulted));
    let none_taken = [
        Branch { taken: false, leaf: Outcome::Nominal },
        Branch { taken: false, leaf: Outcome::Faulted },
    ];
    assert_eq!(reached_leaf(&none_taken), None);
    assert_eq!(reached_leaf(&[]), None);
}

#[test]
fn classify_forks_on_equality() {
    assert_eq!(classify(&compare_pin(&[0; 4], &[1, 2, 3, 4]), &false), Outcome::Nominal);
    assert_eq!(classify(&compare_pin(&[0; 4], &[1, 2, 3, 4]), &true), Outcome::Faulted);
    assert_eq!(classify(&7u32, &7u32), Outcome::Nominal);
    assert_eq!(classify(&7u32, &8u32), Outcome::Faulted);
}

#[test]
fn leaves_report_their_messages() {
    assert_eq!(Outcome::Nominal.message(), "nominal behavior");
    assert_eq!(Outcome::Faulted.message(), "faulted behavior");
}

#[test]
fn run_state_records_one_run() {
    let start = RunState::new();
    assert_eq!(start, RunState::NotYetRun);
    assert!(!start.is_finding());
    assert_eq!(start.record(Some(Outcome::Nominal)), RunState::RanNominal);
    assert_eq!(start.record(Some(Outcome::Faulted)), RunState::RanFaulted);
    assert_eq!(start.record(None), RunState::Crashed);
    assert!(RunState::RanFaulted.is_finding());
    assert!(RunState::Crashed.is_finding());
    assert!(!RunState::RanNominal.is_finding());
    assert_eq!(RunState::RanFaulted.record(Some(Outcome::Nominal)), RunState::RanFaulted);
    assert_eq!(RunState::Crashed.record(Some(Outcome::Nominal)), RunState::Crashed);
    assert_eq!(RunState::RanNominal.record(None), RunState::RanNominal);
}
