//! Generating the harness of a fault-injection test.
//!
//! A candidate is a routine that ends each of its branches in one of two
//! leaves. Its harness is the candidate under an exported symbol, followed by
//! a call of a nominal leaf made for it under a second exported symbol. Both
//! symbols derive from the candidate's name alone, so that a fault-injection
//! tool can find every test in the binary and see which leaf a run reached.
//!
//! The generator works on the candidate's name and on its statements as text.
//! Parsing a routine into that form and emitting the result as code is the
//! caller's part.

use crate::rust_fi::{Outcome, RunState};
use vstd::prelude::*;
use vstd::string::StringExecFns;

verus! {

/// A routine under test: its declared name and its statements in order.
pub struct Candidate {
    pub name: String,
    pub stmts: Vec<String>,
}

/// A generated test: the two exported symbols, the nominal leaf, and the
/// instrumented routine.
pub struct HarnessPair {
    /// The symbol under which the routine is exported.
    pub entry_symbol: String,
    /// The symbol of the nominal leaf made for the routine.
    pub nominal_symbol: String,
    /// The attributes that export the routine under its entry symbol and
    /// keep it out of line.
    pub entry_attributes: String,
    /// The statements of the routine, ending in the call of the nominal leaf.
    pub stmts: Vec<String>,
    /// The nominal leaf: a function under its own symbol, kept out of line,
    /// that only reports.
    pub nominal_leaf: String,
}

/// The symbol under which the candidate called `name` is exported.
pub open spec fn entry_symbol_of(name: Seq<char>) -> Seq<char> {
    "test_fi_"@ + name
}

/// The symbol of the nominal leaf of the candidate called `name`.
pub open spec fn nominal_symbol_of(name: Seq<char>) -> Seq<char> {
    "nominal_behavior_"@ + entry_symbol_of(name)
}

/// The statement that calls the nominal leaf of the candidate called `name`.
pub open spec fn nominal_call_of(name: Seq<char>) -> Seq<char> {
    nominal_symbol_of(name) + "();"@
}

/// The attributes of the routine called `name` in its harness.
pub open spec fn entry_attributes_of(name: Seq<char>) -> Seq<char> {
    "#[export_name = \""@ + entry_symbol_of(name) + "\"] #[inline(never)]"@
}

/// The nominal leaf of the candidate called `name`.
pub open spec fn nominal_leaf_of(name: Seq<char>) -> Seq<char> {
    "#[no_mangle] #[inline(never)] fn "@ + nominal_symbol_of(name) + "() { println!(\""@
        + Outcome::Nominal.message_text() + "\") }"@
}

/// The symbol under which the candidate called `name` is exported.
pub fn entry_symbol(name: &str) -> (symbol: String)
    ensures
        symbol@ == entry_symbol_of(name@),
{
    String::from_str("test_fi_").concat(name)
}

/// The symbol of the nominal leaf of the candidate called `name`.
pub fn nominal_symbol(name: &str) -> (symbol: String)
    ensures
        symbol@ == nominal_symbol_of(name@),
{
    let entry = entry_symbol(name);
    String::from_str("nominal_behavior_").concat(entry.as_str())
}

/// Generates the harness of `candidate`: derives the two symbols from its
/// name, writes the nominal leaf and the attributes that export the routine,
/// and appends the call of the nominal leaf to the routine's statements.
/// Leaf and routine are both marked never to be inlined.
pub fn test_fi(candidate: Candidate) -> (harness: HarnessPair)
    ensures
        harness.entry_symbol@ == entry_symbol_of(candidate.name@),
        harness.nominal_symbol@ == nominal_symbol_of(candidate.name@),
        harness.entry_symbol@ != harness.nominal_symbol@,
        harness.entry_attributes@ == entry_attributes_of(candidate.name@),
        harness.nominal_leaf@ == nominal_leaf_of(candidate.name@),
        harness.stmts@.len() == candidate.stmts@.len() + 1,
        harness.stmts@.subrange(0, candidate.stmts@.len() as int) == candidate.stmts@,
        harness.stmts@.last()@ == nominal_call_of(candidate.name@),
{
    let entry_symbol = entry_symbol(candidate.name.as_str());
    let nominal_symbol = nominal_symbol(candidate.name.as_str());
    let call = nominal_symbol.clone().concat("();");
    let mut entry_attributes = String::from_str("#[export_name = \"");
    entry_attributes.append(entry_symbol.as_str());
    entry_attributes.append("\"] #[inline(never)]");
    let mut nominal_leaf = String::from_str("#[no_mangle] #[inline(never)] fn ");
    nominal_leaf.append(nominal_symbol.as_str());
    nominal_leaf.append("() { println!(\"");
    nominal_leaf.append(Outcome::Nominal.message().as_str());
    nominal_leaf.append("\") }");
    let mut stmts = candidate.stmts;
    stmts.push(call);
    proof {
        lemma_symbols_are_distinct(candidate.name@, candidate.name@);
        assert(stmts@.subrange(0, candidate.stmts@.len() as int) =~= candidate.stmts@);
    }
    HarnessPair { entry_symbol, nominal_symbol, entry_attributes, stmts, nominal_leaf }
}

/// An entry symbol is never the symbol of a nominal leaf, of the same
/// candidate or of another.
pub proof fn lemma_symbols_are_distinct(name: Seq<char>, other: Seq<char>)
    ensures
        entry_symbol_of(name) != nominal_symbol_of(other),
{
    reveal_strlit("test_fi_");
    reveal_strlit("nominal_behavior_");
    assert(entry_symbol_of(name)[0] == 't');
    assert(nominal_symbol_of(other)[0] == 'n');
}

/// Candidates with different names get different symbols.
pub proof fn lemma_symbols_are_collision_free(name: Seq<char>, other: Seq<char>)
    requires
        name != other,
    ensures
        entry_symbol_of(name) != entry_symbol_of(other),
        nominal_symbol_of(name) != nominal_symbol_of(other),
{
    let entry = "test_fi_"@;
    let marker = "nominal_behavior_"@;
    if entry_symbol_of(name) == entry_symbol_of(other) {
        assert(name =~= (entry + name).subrange(entry.len() as int, (entry + name).len() as int));
        assert(other =~= (entry + other).subrange(
            entry.len() as int,
            (entry + other).len() as int,
        ));
        assert(false);
    }
    if nominal_symbol_of(name) == nominal_symbol_of(other) {
        let a = entry_symbol_of(name);
        let b = entry_symbol_of(other);
        assert(a =~= (marker + a).subrange(marker.len() as int, (marker + a).len() as int));
        assert(b =~= (marker + b).subrange(marker.len() as int, (marker + b).len() as int));
        assert(false);
    }
}

/// One branch of a candidate, as a run met it: whether its condition held,
/// and the leaf it ends in.
#[derive(Clone, Copy, Debug)]
pub struct Branch {
    pub taken: bool,
    pub leaf: Outcome,
}

impl Branch {
    /// A branch whose condition came out as `taken`. It ends in the nominal
    /// leaf if a run without a fault can take it (`expected`), and in the
    /// faulted leaf if only a fault leads into it.
    pub fn new(taken: bool, expected: bool) -> (branch: Branch)
        ensures
            branch.taken == taken,
            branch.leaf == Outcome::of(expected),
    {
        if expected {
            Branch { taken, leaf: Outcome::Nominal }
        } else {
            Branch { taken, leaf: Outcome::Faulted }
        }
    }
}

/// Whether branch `i` is the one a run takes: its condition holds and that of
/// no earlier branch does.
pub open spec fn decides(branches: Seq<Branch>, i: int) -> bool {
    &&& 0 <= i < branches.len()
    &&& branches[i].taken
    &&& forall|j: int| 0 <= j < i ==> !branches[j].taken
}

/// The leaf a run of the candidate reaches: that of the first branch whose
/// condition holds, or none if no condition holds.
pub open spec fn leaf_reached(branches: Seq<Branch>, leaf: Option<Outcome>) -> bool {
    match leaf {
        Some(reached) => exists|i: int| decides(branches, i) && branches[i].leaf == reached,
        None => forall|i: int| 0 <= i < branches.len() ==> !branches[i].taken,
    }
}

/// Runs through the branches in order and returns the leaf of the first one
/// taken, or `None` if the run reaches no leaf.
pub fn reached_leaf(branches: &[Branch]) -> (leaf: Option<Outcome>)
    ensures
        leaf_reached(branches@, leaf),
{
    for i in 0..branches.len()
        invariant
            forall|j: int| 0 <= j < i ==> !branches@[j].taken,
    {
        if branches[i].taken {
            assert(decides(branches@, i as int));
            return Some(branches[i].leaf);
        }
    }
    None
}

/// A run reaches one leaf at most: two answers for the same branches are the
/// same answer.
pub proof fn lemma_leaf_reached_is_unique(
    branches: Seq<Branch>,
    first: Option<Outcome>,
    second: Option<Outcome>,
)
    requires
        leaf_reached(branches, first),
        leaf_reached(branches, second),
    ensures
        first == second,
{
    if first is Some && second is Some {
        let i = choose|i: int| decides(branches, i) && branches[i].leaf == first->0;
        let j = choose|j: int| decides(branches, j) && branches[j].leaf == second->0;
        assert(i == j) by {
            if i < j {
                assert(!branches[i].taken);
            }
            if j < i {
                assert(!branches[j].taken);
            }
        }
    } else if first is Some {
        let i = choose|i: int| decides(branches, i) && branches[i].leaf == first->0;
        assert(!branches[i].taken);
    } else if second is Some {
        let j = choose|j: int| decides(branches, j) && branches[j].leaf == second->0;
        assert(!branches[j].taken);
    }
}

/// A run in which some condition holds, and in which every branch whose
/// condition holds ends in the nominal leaf, ends in the nominal state.
pub proof fn lemma_unfaulted_run_reaches_nominal(branches: Seq<Branch>, leaf: Option<Outcome>)
    requires
        leaf_reached(branches, leaf),
        exists|i: int| 0 <= i < branches.len() && branches[i].taken,
        forall|i: int|
            0 <= i < branches.len() && branches[i].taken ==> branches[i].leaf == Outcome::Nominal,
    ensures
        leaf == Some(Outcome::Nominal),
        RunState::NotYetRun.after(leaf) == RunState::RanNominal,
{
    if leaf is None {
        let i = choose|i: int| 0 <= i < branches.len() && branches[i].taken;
        assert(!branches[i].taken);
    }
}

} // verus!
