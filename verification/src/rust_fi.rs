//! Turning the result of a candidate into one of two observable outcomes.
//!
//! A fault-injection tool cannot read a return value: it sees which code was
//! reached. So a check does not return; it ends in one of two leaves, one for
//! the outcome expected without a fault and one for the outcome only a fault
//! can produce. This module decides which leaf; calling it is left to the
//! program, which owns the exported symbols.

use vstd::prelude::*;
use vstd::std_specs::cmp::PartialEqSpec;
use vstd::string::StringExecFns;

verus! {

/// The leaf a check ends in.
#[derive(Clone, Copy, Debug, PartialEq, Eq, Structural)]
pub enum Outcome {
    /// The response expected when no fault occurs.
    Nominal,
    /// The response that only a fault can produce.
    Faulted,
}

impl Outcome {
    /// The outcome that stands for what was observed: the nominal one if it
    /// is what happens without a fault (`expected`), the faulted one if not.
    pub open spec fn of(expected: bool) -> Outcome {
        if expected {
            Outcome::Nominal
        } else {
            Outcome::Faulted
        }
    }

    /// The text each leaf reports.
    pub open spec fn message_text(self) -> Seq<char> {
        match self {
            Outcome::Nominal => "nominal behavior"@,
            Outcome::Faulted => "faulted behavior"@,
        }
    }

    /// The text the leaf of this outcome reports.
    pub fn message(self) -> (text: String)
        ensures
            text@ == self.message_text(),
    {
        match self {
            Outcome::Nominal => String::from_str("nominal behavior"),
            Outcome::Faulted => String::from_str("faulted behavior"),
        }
    }
}

/// Compares an actual value with the expected one and names the leaf to
/// call: the nominal one if they are equal, the faulted one if not.
pub fn classify<T: PartialEq>(actual: &T, expected: &T) -> (outcome: Outcome)
    ensures
        call_ensures(T::eq, (actual, expected), outcome == Outcome::Nominal),
        T::obeys_eq_spec() ==> outcome == Outcome::of(actual.eq_spec(expected)),
{
    if *actual == *expected {
        Outcome::Nominal
    } else {
        Outcome::Faulted
    }
}

/// Where one run of a generated test stands.
#[derive(Clone, Copy, Debug, PartialEq, Eq, Structural)]
pub enum RunState {
    /// The test has not run.
    NotYetRun,
    /// The run ended in the nominal leaf.
    RanNominal,
    /// The run ended in the faulted leaf.
    RanFaulted,
    /// The run ended in neither leaf.
    Crashed,
}

impl RunState {
    /// The state after a run that reached `leaf`, or no leaf at all.
    pub open spec fn after(self, leaf: Option<Outcome>) -> RunState {
        match self {
            RunState::NotYetRun => match leaf {
                Some(Outcome::Nominal) => RunState::RanNominal,
                Some(Outcome::Faulted) => RunState::RanFaulted,
                None => RunState::Crashed,
            },
            _ => self,
        }
    }

    /// Whether a campaign reports this state: a run that ended anywhere but
    /// in the nominal leaf.
    pub open spec fn finding(self) -> bool {
        self == RunState::RanFaulted || self == RunState::Crashed
    }

    /// The state every test starts in.
    pub fn new() -> (state: RunState)
        ensures
            state == RunState::NotYetRun,
    {
        RunState::NotYetRun
    }

    /// Records the leaf that a run reached, or `None` if it reached neither.
    /// A state that already records a run is final.
    pub fn record(self, leaf: Option<Outcome>) -> (next: RunState)
        ensures
            next == self.after(leaf),
    {
        match self {
            RunState::NotYetRun => match leaf {
                Some(Outcome::Nominal) => RunState::RanNominal,
                Some(Outcome::Faulted) => RunState::RanFaulted,
                None => RunState::Crashed,
            },
            _ => self,
        }
    }

    /// Whether this state is a finding of the campaign.
    pub fn is_finding(self) -> (found: bool)
        ensures
            found == self.finding(),
    {
        match self {
            RunState::RanFaulted => true,
            RunState::Crashed => true,
            _ => false,
        }
    }
}

/// A run whose check compares equal values, for a type whose `==` follows its
/// specification, ends in the nominal state and is no finding.
pub proof fn lemma_unfaulted_run_is_nominal<T: PartialEq>(actual: &T, expected: &T)
    requires
        actual.eq_spec(expected),
    ensures
        RunState::NotYetRun.after(Some(Outcome::of(actual.eq_spec(expected))))
            == RunState::RanNominal,
        !RunState::RanNominal.finding(),
{
}

/// A state that records a run does not change again.
pub proof fn lemma_recorded_state_is_final(state: RunState, leaf: Option<Outcome>)
    requires
        state != RunState::NotYetRun,
    ensures
        state.after(leaf) == state,
{
}

} // verus!
