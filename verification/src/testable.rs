//! Things that can be checked against an enumeration.

use crate::outcome::{Outcome, TestResult};
use crate::render::Render;
use crate::serial::Cursor;
use vstd::prelude::*;

verus! {

/// `Testable` describes types (e.g., a function) whose values can be
/// tested.
///
/// A testable value is checked one step at a time. At each step it draws
/// what it needs from the enumeration, at the place where the cursor
/// stands, and produces a [`TestResult`].
pub trait Testable {
    /// Whether `outcome` is a result that checking this value at the given
    /// step may produce. A value built from plain data allows exactly one outcome
    /// at every step; one built from a function allows whatever the
    /// function's own contract allows.
    spec fn yields(&self, step: nat, outcome: Outcome) -> bool;

    /// Checks this value at the step where the cursor `s` stands. The cursor
    /// is only read.
    fn result<S: Cursor>(&self, s: &mut S) -> (r: TestResult)
        ensures
            self.yields(old(s).steps(), r@),
            *final(s) == *old(s),
    ;
}

/// Whether checking `property` at the given step may pass.
pub open spec fn may_pass<P: Testable>(property: P, step: nat) -> bool {
    exists|outcome: Outcome| #[trigger] property.yields(step, outcome) && outcome.passed
}

/// Whether `property` allows no more than one outcome at every step.
pub open spec fn deterministic<P: Testable>(property: P) -> bool {
    forall|step: nat, first: Outcome, second: Outcome|
        #[trigger] property.yields(step, first) && #[trigger] property.yields(step, second)
            ==> first == second
}

/// `true` passes and `false` fails, at every step.
impl Testable for bool {
    open spec fn yields(&self, step: nat, outcome: Outcome) -> bool {
        outcome == Outcome::from_bool(*self)
    }

    fn result<S: Cursor>(&self, s: &mut S) -> (r: TestResult) {
        TestResult::from_bool(*self)
    }
}

/// The unit value passes at every step.
impl Testable for () {
    open spec fn yields(&self, step: nat, outcome: Outcome) -> bool {
        outcome == Outcome::from_bool(true)
    }

    fn result<S: Cursor>(&self, s: &mut S) -> (r: TestResult) {
        TestResult::passed()
    }
}

/// A result that was built beforehand is handed on unchanged.
impl Testable for TestResult {
    open spec fn yields(&self, step: nat, outcome: Outcome) -> bool {
        outcome == self@
    }

    fn result<S: Cursor>(&self, s: &mut S) -> (r: TestResult) {
        self.clone()
    }
}

/// A borrowed value is checked as the value itself, so that one value can be
/// checked again and again.
impl<P: Testable> Testable for &P {
    open spec fn yields(&self, step: nat, outcome: Outcome) -> bool {
        (**self).yields(step, outcome)
    }

    fn result<S: Cursor>(&self, s: &mut S) -> (r: TestResult) {
        (**self).result(s)
    }
}

/// A computation that may fail: success is checked in its own right, and an
/// error becomes a runtime error that carries the rendered error value.
impl<A: Testable, E: Render> Testable for Result<A, E> {
    open spec fn yields(&self, step: nat, outcome: Outcome) -> bool {
        match self {
            Ok(value) => value.yields(step, outcome),
            Err(error) => outcome == Outcome::errored(error.text()),
        }
    }

    fn result<S: Cursor>(&self, s: &mut S) -> (r: TestResult) {
        match self {
            Ok(value) => value.result(s),
            Err(error) => TestResult::error(error.render()),
        }
    }
}

/// A `bool`, the unit value and a result built beforehand allow one outcome
/// at every step.
pub proof fn plain_values_are_deterministic(holds: bool, built: TestResult)
    ensures
        deterministic(holds),
        deterministic(()),
        deterministic(built),
{
}

/// A fallible computation allows one outcome at every step, provided that
/// its success does.
pub proof fn fallible_value_is_deterministic<A: Testable, E: Render>(value: Result<A, E>)
    requires
        value matches Ok(success) ==> deterministic(success),
    ensures
        deterministic(value),
{
}

} // verus!
