//! The search driver: it walks an enumeration step by step, checks a
//! property at every step, and stops at the first failure or when the depth
//! bound or the enumeration is exhausted.

use crate::outcome::{Outcome, TestResult};
use crate::serial::Serial;
use crate::testable::{deterministic, may_pass, Testable};
use std::marker::PhantomData;
use vstd::prelude::*;

verus! {

/// Whether a search over the enumeration of `S` that is bounded by `depth`
/// comes to check the given step, provided that nothing failed before it:
/// the step lies within the bound, and `S` still has a value there.
pub open spec fn within_search<S: Serial>(depth: nat, step: nat) -> bool {
    step <= depth && S::nth(step) is Some
}

/// Whether a search for a counterexample to `property`, over the enumeration
/// of `S` and bounded by `depth`, may end with `verdict` after `attempted`
/// checks.
///
/// A search ends in `Ok` with the number of checks made when every step it
/// could take has passed, and in `Err` with the outcome of the first step
/// that did not pass. Steps are checked in order, from step `0` on.
pub open spec fn search_ends_with<S: Serial, P: Testable>(
    property: P,
    depth: nat,
    attempted: nat,
    verdict: Result<nat, Outcome>,
) -> bool {
    match verdict {
        Ok(total) => {
            &&& total == attempted
            &&& forall|step: nat| step < total ==> #[trigger] within_search::<S>(depth, step)
            &&& forall|step: nat| step < total ==> #[trigger] may_pass(property, step)
            &&& !within_search::<S>(depth, total)
        },
        Err(outcome) => {
            &&& attempted > 0
            &&& within_search::<S>(depth, (attempted - 1) as nat)
            &&& forall|step: nat| step < attempted - 1 ==> #[trigger] may_pass(property, step)
            &&& property.yields((attempted - 1) as nat, outcome)
            &&& !outcome.passed
        },
    }
}

/// The mathematical content of what a search returns.
pub open spec fn verdict_view(verdict: Result<usize, TestResult>) -> Result<nat, Outcome> {
    match verdict {
        Ok(total) => Ok(total as nat),
        Err(result) => Err(result@),
    }
}

/// The primary `smallcheck` type for setting search depth and running tests.
///
/// The type parameter is the type of the cursor that drives a search:
/// commonly the type of the property's argument, or the tuple of the types
/// of its arguments. A cursor is made afresh for every search and dropped
/// when the search ends.
pub struct SmallCheck<S: Serial> {
    depth: usize,
    tests: usize,
    cursor: PhantomData<S>,
}

impl<S: Serial> SmallCheck<S> {
    #[verifier::type_invariant]
    spec fn countable(&self) -> bool {
        self.depth < usize::MAX
    }

    /// The depth bound: the last step that a search may check.
    pub closed spec fn depth_bound(&self) -> nat {
        self.depth as nat
    }

    /// The number of checks made by the latest search.
    pub closed spec fn attempted(&self) -> nat {
        self.tests as nat
    }

    /// A driver with a depth bound of 100.
    pub fn new() -> (check: SmallCheck<S>)
        ensures
            check.depth_bound() == 100,
            check.attempted() == 0,
    {
        SmallCheck { depth: 100, tests: 0, cursor: PhantomData }
    }

    /// Sets the depth bound. The number of checks of a search can exceed the
    /// bound by one, and has to fit in `usize`.
    pub fn depth(self, depth: usize) -> (check: SmallCheck<S>)
        requires
            depth < usize::MAX,
        ensures
            check.depth_bound() == depth,
            check.attempted() == self.attempted(),
    {
        SmallCheck { depth, tests: self.tests, cursor: PhantomData }
    }

    /// The depth bound.
    pub fn bound(&self) -> (depth: usize)
        ensures
            depth == self.depth_bound(),
    {
        self.depth
    }

    /// The number of checks made by the latest search.
    pub fn invocations(&self) -> (total: usize)
        ensures
            total == self.attempted(),
    {
        self.tests
    }

    /// Searches for a counterexample to the property `f`.
    ///
    /// The search starts with a fresh cursor and checks `f` step by step. It
    /// returns the first result that did not pass, or the number of checks
    /// made if every step within the depth bound, up to the end of the
    /// enumeration of `S`, has passed.
    pub fn test<A: Testable>(&mut self, f: A) -> (verdict: Result<usize, TestResult>)
        ensures
            final(self).depth_bound() == old(self).depth_bound(),
            search_ends_with::<S, A>(
                f,
                old(self).depth_bound(),
                final(self).attempted(),
                verdict_view(verdict),
            ),
    {
        proof {
            use_type_invariant(&*self);
        }
        let depth = self.depth;
        let mut cursor = S::new();
        let mut tests: usize = 0;
        let mut failure: Option<TestResult> = None;
        loop
            invariant_except_break
                failure is None,
                tests == cursor.steps(),
                tests <= depth,
                forall|step: nat|
                    step < tests ==> #[trigger] within_search::<S>(depth as nat, step),
                forall|step: nat| step < tests ==> #[trigger] may_pass(f, step),
            invariant
                depth < usize::MAX,
            ensures
                search_ends_with::<S, A>(
                    f,
                    depth as nat,
                    tests as nat,
                    match failure {
                        Some(result) => Err(result@),
                        None => Ok(tests as nat),
                    },
                ),
            decreases depth - tests,
        {
            let here: Option<S> = S::next(&mut cursor);
            if here.is_none() {
                // The enumeration of `S` has run out.
                break ;
            }
            let result = f.result(&mut cursor);
            tests = tests + 1;
            if result.is_failure() {
                failure = Some(result);
                break ;
            }
            if tests > depth {
                // The depth bound is reached.
                break ;
            }
            if !cursor.advance() {
                // The cursor cannot count any further, so `S` has no further value.
                proof {
                    S::enumeration_fits_cursor(tests as nat);
                }
                break ;
            }
        }
        self.tests = tests;
        match failure {
            Some(result) => Err(result),
            None => Ok(tests),
        }
    }
}

/// The steps that a search comes to check form an initial stretch of the
/// enumeration: with a step, every earlier step lies within the search too.
pub proof fn search_has_no_gaps<S: Serial>(depth: nat, earlier: nat, later: nat)
    requires
        earlier <= later,
        within_search::<S>(depth, later),
    ensures
        within_search::<S>(depth, earlier),
{
    S::enumeration_is_ordered(earlier, later);
}

/// The step at which a search stopped: the first step that it did not pass.
pub open spec fn stopped_at(attempted: nat, verdict: Result<nat, Outcome>) -> nat {
    match verdict {
        Ok(total) => total,
        Err(_) => (attempted - 1) as nat,
    }
}

/// Of two searches for a property that allows one outcome at every step,
/// neither stops before the other: a search that went further would have
/// passed the step at which the other stopped.
proof fn search_stops_no_later<S: Serial, P: Testable>(
    property: P,
    depth: nat,
    attempted: nat,
    verdict: Result<nat, Outcome>,
    other_attempted: nat,
    other: Result<nat, Outcome>,
)
    requires
        deterministic(property),
        search_ends_with::<S, P>(property, depth, attempted, verdict),
        search_ends_with::<S, P>(property, depth, other_attempted, other),
    ensures
        stopped_at(other_attempted, other) <= stopped_at(attempted, verdict),
{
    let stop = stopped_at(attempted, verdict);
    let other_stop = stopped_at(other_attempted, other);
    if stop < other_stop {
        match verdict {
            Ok(_) => {
                // The other search checked a step that this one found out of reach.
                if other is Err {
                    search_has_no_gaps::<S>(depth, stop, other_stop);
                }
            },
            Err(_) => {
                // The other search passed the step at which this one failed.
                assert(may_pass(property, stop));
            },
        }
    }
}

/// A search holds no hidden state: for a property that allows one outcome
/// at every step, two searches with the same depth bound end with the same
/// verdict after the same number of checks.
pub proof fn search_is_repeatable<S: Serial, P: Testable>(
    property: P,
    depth: nat,
    first_attempted: nat,
    first: Result<nat, Outcome>,
    second_attempted: nat,
    second: Result<nat, Outcome>,
)
    requires
        deterministic(property),
        search_ends_with::<S, P>(property, depth, first_attempted, first),
        search_ends_with::<S, P>(property, depth, second_attempted, second),
    ensures
        first == second,
        first_attempted == second_attempted,
{
    search_stops_no_later::<S, P>(
        property,
        depth,
        first_attempted,
        first,
        second_attempted,
        second,
    );
    search_stops_no_later::<S, P>(
        property,
        depth,
        second_attempted,
        second,
        first_attempted,
        first,
    );
}

/// A counterexample is minimal: for a property that allows one outcome at
/// every step, whatever the property yields at a step before the one that a
/// search reports as failing, passes.
pub proof fn counterexample_is_minimal<S: Serial, P: Testable>(
    property: P,
    depth: nat,
    attempted: nat,
    counterexample: Outcome,
    earlier: nat,
    outcome: Outcome,
)
    requires
        deterministic(property),
        search_ends_with::<S, P>(property, depth, attempted, Err(counterexample)),
        earlier < attempted - 1,
        property.yields(earlier, outcome),
    ensures
        outcome.passed,
{
    assert(may_pass(property, earlier));
}

/// A search for a property that passes at every step ends in `Ok` with the
/// number of steps that lie within the search.
pub proof fn search_of_passing_property<S: Serial, P: Testable>(
    property: P,
    depth: nat,
    attempted: nat,
    verdict: Result<nat, Outcome>,
    end: nat,
)
    requires
        forall|step: nat, outcome: Outcome| #[trigger]
            property.yields(step, outcome) ==> outcome.passed,
        search_ends_with::<S, P>(property, depth, attempted, verdict),
        forall|step: nat| step < end ==> #[trigger] within_search::<S>(depth, step),
        !within_search::<S>(depth, end),
    ensures
        verdict == Ok::<nat, Outcome>(end),
        attempted == end,
{
}

/// A search does not pass over a failure: where the property fails at a
/// step that lies within the search, whatever it yields there, the search
/// ends in `Err`, at that step or before it.
pub proof fn search_finds_failure<S: Serial, P: Testable>(
    property: P,
    depth: nat,
    attempted: nat,
    verdict: Result<nat, Outcome>,
    failing: nat,
)
    requires
        search_ends_with::<S, P>(property, depth, attempted, verdict),
        within_search::<S>(depth, failing),
        forall|outcome: Outcome| #[trigger] property.yields(failing, outcome) ==> !outcome.passed,
    ensures
        verdict is Err,
        attempted <= failing + 1,
{
    match verdict {
        Ok(total) => {
            if failing < total {
                assert(may_pass(property, failing));
            } else {
                search_has_no_gaps::<S>(depth, total, failing);
            }
        },
        Err(_) => {
            if failing + 1 < attempted {
                assert(may_pass(property, failing));
            }
        },
    }
}

/// A runtime error at the first step ends the search there: where the
/// enumeration of `S` has a value at step `0` and the property can only stop
/// with a runtime error at that step, the verdict is that error, after one
/// check.
pub proof fn search_stops_at_first_error<S: Serial, P: Testable>(
    property: P,
    depth: nat,
    attempted: nat,
    verdict: Result<nat, Outcome>,
)
    requires
        search_ends_with::<S, P>(property, depth, attempted, verdict),
        S::nth(0) is Some,
        forall|outcome: Outcome| #[trigger]
            property.yields(0, outcome) ==> !outcome.passed && outcome.error is Some,
    ensures
        verdict is Err,
        verdict->Err_0.error is Some,
        property.yields(0, verdict->Err_0),
        attempted == 1,
{
    search_finds_failure::<S, P>(property, depth, attempted, verdict, 0);
}

/// Vacuous exhaustion: where the enumeration of `S` has `size` values, all
/// of them within the depth bound, a search for a property that passes at
/// every step ends in `Ok` after exactly `size` checks.
pub proof fn search_exhausts_finite_enumeration<S: Serial, P: Testable>(
    property: P,
    depth: nat,
    attempted: nat,
    verdict: Result<nat, Outcome>,
    size: nat,
)
    requires
        forall|step: nat| (#[trigger] S::nth(step)) is Some <==> step < size,
        size <= depth + 1,
        forall|step: nat, outcome: Outcome| #[trigger]
            property.yields(step, outcome) ==> outcome.passed,
        search_ends_with::<S, P>(property, depth, attempted, verdict),
    ensures
        verdict == Ok::<nat, Outcome>(size),
        attempted == size,
{
    search_of_passing_property::<S, P>(property, depth, attempted, verdict, size);
}

} // verus!
