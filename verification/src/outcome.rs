//! The result of checking a property once, and how a failure is reported.

use vstd::prelude::*;
use vstd::string::*;

verus! {

/// What one check of a property came to: whether it passed, the rendered
/// arguments it was checked on, and the diagnostic of a runtime error.
///
/// This is the mathematical content of a [`TestResult`].
#[verifier::ext_equal]
pub struct Outcome {
    pub passed: bool,
    pub arguments: Seq<Seq<char>>,
    pub error: Option<Seq<char>>,
}

impl Outcome {
    /// The outcome of a property that holds (`true`) or does not (`false`),
    /// with no arguments recorded.
    pub open spec fn from_bool(b: bool) -> Outcome {
        Outcome { passed: b, arguments: Seq::empty(), error: None }
    }

    /// The outcome of a property that stopped with a runtime error described
    /// by `message`.
    pub open spec fn errored(message: Seq<char>) -> Outcome {
        Outcome { passed: false, arguments: Seq::empty(), error: Some(message) }
    }

    /// This outcome, recorded for the given arguments.
    pub open spec fn with_arguments(self, arguments: Seq<Seq<char>>) -> Outcome {
        Outcome { passed: self.passed, arguments, error: self.error }
    }
}

/// The texts of a sequence of strings.
pub open spec fn texts(strings: Seq<String>) -> Seq<Seq<char>> {
    Seq::new(strings.len(), |i: int| strings[i]@)
}

/// Whether a test has passed or failed.
#[derive(Clone, Copy, Debug)]
enum Status {
    Pass,
    Fail,
}

/// Describes the status of a single instance of a test.
///
/// All testable things must be capable of producing a `TestResult`.
#[derive(Debug)]
pub struct TestResult {
    status: Status,
    arguments: Vec<String>,
    err: Option<String>,
}

impl View for TestResult {
    type V = Outcome;

    closed spec fn view(&self) -> Outcome {
        Outcome {
            passed: self.status is Pass,
            arguments: texts(self.arguments@),
            error: match self.err {
                Some(message) => Some(message@),
                None => None,
            },
        }
    }
}

impl TestResult {
    #[verifier::type_invariant]
    spec fn coherent(&self) -> bool {
        self.err is Some ==> self.status is Fail
    }

    /// Produces a test result that indicates the current test has passed.
    pub fn passed() -> (r: TestResult)
        ensures
            r@ == Outcome::from_bool(true),
    {
        TestResult::from_bool(true)
    }

    /// Produces a test result that indicates the current test has failed.
    pub fn failed() -> (r: TestResult)
        ensures
            r@ == Outcome::from_bool(false),
    {
        TestResult::from_bool(false)
    }

    /// Produces a test result that indicates failure from a runtime error.
    pub fn error(msg: String) -> (r: TestResult)
        ensures
            r@ == Outcome::errored(msg@),
    {
        TestResult { status: Status::Fail, arguments: Vec::new(), err: Some(msg) }
    }

    /// Converts a `bool` to a `TestResult`. A `true` value indicates that
    /// the test has passed and a `false` value indicates that the test
    /// has failed.
    pub fn from_bool(b: bool) -> (r: TestResult)
        ensures
            r@ == Outcome::from_bool(b),
    {
        TestResult {
            status: if b {
                Status::Pass
            } else {
                Status::Fail
            },
            arguments: Vec::new(),
            err: None,
        }
    }

    /// Records the rendered arguments on which this result was obtained, in
    /// place of any recorded before.
    pub fn with_arguments(self, arguments: Vec<String>) -> (r: TestResult)
        ensures
            r@ == self@.with_arguments(texts(arguments@)),
    {
        proof {
            use_type_invariant(&self);
        }
        TestResult { status: self.status, arguments, err: self.err }
    }

    /// Whether the test did not pass: it failed, or stopped with a runtime
    /// error.
    pub fn is_failure(&self) -> (failure: bool)
        ensures
            failure == !self@.passed,
    {
        match self.status {
            Status::Pass => false,
            Status::Fail => true,
        }
    }

    /// Whether the test stopped with a runtime error. A test that did is a
    /// failure.
    pub fn is_error(&self) -> (error: bool)
        ensures
            error == self@.error is Some,
            error ==> !self@.passed,
    {
        proof {
            use_type_invariant(self);
        }
        self.err.is_some()
    }

    /// The rendered arguments on which this result was obtained.
    pub fn arguments(&self) -> (arguments: &Vec<String>)
        ensures
            texts(arguments@) == self@.arguments,
    {
        &self.arguments
    }

    /// The diagnostic of the runtime error, if the test stopped with one.
    pub fn diagnostic(&self) -> (message: Option<&String>)
        ensures
            match message {
                Some(text) => self@.error == Some(text@),
                None => self@.error is None,
            },
    {
        self.err.as_ref()
    }

    /// The text of the report for this result, as a failing one.
    pub fn failed_msg(&self) -> (msg: String)
        ensures
            msg@ == failure_message(self@),
    {
        let arguments = join_text(&self.arguments, ", ");
        match &self.err {
            None => {
                let mut msg = String::from_str("[check] TEST FAILED. Arguments: (");
                msg.append(arguments.as_str());
                msg.append(")");
                msg
            },
            Some(err) => {
                let mut msg = String::from_str(
                    "[check] TEST FAILED (runtime error). Arguments: (",
                );
                msg.append(arguments.as_str());
                msg.append(")\nError: ");
                msg.append(err.as_str());
                msg
            },
        }
    }
}

impl Clone for TestResult {
    fn clone(&self) -> (r: TestResult)
        ensures
            r@ == self@,
    {
        proof {
            use_type_invariant(self);
        }
        let mut arguments: Vec<String> = Vec::new();
        let mut i: usize = 0;
        while i < self.arguments.len()
            invariant
                i <= self.arguments.len(),
                arguments.len() == i,
                forall|j: int| 0 <= j < i ==> arguments@[j]@ == self.arguments@[j]@,
            decreases self.arguments.len() - i,
        {
            arguments.push(self.arguments[i].clone());
            i += 1;
        }
        let err = match &self.err {
            Some(message) => Some(message.clone()),
            None => None,
        };
        TestResult { status: self.status, arguments, err }
    }
}

/// The given parts in a row, with `separator` between each two of them.
pub open spec fn join(parts: Seq<Seq<char>>, separator: Seq<char>) -> Seq<char>
    decreases parts.len(),
{
    if parts.len() == 0 {
        Seq::empty()
    } else if parts.len() == 1 {
        parts[0]
    } else {
        join(parts.drop_last(), separator) + separator + parts.last()
    }
}

/// Concatenates the strings of `parts`, putting `separator` between them.
pub fn join_text(parts: &Vec<String>, separator: &str) -> (joined: String)
    ensures
        joined@ == join(texts(parts@), separator@),
{
    let mut joined = String::new();
    let mut i: usize = 0;
    while i < parts.len()
        invariant
            i <= parts.len(),
            joined@ == join(texts(parts@).take(i as int), separator@),
        decreases parts.len() - i,
    {
        let ghost done = texts(parts@).take(i as int);
        let ghost next = texts(parts@).take(i + 1);
        assert(next.drop_last() =~= done);
        if i > 0 {
            joined.append(separator);
        }
        joined.append(parts[i].as_str());
        i += 1;
    }
    assert(texts(parts@).take(i as int) =~= texts(parts@));
    joined
}

/// The report of a failed check: the arguments that falsified the property
/// and, for a runtime error, its diagnostic on a line of its own.
pub open spec fn failure_message(outcome: Outcome) -> Seq<char> {
    match outcome.error {
        None => "[check] TEST FAILED. Arguments: ("@ + join(outcome.arguments, ", "@) + ")"@,
        Some(error) => "[check] TEST FAILED (runtime error). Arguments: ("@ + join(
            outcome.arguments,
            ", "@,
        ) + ")\nError: "@ + error,
    }
}

/// The diagnostic that stands in for a fault that left no text behind.
pub open spec fn unknown_fault() -> Seq<char> {
    "UNABLE TO SHOW RESULT OF PANIC."@
}

/// The diagnostic of a contained fault: the text found in its payload, or a
/// fixed message where the payload held no text.
pub fn fault_message(payload: Option<String>) -> (message: String)
    ensures
        message@ == match payload {
            Some(text) => text@,
            None => unknown_fault(),
        },
{
    match payload {
        Some(text) => text,
        None => String::from_str("UNABLE TO SHOW RESULT OF PANIC."),
    }
}

} // verus!
