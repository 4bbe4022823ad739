//! Functions as properties.
//!
//! A function of up to twelve arguments is checked by drawing its arguments
//! from the enumeration, all at the step where the cursor stands, and
//! checking what it returns. The result is recorded together with the
//! rendered arguments. Where no arguments are left at that step, there is
//! nothing to check, and the function passes without being called.
//!
//! A function that may panic is contained before it is wrapped here: it is
//! given the form of a function that returns a `Result`, whose error is then
//! reported as a runtime error.

use crate::outcome::{texts, Outcome, TestResult};
use crate::render::Render;
use crate::serial::{Cursor, Serial};
use crate::testable::{deterministic, Testable};
use std::marker::PhantomData;
use vstd::prelude::*;

verus! {

/// A property without arguments: a function that takes nothing and gives a
/// testable value. The empty tuple of its arguments is exhausted from the
/// first step on, so the property passes at every step, and the function is
/// never called.
#[verifier::reject_recursive_types(T)]
pub struct Property0<T: Testable, Fun: Fn() -> T> {
    function: Fun,
    signature: PhantomData<T>,
}

impl<T: Testable, Fun: Fn() -> T> Property0<T, Fun> {
    /// The function under test.
    pub closed spec fn function(&self) -> Fun {
        self.function
    }

    /// Wraps `function`.
    pub fn new(function: Fun) -> (property: Self)
        ensures
            property.function() == function,
    {
        Property0 { function, signature: PhantomData }
    }

    /// A property without arguments allows one outcome at every step.
    pub proof fn function_determines_outcome(self)
        ensures
            deterministic(self),
    {
    }
}

impl<T: Testable, Fun: Fn() -> T> Testable for Property0<T, Fun> {
    open spec fn yields(&self, step: nat, outcome: Outcome) -> bool {
        outcome == Outcome::from_bool(true)
    }

    fn result<S: Cursor>(&self, s: &mut S) -> (r: TestResult) {
        let drawn: Option<()> = Serial::next(s);
        match drawn {
            Some(()) => {
                let value = (self.function)();
                value.result(s)
            },
            None => TestResult::passed(),
        }
    }
}

/// A property of one argument: a function from an enumerable value to a
/// testable value.
#[verifier::reject_recursive_types(A)]
#[verifier::reject_recursive_types(T)]
pub struct Property1<A: Serial + Render, T: Testable, Fun: Fn(A) -> T> {
    function: Fun,
    signature: PhantomData<(A, T)>,
}

impl<A: Serial + Render, T: Testable, Fun: Fn(A) -> T> Property1<A, T, Fun> {
    #[verifier::type_invariant]
    spec fn callable(&self) -> bool {
        forall|step: nat|
            (#[trigger] <(A,)>::nth(step)) matches Some(args) ==> call_requires(self.function, args)
    }

    /// The function under test.
    pub closed spec fn function(&self) -> Fun {
        self.function
    }

    /// Wraps `function`, which must accept every argument that the
    /// enumeration can draw.
    pub fn new(function: Fun) -> (property: Self)
        requires
            forall|step: nat|
                (#[trigger] <(A,)>::nth(step)) matches Some(args) ==> call_requires(function, args),
        ensures
            property.function() == function,
    {
        Property1 { function, signature: PhantomData }
    }

    /// Where the contract of the function leaves one result for given
    /// arguments, and that result allows one outcome at every step, the
    /// property allows one outcome at every step.
    pub proof fn function_determines_outcome(self)
        requires
            forall|a: A, first: T, second: T|
                #![trigger
                    call_ensures(self.function(), (a,), first),
                    call_ensures(self.function(), (a,), second),
                ]
                call_ensures(self.function(), (a,), first)
                    && call_ensures(self.function(), (a,), second)
                    ==> first == second && deterministic(first),
        ensures
            deterministic(self),
    {
    }
}

impl<A: Serial + Render, T: Testable, Fun: Fn(A) -> T> Testable for Property1<A, T, Fun> {
    open spec fn yields(&self, step: nat, outcome: Outcome) -> bool {
        match <(A,)>::nth(step) {
            Some((a,)) => exists|value: T, inner: Outcome|
                call_ensures(self.function(), (a,), value)
                    && #[trigger] value.yields(step, inner)
                    && outcome == inner.with_arguments(seq![a.text()]),
            None => outcome == Outcome::from_bool(true),
        }
    }

    fn result<S: Cursor>(&self, s: &mut S) -> (r: TestResult) {
        proof {
            use_type_invariant(self);
        }
        let drawn: Option<(A,)> = Serial::next(s);
        match drawn {
            Some((a,)) => {
                let arguments: Vec<String> = vec![a.render()];
                assert(texts(arguments@) =~= seq![a.text()]);
                let value = (self.function)(a);
                let inner = value.result(s);
                inner.with_arguments(arguments)
            },
            None => TestResult::passed(),
        }
    }
}

/// A property of two arguments: a function from two enumerable values to a
/// testable value.
#[verifier::reject_recursive_types(A)]
#[verifier::reject_recursive_types(B)]
#[verifier::reject_recursive_types(T)]
pub struct Property2<A: Serial + Render, B: Serial + Render, T: Testable, Fun: Fn(A, B) -> T> {
    function: Fun,
    signature: PhantomData<(A, B, T)>,
}

impl<A, B, T, Fun> Property2<A, B, T, Fun> where
    A: Serial + Render,
    B: Serial + Render,
    T: Testable,
    Fun: Fn(A, B) -> T,
 {
    #[verifier::type_invariant]
    spec fn callable(&self) -> bool {
        forall|step: nat|
            (#[trigger] <(A, B)>::nth(step)) matches Some(args)
                ==> call_requires(self.function, args)
    }

    /// The function under test.
    pub closed spec fn function(&self) -> Fun {
        self.function
    }

    /// Wraps `function`, which must accept every tuple of arguments that the
    /// enumeration can draw.
    pub fn new(function: Fun) -> (property: Self)
        requires
            forall|step: nat|
                (#[trigger] <(A, B)>::nth(step)) matches Some(args)
                    ==> call_requires(function, args),
        ensures
            property.function() == function,
    {
        Property2 { function, signature: PhantomData }
    }

    /// Where the contract of the function leaves one result for given
    /// arguments, and that result allows one outcome at every step, the
    /// property allows one outcome at every step.
    pub proof fn function_determines_outcome(self)
        requires
            forall|a: A, b: B, first: T, second: T|
                #![trigger
                    call_ensures(self.function(), (a, b), first),
                    call_ensures(self.function(), (a, b), second),
                ]
                call_ensures(self.function(), (a, b), first)
                    && call_ensures(self.function(), (a, b), second)
                    ==> first == second && deterministic(first),
        ensures
            deterministic(self),
    {
    }
}

impl<A, B, T, Fun> Testable for Property2<A, B, T, Fun> where
    A: Serial + Render,
    B: Serial + Render,
    T: Testable,
    Fun: Fn(A, B) -> T,
 {
    open spec fn yields(&self, step: nat, outcome: Outcome) -> bool {
        match <(A, B)>::nth(step) {
            Some((a, b)) => exists|value: T, inner: Outcome|
                call_ensures(self.function(), (a, b), value)
                    && #[trigger] value.yields(step, inner)
                    && outcome == inner.with_arguments(seq![a.text(), b.text()]),
            None => outcome == Outcome::from_bool(true),
        }
    }

    fn result<S: Cursor>(&self, s: &mut S) -> (r: TestResult) {
        proof {
            use_type_invariant(self);
        }
        let drawn: Option<(A, B)> = Serial::next(s);
        match drawn {
            Some((a, b)) => {
                let arguments: Vec<String> = vec![a.render(), b.render()];
                assert(texts(arguments@) =~= seq![a.text(), b.text()]);
                let value = (self.function)(a, b);
                let inner = value.result(s);
                inner.with_arguments(arguments)
            },
            None => TestResult::passed(),
        }
    }
}

/// A property of three arguments: a function from three enumerable values to a
/// testable value.
#[verifier::reject_recursive_types(A)]
#[verifier::reject_recursive_types(B)]
#[verifier::reject_recursive_types(C)]
#[verifier::reject_recursive_types(T)]
pub struct Property3<A, B, C, T, Fun> where
    A: Serial + Render,
    B: Serial + Render,
    C: Serial + Render,
    T: Testable,
    Fun: Fn(A, B, C) -> T,
 {
    function: Fun,
    signature: PhantomData<(A, B, C, T)>,
}

impl<A, B, C, T, Fun> Property3<A, B, C, T, Fun> where
    A: Serial + Render,
    B: Serial + Render,
    C: Serial + Render,
    T: Testable,
    Fun: Fn(A, B, C) -> T,
 {
    #[verifier::type_invariant]
    spec fn callable(&self) -> bool {
        forall|step: nat|
            (#[trigger] <(A, B, C)>::nth(step)) matches Some(args)
                ==> call_requires(self.function, args)
    }

    /// The function under test.
    pub closed spec fn function(&self) -> Fun {
        self.function
    }

    /// Wraps `function`, which must accept every tuple of arguments that the
    /// enumeration can draw.
    pub fn new(function: Fun) -> (property: Self)
        requires
            forall|step: nat|
                (#[trigger] <(A, B, C)>::nth(step)) matches Some(args)
                    ==> call_requires(function, args),
        ensures
            property.function() == function,
    {
        Property3 { function, signature: PhantomData }
    }

    /// Where the contract of the function leaves one result for given
    /// arguments, and that result allows one outcome at every step, the
    /// property allows one outcome at every step.
    pub proof fn function_determines_outcome(self)
        requires
            forall|a: A, b: B, c: C, first: T, second: T|
                #![trigger
                    call_ensures(self.function(), (a, b, c), first),
                    call_ensures(self.function(), (a, b, c), second),
                ]
                call_ensures(self.function(), (a, b, c), first)
                    && call_ensures(self.function(), (a, b, c), second)
                    ==> first == second && deterministic(first),
        ensures
            deterministic(self),
    {
    }
}

impl<A, B, C, T, Fun> Testable for Property3<A, B, C, T, Fun> where
    A: Serial + Render,
    B: Serial + Render,
    C: Serial + Render,
    T: Testable,
    Fun: Fn(A, B, C) -> T,
 {
    open spec fn yields(&self, step: nat, outcome: Outcome) -> bool {
        match <(A, B, C)>::nth(step) {
            Some((a, b, c)) => exists|value: T, inner: Outcome|
                call_ensures(self.function(), (a, b, c), value)
                    && #[trigger] value.yields(step, inner)
                    && outcome == inner.with_arguments(seq![a.text(), b.text(), c.text()]),
            None => outcome == Outcome::from_bool(true),
        }
    }

    fn result<S: Cursor>(&self, s: &mut S) -> (r: TestResult) {
        proof {
            use_type_invariant(self);
        }
        let drawn: Option<(A, B, C)> = Serial::next(s);
        match drawn {
            Some((a, b, c)) => {
                let arguments: Vec<String> = vec![a.render(), b.render(), c.render()];
                assert(texts(arguments@) =~= seq![a.text(), b.text(), c.text()]);
                let value = (self.function)(a, b, c);
                let inner = value.result(s);
                inner.with_arguments(arguments)
            },
            None => TestResult::passed(),
        }
    }
}

/// A property of four arguments: a function from four enumerable values to a
/// testable value.
#[verifier::reject_recursive_types(A)]
#[verifier::reject_recursive_types(B)]
#[verifier::reject_recursive_types(C)]
#[verifier::reject_recursive_types(D)]
#[verifier::reject_recursive_types(T)]
pub struct Property4<A, B, C, D, T, Fun> where
    A: Serial + Render,
    B: Serial + Render,
    C: Serial + Render,
    D: Serial + Render,
    T: Testable,
    Fun: Fn(A, B, C, D) -> T,
 {
    function: Fun,
    signature: PhantomData<(A, B, C, D, T)>,
}

impl<A, B, C, D, T, Fun> Property4<A, B, C, D, T, Fun> where
    A: Serial + Render,
    B: Serial + Render,
    C: Serial + Render,
    D: Serial + Render,
    T: Testable,
    Fun: Fn(A, B, C, D) -> T,
 {
    #[verifier::type_invariant]
    spec fn callable(&self) -> bool {
        forall|step: nat|
            (#[trigger] <(A, B, C, D)>::nth(step)) matches Some(args)
                ==> call_requires(self.function, args)
    }

    /// The function under test.
    pub closed spec fn function(&self) -> Fun {
        self.function
    }

    /// Wraps `function`, which must accept every tuple of arguments that the
    /// enumeration can draw.
    pub fn new(function: Fun) -> (property: Self)
        requires
            forall|step: nat|
                (#[trigger] <(A, B, C, D)>::nth(step)) matches Some(args)
                    ==> call_requires(function, args),
        ensures
            property.function() == function,
    {
        Property4 { function, signature: PhantomData }
    }

    /// Where the contract of the function leaves one result for given
    /// arguments, and that result allows one outcome at every step, the
    /// property allows one outcome at every step.
    pub proof fn function_determines_outcome(self)
        requires
            forall|a: A, b: B, c: C, d: D, first: T, second: T|
                #![trigger
                    call_ensures(self.function(), (a, b, c, d), first),
                    call_ensures(self.function(), (a, b, c, d), second),
                ]
                call_ensures(self.function(), (a, b, c, d), first)
                    && call_ensures(self.function(), (a, b, c, d), second)
                    ==> first == second && deterministic(first),
        ensures
            deterministic(self),
    {
    }
}

impl<A, B, C, D, T, Fun> Testable for Property4<A, B, C, D, T, Fun> where
    A: Serial + Render,
    B: Serial + Render,
    C: Serial + Render,
    D: Serial + Render,
    T: Testable,
    Fun: Fn(A, B, C, D) -> T,
 {
    open spec fn yields(&self, step: nat, outcome: Outcome) -> bool {
        match <(A, B, C, D)>::nth(step) {
            Some((a, b, c, d)) => exists|value: T, inner: Outcome|
                call_ensures(self.function(), (a, b, c, d), value)
                    && #[trigger] value.yields(step, inner)
                    && outcome == inner.with_arguments(seq![
                        a.text(),
                        b.text(),
                        c.text(),
                        d.text(),
                    ]),
            None => outcome == Outcome::from_bool(true),
        }
    }

    fn result<S: Cursor>(&self, s: &mut S) -> (r: TestResult) {
        proof {
            use_type_invariant(self);
        }
        let drawn: Option<(A, B, C, D)> = Serial::next(s);
        match drawn {
            Some((a, b, c, d)) => {
                let arguments: Vec<String> = vec![a.render(), b.render(), c.render(), d.render()];
                assert(texts(arguments@) =~= seq![a.text(), b.text(), c.text(), d.text()]);
                let value = (self.function)(a, b, c, d);
                let inner = value.result(s);
                inner.with_arguments(arguments)
            },
            None => TestResult::passed(),
        }
    }
}

/// A property of five arguments: a function from five enumerable values to a
/// testable value.
#[verifier::reject_recursive_types(A)]
#[verifier::reject_recursive_types(B)]
#[verifier::reject_recursive_types(C)]
#[verifier::reject_recursive_types(D)]
#[verifier::reject_recursive_types(E)]
#[verifier::reject_recursive_types(T)]
pub struct Property5<A, B, C, D, E, T, Fun> where
    A: Serial + Render,
    B: Serial + Render,
    C: Serial + Render,
    D: Serial + Render,
    E: Serial + Render,
    T: Testable,
    Fun: Fn(A, B, C, D, E) -> T,
 {
    function: Fun,
    signature: PhantomData<(A, B, C, D, E, T)>,
}

impl<A, B, C, D, E, T, Fun> Property5<A, B, C, D, E, T, Fun> where
    A: Serial + Render,
    B: Serial + Render,
    C: Serial + Render,
    D: Serial + Render,
    E: Serial + Render,
    T: Testable,
    Fun: Fn(A, B, C, D, E) -> T,
 {
    #[verifier::type_invariant]
    spec fn callable(&self) -> bool {
        forall|step: nat|
            (#[trigger] <(A, B, C, D, E)>::nth(step)) matches Some(args)
                ==> call_requires(self.function, args)
    }

    /// The function under test.
    pub closed spec fn function(&self) -> Fun {
        self.function
    }

    /// Wraps `function`, which must accept every tuple of arguments that the
    /// enumeration can draw.
    pub fn new(function: Fun) -> (property: Self)
        requires
            forall|step: nat|
                (#[trigger] <(A, B, C, D, E)>::nth(step)) matches Some(args)
                    ==> call_requires(function, args),
        ensures
            property.function() == function,
    {
        Property5 { function, signature: PhantomData }
    }

    /// Where the contract of the function leaves one result for given
    /// arguments, and that result allows one outcome at every step, the
    /// property allows one outcome at every step.
    pub proof fn function_determines_outcome(self)
        requires
            forall|a: A, b: B, c: C, d: D, e: E, first: T, second: T|
                #![trigger
                    call_ensures(self.function(), (a, b, c, d, e), first),
                    call_ensures(self.function(), (a, b, c, d, e), second),
                ]
                call_ensures(self.function(), (a, b, c, d, e), first)
                    && call_ensures(self.function(), (a, b, c, d, e), second)
                    ==> first == second && deterministic(first),
        ensures
            deterministic(self),
    {
    }
}

impl<A, B, C, D, E, T, Fun> Testable for Property5<A, B, C, D, E, T, Fun> where
    A: Serial + Render,
    B: Serial + Render,
    C: Serial + Render,
    D: Serial + Render,
    E: Serial + Render,
    T: Testable,
    Fun: Fn(A, B, C, D, E) -> T,
 {
    open spec fn yields(&self, step: nat, outcome: Outcome) -> bool {
        match <(A, B, C, D, E)>::nth(step) {
            Some((a, b, c, d, e)) => exists|value: T, inner: Outcome|
                call_ensures(self.function(), (a, b, c, d, e), value)
                    && #[trigger] value.yields(step, inner)
                    && outcome == inner.with_arguments(seq![
                        a.text(),
                        b.text(),
                        c.text(),
                        d.text(),
                        e.text(),
                    ]),
            None => outcome == Outcome::from_bool(true),
        }
    }

    fn result<S: Cursor>(&self, s: &mut S) -> (r: TestResult) {
        proof {
            use_type_invariant(self);
        }
        let drawn: Option<(A, B, C, D, E)> = Serial::next(s);
        match drawn {
            Some((a, b, c, d, e)) => {
                let arguments: Vec<String> = vec![
                    a.render(),
                    b.render(),
                    c.render(),
                    d.render(),
                    e.render(),
                ];
                assert(texts(arguments@) =~= seq![
                    a.text(),
                    b.text(),
                    c.text(),
                    d.text(),
                    e.text(),
                ]);
                let value = (self.function)(a, b, c, d, e);
                let inner = value.result(s);
                inner.with_arguments(arguments)
            },
            None => TestResult::passed(),
        }
    }
}

/// A property of six arguments: a function from six enumerable values to a
/// testable value.
#[verifier::reject_recursive_types(A)]
#[verifier::reject_recursive_types(B)]
#[verifier::reject_recursive_types(C)]
#[verifier::reject_recursive_types(D)]
#[verifier::reject_recursive_types(E)]
#[verifier::reject_recursive_types(F)]
#[verifier::reject_recursive_types(T)]
pub struct Property6<A, B, C, D, E, F, T, Fun> where
    A: Serial + Render,
    B: Serial + Render,
    C: Serial + Render,
    D: Serial + Render,
    E: Serial + Render,
    F: Serial + Render,
    T: Testable,
    Fun: Fn(A, B, C, D, E, F) -> T,
 {
    function: Fun,
    signature: PhantomData<(A, B, C, D, E, F, T)>,
}

impl<A, B, C, D, E, F, T, Fun> Property6<A, B, C, D, E, F, T, Fun> where
    A: Serial + Render,
    B: Serial + Render,
    C: Serial + Render,
    D: Serial + Render,
    E: Serial + Render,
    F: Serial + Render,
    T: Testable,
    Fun: Fn(A, B, C, D, E, F) -> T,
 {
    #[verifier::type_invariant]
    spec fn callable(&self) -> bool {
        forall|step: nat|
            (#[trigger] <(A, B, C, D, E, F)>::nth(step)) matches Some(args)
                ==> call_requires(self.function, args)
    }

    /// The function under test.
    pub closed spec fn function(&self) -> Fun {
        self.function
    }

    /// Wraps `function`, which must accept every tuple of arguments that the
    /// enumeration can draw.
    pub fn new(function: Fun) -> (property: Self)
        requires
            forall|step: nat|
                (#[trigger] <(A, B, C, D, E, F)>::nth(step)) matches Some(args)
                    ==> call_requires(function, args),
        ensures
            property.function() == function,
    {
        Property6 { function, signature: PhantomData }
    }

    /// Where the contract of the function leaves one result for given
    /// arguments, and that result allows one outcome at every step, the
    /// property allows one outcome at every step.
    pub proof fn function_determines_outcome(self)
        requires
            forall|a: A, b: B, c: C, d: D, e: E, f: F, first: T, second: T|
                #![trigger
                    call_ensures(self.function(), (a, b, c, d, e, f), first),
                    call_ensures(self.function(), (a, b, c, d, e, f), second),
                ]
                call_ensures(self.function(), (a, b, c, d, e, f), first)
                    && call_ensures(self.function(), (a, b, c, d, e, f), second)
                    ==> first == second && deterministic(first),
        ensures
            deterministic(self),
    {
    }
}

impl<A, B, C, D, E, F, T, Fun> Testable for Property6<A, B, C, D, E, F, T, Fun> where
    A: Serial + Render,
    B: Serial + Render,
    C: Serial + Render,
    D: Serial + Render,
    E: Serial + Render,
    F: Serial + Render,
    T: Testable,
    Fun: Fn(A, B, C, D, E, F) -> T,
 {
    open spec fn yields(&self, step: nat, outcome: Outcome) -> bool {
        match <(A, B, C, D, E, F)>::nth(step) {
            Some((a, b, c, d, e, f)) => exists|value: T, inner: Outcome|
                call_ensures(self.function(), (a, b, c, d, e, f), value)
                    && #[trigger] value.yields(step, inner)
                    && outcome == inner.with_arguments(seq![
                        a.text(),
                        b.text(),
                        c.text(),
                        d.text(),
                        e.text(),
                        f.text(),
                    ]),
            None => outcome == Outcome::from_bool(true),
        }
    }

    fn result<S: Cursor>(&self, s: &mut S) -> (r: TestResult) {
        proof {
            use_type_invariant(self);
        }
        let drawn: Option<(A, B, C, D, E, F)> = Serial::next(s);
        match drawn {
            Some((a, b, c, d, e, f)) => {
                let arguments: Vec<String> = vec![
                    a.render(),
                    b.render(),
                    c.render(),
                    d.render(),
                    e.render(),
                    f.render(),
                ];
                assert(texts(arguments@) =~= seq![
                    a.text(),
                    b.text(),
                    c.text(),
                    d.text(),
                    e.text(),
                    f.text(),
                ]);
                let value = (self.function)(a, b, c, d, e, f);
                let inner = value.result(s);
                inner.with_arguments(arguments)
            },
            None => TestResult::passed(),
        }
    }
}

/// A property of seven arguments: a function from seven enumerable values to a
/// testable value.
#[verifier::reject_recursive_types(A)]
#[verifier::reject_recursive_types(B)]
#[verifier::reject_recursive_types(C)]
#[verifier::reject_recursive_types(D)]
#[verifier::reject_recursive_types(E)]
#[verifier::reject_recursive_types(F)]
#[verifier::reject_recursive_types(G)]
#[verifier::reject_recursive_types(T)]
pub struct Property7<A, B, C, D, E, F, G, T, Fun> where
    A: Serial + Render,
    B: Serial + Render,
    C: Serial + Render,
    D: Serial + Render,
    E: Serial + Render,
    F: Serial + Render,
    G: Serial + Render,
    T: Testable,
    Fun: Fn(A, B, C, D, E, F, G) -> T,
 {
    function: Fun,
    signature: PhantomData<(A, B, C, D, E, F, G, T)>,
}

impl<A, B, C, D, E, F, G, T, Fun> Property7<A, B, C, D, E, F, G, T, Fun> where
    A: Serial + Render,
    B: Serial + Render,
    C: Serial + Render,
    D: Serial + Render,
    E: Serial + Render,
    F: Serial + Render,
    G: Serial + Render,
    T: Testable,
    Fun: Fn(A, B, C, D, E, F, G) -> T,
 {
    #[verifier::type_invariant]
    spec fn callable(&self) -> bool {
        forall|step: nat|
            (#[trigger] <(A, B, C, D, E, F, G)>::nth(step)) matches Some(args)
                ==> call_requires(self.function, args)
    }

    /// The function under test.
    pub closed spec fn function(&self) -> Fun {
        self.function
    }

    /// Wraps `function`, which must accept every tuple of arguments that the
    /// enumeration can draw.
    pub fn new(function: Fun) -> (property: Self)
        requires
            forall|step: nat|
                (#[trigger] <(A, B, C, D, E, F, G)>::nth(step)) matches Some(args)
                    ==> call_requires(function, args),
        ensures
            property.function() == function,
    {
        Property7 { function, signature: PhantomData }
    }

    /// Where the contract of the function leaves one result for given
    /// arguments, and that result allows one outcome at every step, the
    /// property allows one outcome at every step.
    pub proof fn function_determines_outcome(self)
        requires
            forall|a: A, b: B, c: C, d: D, e: E, f: F, g: G, first: T, second: T|
                #![trigger
                    call_ensures(self.function(), (a, b, c, d, e, f, g), first),
                    call_ensures(self.function(), (a, b, c, d, e, f, g), second),
                ]
                call_ensures(self.function(), (a, b, c, d, e, f, g), first)
                    && call_ensures(self.function(), (a, b, c, d, e, f, g), second)
                    ==> first == second && deterministic(first),
        ensures
            deterministic(self),
    {
    }
}

impl<A, B, C, D, E, F, G, T, Fun> Testable for Property7<A, B, C, D, E, F, G, T, Fun> where
    A: Serial + Render,
    B: Serial + Render,
    C: Serial + Render,
    D: Serial + Render,
    E: Serial + Render,
    F: Serial + Render,
    G: Serial + Render,
    T: Testable,
    Fun: Fn(A, B, C, D, E, F, G) -> T,
 {
    open spec fn yields(&self, step: nat, outcome: Outcome) -> bool {
        match <(A, B, C, D, E, F, G)>::nth(step) {
            Some((a, b, c, d, e, f, g)) => exists|value: T, inner: Outcome|
                call_ensures(self.function(), (a, b, c, d, e, f, g), value)
                    && #[trigger] value.yields(step, inner)
                    && outcome == inner.with_arguments(seq![
                        a.text(),
                        b.text(),
                        c.text(),
                        d.text(),
                        e.text(),
                        f.text(),
                        g.text(),
                    ]),
            None => outcome == Outcome::from_bool(true),
        }
    }

    fn result<S: Cursor>(&self, s: &mut S) -> (r: TestResult) {
        proof {
            use_type_invariant(self);
        }
        let drawn: Option<(A, B, C, D, E, F, G)> = Serial::next(s);
        match drawn {
            Some((a, b, c, d, e, f, g)) => {
                let arguments: Vec<String> = vec![
                    a.render(),
                    b.render(),
                    c.render(),
                    d.render(),
                    e.render(),
                    f.render(),
                    g.render(),
                ];
                assert(texts(arguments@) =~= seq![
                    a.text(),
                    b.text(),
                    c.text(),
                    d.text(),
                    e.text(),
                    f.text(),
                    g.text(),
                ]);
                let value = (self.function)(a, b, c, d, e, f, g);
                let inner = value.result(s);
                inner.with_arguments(arguments)
            },
            None => TestResult::passed(),
        }
    }
}

/// A property of eight arguments: a function from eight enumerable values to a
/// testable value.
#[verifier::reject_recursive_types(A)]
#[verifier::reject_recursive_types(B)]
#[verifier::reject_recursive_types(C)]
#[verifier::reject_recursive_types(D)]
#[verifier::reject_recursive_types(E)]
#[verifier::reject_recursive_types(F)]
#[verifier::reject_recursive_types(G)]
#[verifier::reject_recursive_types(H)]
#[verifier::reject_recursive_types(T)]
pub struct Property8<A, B, C, D, E, F, G, H, T, Fun> where
    A: Serial + Render,
    B: Serial + Render,
    C: Serial + Render,
    D: Serial + Render,
    E: Serial + Render,
    F: Serial + Render,
    G: Serial + Render,
    H: Serial + Render,
    T: Testable,
    Fun: Fn(A, B, C, D, E, F, G, H) -> T,
 {
    function: Fun,
    signature: PhantomData<(A, B, C, D, E, F, G, H, T)>,
}

impl<A, B, C, D, E, F, G, H, T, Fun> Property8<A, B, C, D, E, F, G, H, T, Fun> where
    A: Serial + Render,
    B: Serial + Render,
    C: Serial + Render,
    D: Serial + Render,
    E: Serial + Render,
    F: Serial + Render,
    G: Serial + Render,
    H: Serial + Render,
    T: Testable,
    Fun: Fn(A, B, C, D, E, F, G, H) -> T,
 {
    #[verifier::type_invariant]
    spec fn callable(&self) -> bool {
        forall|step: nat|
            (#[trigger] <(A, B, C, D, E, F, G, H)>::nth(step)) matches Some(args)
                ==> call_requires(self.function, args)
    }

    /// The function under test.
    pub closed spec fn function(&self) -> Fun {
        self.function
    }

    /// Wraps `function`, which must accept every tuple of arguments that the
    /// enumeration can draw.
    pub fn new(function: Fun) -> (property: Self)
        requires
            forall|step: nat|
                (#[trigger] <(A, B, C, D, E, F, G, H)>::nth(step)) matches Some(args)
                    ==> call_requires(function, args),
        ensures
            property.function() == function,
    {
        Property8 { function, signature: PhantomData }
    }

    /// Where the contract of the function leaves one result for given
    /// arguments, and that result allows one outcome at every step, the
    /// property allows one outcome at every step.
    pub proof fn function_determines_outcome(self)
        requires
            forall|a: A, b: B, c: C, d: D, e: E, f: F, g: G, h: H, first: T, second: T|
                #![trigger
                    call_ensures(self.function(), (a, b, c, d, e, f, g, h), first),
                    call_ensures(self.function(), (a, b, c, d, e, f, g, h), second),
                ]
                call_ensures(self.function(), (a, b, c, d, e, f, g, h), first)
                    && call_ensures(self.function(), (a, b, c, d, e, f, g, h), second)
                    ==> first == second && deterministic(first),
        ensures
            deterministic(self),
    {
    }
}

impl<A, B, C, D, E, F, G, H, T, Fun> Testable for Property8<A, B, C, D, E, F, G, H, T, Fun> where
    A: Serial + Render,
    B: Serial + Render,
    C: Serial + Render,
    D: Serial + Render,
    E: Serial + Render,
    F: Serial + Render,
    G: Serial + Render,
    H: Serial + Render,
    T: Testable,
    Fun: Fn(A, B, C, D, E, F, G, H) -> T,
 {
    open spec fn yields(&self, step: nat, outcome: Outcome) -> bool {
        match <(A, B, C, D, E, F, G, H)>::nth(step) {
            Some((a, b, c, d, e, f, g, h)) => exists|value: T, inner: Outcome|
                call_ensures(self.function(), (a, b, c, d, e, f, g, h), value)
                    && #[trigger] value.yields(step, inner)
                    && outcome == inner.with_arguments(seq![
                        a.text(),
                        b.text(),
                        c.text(),
                        d.text(),
                        e.text(),
                        f.text(),
                        g.text(),
                        h.text(),
                    ]),
            None => outcome == Outcome::from_bool(true),
        }
    }

    fn result<S: Cursor>(&self, s: &mut S) -> (r: TestResult) {
        proof {
            use_type_invariant(self);
        }
        let drawn: Option<(A, B, C, D, E, F, G, H)> = Serial::next(s);
        match drawn {
            Some((a, b, c, d, e, f, g, h)) => {
                let arguments: Vec<String> = vec![
                    a.render(),
                    b.render(),
                    c.render(),
                    d.render(),
                    e.render(),
                    f.render(),
                    g.render(),
                    h.render(),
                ];
                assert(texts(arguments@) =~= seq![
                    a.text(),
                    b.text(),
                    c.text(),
                    d.text(),
                    e.text(),
                    f.text(),
                    g.text(),
                    h.text(),
                ]);
                let value = (self.function)(a, b, c, d, e, f, g, h);
                let inner = value.result(s);
                inner.with_arguments(arguments)
            },
            None => TestResult::passed(),
        }
    }
}

/// A property of nine arguments: a function from nine enumerable values to a
/// testable value.
#[verifier::reject_recursive_types(A)]
#[verifier::reject_recursive_types(B)]
#[verifier::reject_recursive_types(C)]
#[verifier::reject_recursive_types(D)]
#[verifier::reject_recursive_types(E)]
#[verifier::reject_recursive_types(F)]
#[verifier::reject_recursive_types(G)]
#[verifier::reject_recursive_types(H)]
#[verifier::reject_recursive_types(I)]
#[verifier::reject_recursive_types(T)]
pub struct Property9<A, B, C, D, E, F, G, H, I, T, Fun> where
    A: Serial + Render,
    B: Serial + Render,
    C: Serial + Render,
    D: Serial + Render,
    E: Serial + Render,
    F: Serial + Render,
    G: Serial + Render,
    H: Serial + Render,
    I: Serial + Render,
    T: Testable,
    Fun: Fn(A, B, C, D, E, F, G, H, I) -> T,
 {
    function: Fun,
    signature: PhantomData<(A, B, C, D, E, F, G, H, I, T)>,
}

impl<A, B, C, D, E, F, G, H, I, T, Fun> Property9<A, B, C, D, E, F, G, H, I, T, Fun> where
    A: Serial + Render,
    B: Serial + Render,
    C: Serial + Render,
    D: Serial + Render,
    E: Serial + Render,
    F: Serial + Render,
    G: Serial + Render,
    H: Serial + Render,
    I: Serial + Render,
    T: Testable,
    Fun: Fn(A, B, C, D, E, F, G, H, I) -> T,
 {
    #[verifier::type_invariant]
    spec fn callable(&self) -> bool {
        forall|step: nat|
            (#[trigger] <(A, B, C, D, E, F, G, H, I)>::nth(step)) matches Some(args)
                ==> call_requires(self.function, args)
    }

    /// The function under test.
    pub closed spec fn function(&self) -> Fun {
        self.function
    }

    /// Wraps `function`, which must accept every tuple of arguments that the
    /// enumeration can draw.
    pub fn new(function: Fun) -> (property: Self)
        requires
            forall|step: nat|
                (#[trigger] <(A, B, C, D, E, F, G, H, I)>::nth(step)) matches Some(args)
                    ==> call_requires(function, args),
        ensures
            property.function() == function,
    {
        Property9 { function, signature: PhantomData }
    }

    /// Where the contract of the function leaves one result for given
    /// arguments, and that result allows one outcome at every step, the
    /// property allows one outcome at every step.
    pub proof fn function_determines_outcome(self)
        requires
            forall|a: A, b: B, c: C, d: D, e: E, f: F, g: G, h: H, i: I, first: T, second: T|
                #![trigger
                    call_ensures(self.function(), (a, b, c, d, e, f, g, h, i), first),
                    call_ensures(self.function(), (a, b, c, d, e, f, g, h, i), second),
                ]
                call_ensures(self.function(), (a, b, c, d, e, f, g, h, i), first)
                    && call_ensures(self.function(), (a, b, c, d, e, f, g, h, i), second)
                    ==> first == second && deterministic(first),
        ensures
            deterministic(self),
    {
    }
}

impl<A, B, C, D, E, F, G, H, I, T, Fun> Testable
    for Property9<A, B, C, D, E, F, G, H, I, T, Fun> where
    A: Serial + Render,
    B: Serial + Render,
    C: Serial + Render,
    D: Serial + Render,
    E: Serial + Render,
    F: Serial + Render,
    G: Serial + Render,
    H: Serial + Render,
    I: Serial + Render,
    T: Testable,
    Fun: Fn(A, B, C, D, E, F, G, H, I) -> T,
 {
    open spec fn yields(&self, step: nat, outcome: Outcome) -> bool {
        match <(A, B, C, D, E, F, G, H, I)>::nth(step) {
            Some((a, b, c, d, e, f, g, h, i)) => exists|value: T, inner: Outcome|
                call_ensures(self.function(), (a, b, c, d, e, f, g, h, i), value)
                    && #[trigger] value.yields(step, inner)
                    && outcome == inner.with_arguments(seq![
                        a.text(),
                        b.text(),
                        c.text(),
                        d.text(),
                        e.text(),
                        f.text(),
                        g.text(),
                        h.text(),
                        i.text(),
                    ]),
            None => outcome == Outcome::from_bool(true),
        }
    }

    fn result<S: Cursor>(&self, s: &mut S) -> (r: TestResult) {
        proof {
            use_type_invariant(self);
        }
        let drawn: Option<(A, B, C, D, E, F, G, H, I)> = Serial::next(s);
        match drawn {
            Some((a, b, c, d, e, f, g, h, i)) => {
                let arguments: Vec<String> = vec![
                    a.render(),
                    b.render(),
                    c.render(),
                    d.render(),
                    e.render(),
                    f.render(),
                    g.render(),
                    h.render(),
                    i.render(),
                ];
                assert(texts(arguments@) =~= seq![
                    a.text(),
                    b.text(),
                    c.text(),
                    d.text(),
                    e.text(),
                    f.text(),
                    g.text(),
                    h.text(),
                    i.text(),
                ]);
                let value = (self.function)(a, b, c, d, e, f, g, h, i);
                let inner = value.result(s);
                inner.with_arguments(arguments)
            },
            None => TestResult::passed(),
        }
    }
}

/// A property of ten arguments: a function from ten enumerable values to a
/// testable value.
#[verifier::reject_recursive_types(A)]
#[verifier::reject_recursive_types(B)]
#[verifier::reject_recursive_types(C)]
#[verifier::reject_recursive_types(D)]
#[verifier::reject_recursive_types(E)]
#[verifier::reject_recursive_types(F)]
#[verifier::reject_recursive_types(G)]
#[verifier::reject_recursive_types(H)]
#[verifier::reject_recursive_types(I)]
#[verifier::reject_recursive_types(J)]
#[verifier::reject_recursive_types(T)]
pub struct Property10<A, B, C, D, E, F, G, H, I, J, T, Fun> where
    A: Serial + Render,
    B: Serial + Render,
    C: Serial + Render,
    D: Serial + Render,
    E: Serial + Render,
    F: Serial + Render,
    G: Serial + Render,
    H: Serial + Render,
    I: Serial + Render,
    J: Serial + Render,
    T: Testable,
    Fun: Fn(A, B, C, D, E, F, G, H, I, J) -> T,
 {
    function: Fun,
    signature: PhantomData<(A, B, C, D, E, F, G, H, I, J, T)>,
}

impl<A, B, C, D, E, F, G, H, I, J, T, Fun> Property10<A, B, C, D, E, F, G, H, I, J, T, Fun> where
    A: Serial + Render,
    B: Serial + Render,
    C: Serial + Render,
    D: Serial + Render,
    E: Serial + Render,
    F: Serial + Render,
    G: Serial + Render,
    H: Serial + Render,
    I: Serial + Render,
    J: Serial + Render,
    T: Testable,
    Fun: Fn(A, B, C, D, E, F, G, H, I, J) -> T,
 {
    #[verifier::type_invariant]
    spec fn callable(&self) -> bool {
        forall|step: nat|
            (#[trigger] <(A, B, C, D, E, F, G, H, I, J)>::nth(step)) matches Some(args)
                ==> call_requires(self.function, args)
    }

    /// The function under test.
    pub closed spec fn function(&self) -> Fun {
        self.function
    }

    /// Wraps `function`, which must accept every tuple of arguments that the
    /// enumeration can draw.
    pub fn new(function: Fun) -> (property: Self)
        requires
            forall|step: nat|
                (#[trigger] <(A, B, C, D, E, F, G, H, I, J)>::nth(step)) matches Some(args)
                    ==> call_requires(function, args),
        ensures
            property.function() == function,
    {
        Property10 { function, signature: PhantomData }
    }

    /// Where the contract of the function leaves one result for given
    /// arguments, and that result allows one outcome at every step, the
    /// property allows one outcome at every step.
    pub proof fn function_determines_outcome(self)
        requires
            forall|a: A, b: B, c: C, d: D, e: E, f: F, g: G, h: H, i: I, j: J, first: T, second: T|
                #![trigger
                    call_ensures(self.function(), (a, b, c, d, e, f, g, h, i, j), first),
                    call_ensures(self.function(), (a, b, c, d, e, f, g, h, i, j), second),
                ]
                call_ensures(self.function(), (a, b, c, d, e, f, g, h, i, j), first)
                    && call_ensures(self.function(), (a, b, c, d, e, f, g, h, i, j), second)
                    ==> first == second && deterministic(first),
        ensures
            deterministic(self),
    {
    }
}

impl<A, B, C, D, E, F, G, H, I, J, T, Fun> Testable
    for Property10<A, B, C, D, E, F, G, H, I, J, T, Fun> where
    A: Serial + Render,
    B: Serial + Render,
    C: Serial + Render,
    D: Serial + Render,
    E: Serial + Render,
    F: Serial + Render,
    G: Serial + Render,
    H: Serial + Render,
    I: Serial + Render,
    J: Serial + Render,
    T: Testable,
    Fun: Fn(A, B, C, D, E, F, G, H, I, J) -> T,
 {
    open spec fn yields(&self, step: nat, outcome: Outcome) -> bool {
        match <(A, B, C, D, E, F, G, H, I, J)>::nth(step) {
            Some((a, b, c, d, e, f, g, h, i, j)) => exists|value: T, inner: Outcome|
                call_ensures(self.function(), (a, b, c, d, e, f, g, h, i, j), value)
                    && #[trigger] value.yields(step, inner)
                    && outcome == inner.with_arguments(seq![
                        a.text(),
                        b.text(),
                        c.text(),
                        d.text(),
                        e.text(),
                        f.text(),
                        g.text(),
                        h.text(),
                        i.text(),
                        j.text(),
                    ]),
            None => outcome == Outcome::from_bool(true),
        }
    }

    fn result<S: Cursor>(&self, s: &mut S) -> (r: TestResult) {
        proof {
            use_type_invariant(self);
        }
        let drawn: Option<(A, B, C, D, E, F, G, H, I, J)> = Serial::next(s);
        match drawn {
            Some((a, b, c, d, e, f, g, h, i, j)) => {
                let arguments: Vec<String> = vec![
                    a.render(),
                    b.render(),
                    c.render(),
                    d.render(),
                    e.render(),
                    f.render(),
                    g.render(),
                    h.render(),
                    i.render(),
                    j.render(),
                ];
                assert(texts(arguments@) =~= seq![
                    a.text(),
                    b.text(),
                    c.text(),
                    d.text(),
                    e.text(),
                    f.text(),
                    g.text(),
                    h.text(),
                    i.text(),
                    j.text(),
                ]);
                let value = (self.function)(a, b, c, d, e, f, g, h, i, j);
                let inner = value.result(s);
                inner.with_arguments(arguments)
            },
            None => TestResult::passed(),
        }
    }
}

/// A property of eleven arguments: a function from eleven enumerable values to a
/// testable value.
#[verifier::reject_recursive_types(A)]
#[verifier::reject_recursive_types(B)]
#[verifier::reject_recursive_types(C)]
#[verifier::reject_recursive_types(D)]
#[verifier::reject_recursive_types(E)]
#[verifier::reject_recursive_types(F)]
#[verifier::reject_recursive_types(G)]
#[verifier::reject_recursive_types(H)]
#[verifier::reject_recursive_types(I)]
#[verifier::reject_recursive_types(J)]
#[verifier::reject_recursive_types(K)]
#[verifier::reject_recursive_types(T)]
pub struct Property11<A, B, C, D, E, F, G, H, I, J, K, T, Fun> where
    A: Serial + Render,
    B: Serial + Render,
    C: Serial + Render,
    D: Serial + Render,
    E: Serial + Render,
    F: Serial + Render,
    G: Serial + Render,
    H: Serial + Render,
    I: Serial + Render,
    J: Serial + Render,
    K: Serial + Render,
    T: Testable,
    Fun: Fn(A, B, C, D, E, F, G, H, I, J, K) -> T,
 {
    function: Fun,
    signature: PhantomData<(A, B, C, D, E, F, G, H, I, J, K, T)>,
}

impl<A, B, C, D, E, F, G, H, I, J, K, T, Fun>
    Property11<A, B, C, D, E, F, G, H, I, J, K, T, Fun> where
    A: Serial + Render,
    B: Serial + Render,
    C: Serial + Render,
    D: Serial + Render,
    E: Serial + Render,
    F: Serial + Render,
    G: Serial + Render,
    H: Serial + Render,
    I: Serial + Render,
    J: Serial + Render,
    K: Serial + Render,
    T: Testable,
    Fun: Fn(A, B, C, D, E, F, G, H, I, J, K) -> T,
 {
    #[verifier::type_invariant]
    spec fn callable(&self) -> bool {
        forall|step: nat|
            (#[trigger] <(A, B, C, D, E, F, G, H, I, J, K)>::nth(step)) matches Some(args)
                ==> call_requires(self.function, args)
    }

    /// The function under test.
    pub closed spec fn function(&self) -> Fun {
        self.function
    }

    /// Wraps `function`, which must accept every tuple of arguments that the
    /// enumeration can draw.
    pub fn new(function: Fun) -> (property: Self)
        requires
            forall|step: nat|
                (#[trigger] <(A, B, C, D, E, F, G, H, I, J, K)>::nth(step)) matches Some(args)
                    ==> call_requires(function, args),
        ensures
            property.function() == function,
    {
        Property11 { function, signature: PhantomData }
    }

    /// Where the contract of the function leaves one result for given
    /// arguments, and that result allows one outcome at every step, the
    /// property allows one outcome at every step.
    pub proof fn function_determines_outcome(self)
        requires
            forall|
                a: A,
                b: B,
                c: C,
                d: D,
                e: E,
                f: F,
                g: G,
                h: H,
                i: I,
                j: J,
                k: K,
                first: T,
                second: T,
            |
                #![trigger
                    call_ensures(self.function(), (a, b, c, d, e, f, g, h, i, j, k), first),
                    call_ensures(self.function(), (a, b, c, d, e, f, g, h, i, j, k), second),
                ]
                call_ensures(self.function(), (a, b, c, d, e, f, g, h, i, j, k), first)
                    && call_ensures(self.function(), (a, b, c, d, e, f, g, h, i, j, k), second)
                    ==> first == second && deterministic(first),
        ensures
            deterministic(self),
    {
    }
}

impl<A, B, C, D, E, F, G, H, I, J, K, T, Fun> Testable
    for Property11<A, B, C, D, E, F, G, H, I, J, K, T, Fun> where
    A: Serial + Render,
    B: Serial + Render,
    C: Serial + Render,
    D: Serial + Render,
    E: Serial + Render,
    F: Serial + Render,
    G: Serial + Render,
    H: Serial + Render,
    I: Serial + Render,
    J: Serial + Render,
    K: Serial + Render,
    T: Testable,
    Fun: Fn(A, B, C, D, E, F, G, H, I, J, K) -> T,
 {
    open spec fn yields(&self, step: nat, outcome: Outcome) -> bool {
        match <(A, B, C, D, E, F, G, H, I, J, K)>::nth(step) {
            Some((a, b, c, d, e, f, g, h, i, j, k)) => exists|value: T, inner: Outcome|
                call_ensures(self.function(), (a, b, c, d, e, f, g, h, i, j, k), value)
                    && #[trigger] value.yields(step, inner)
                    && outcome == inner.with_arguments(seq![
                        a.text(),
                        b.text(),
                        c.text(),
                        d.text(),
                        e.text(),
                        f.text(),
                        g.text(),
                        h.text(),
                        i.text(),
                        j.text(),
                        k.text(),
                    ]),
            None => outcome == Outcome::from_bool(true),
        }
    }

    fn result<S: Cursor>(&self, s: &mut S) -> (r: TestResult) {
        proof {
            use_type_invariant(self);
        }
        let drawn: Option<(A, B, C, D, E, F, G, H, I, J, K)> = Serial::next(s);
        match drawn {
            Some((a, b, c, d, e, f, g, h, i, j, k)) => {
                let arguments: Vec<String> = vec![
                    a.render(),
                    b.render(),
                    c.render(),
                    d.render(),
                    e.render(),
                    f.render(),
                    g.render(),
                    h.render(),
                    i.render(),
                    j.render(),
                    k.render(),
                ];
                assert(texts(arguments@) =~= seq![
                    a.text(),
                    b.text(),
                    c.text(),
                    d.text(),
                    e.text(),
                    f.text(),
                    g.text(),
                    h.text(),
                    i.text(),
                    j.text(),
                    k.text(),
                ]);
                let value = (self.function)(a, b, c, d, e, f, g, h, i, j, k);
                let inner = value.result(s);
                inner.with_arguments(arguments)
            },
            None => TestResult::passed(),
        }
    }
}

/// A property of twelve arguments: a function from twelve enumerable values to a
/// testable value.
#[verifier::reject_recursive_types(A)]
#[verifier::reject_recursive_types(B)]
#[verifier::reject_recursive_types(C)]
#[verifier::reject_recursive_types(D)]
#[verifier::reject_recursive_types(E)]
#[verifier::reject_recursive_types(F)]
#[verifier::reject_recursive_types(G)]
#[verifier::reject_recursive_types(H)]
#[verifier::reject_recursive_types(I)]
#[verifier::reject_recursive_types(J)]
#[verifier::reject_recursive_types(K)]
#[verifier::reject_recursive_types(L)]
#[verifier::reject_recursive_types(T)]
pub struct Property12<A, B, C, D, E, F, G, H, I, J, K, L, T, Fun> where
    A: Serial + Render,
    B: Serial + Render,
    C: Serial + Render,
    D: Serial + Render,
    E: Serial + Render,
    F: Serial + Render,
    G: Serial + Render,
    H: Serial + Render,
    I: Serial + Render,
    J: Serial + Render,
    K: Serial + Render,
    L: Serial + Render,
    T: Testable,
    Fun: Fn(A, B, C, D, E, F, G, H, I, J, K, L) -> T,
 {
    function: Fun,
    signature: PhantomData<(A, B, C, D, E, F, G, H, I, J, K, L, T)>,
}

impl<A, B, C, D, E, F, G, H, I, J, K, L, T, Fun>
    Property12<A, B, C, D, E, F, G, H, I, J, K, L, T, Fun> where
    A: Serial + Render,
    B: Serial + Render,
    C: Serial + Render,
    D: Serial + Render,
    E: Serial + Render,
    F: Serial + Render,
    G: Serial + Render,
    H: Serial + Render,
    I: Serial + Render,
    J: Serial + Render,
    K: Serial + Render,
    L: Serial + Render,
    T: Testable,
    Fun: Fn(A, B, C, D, E, F, G, H, I, J, K, L) -> T,
 {
    #[verifier::type_invariant]
    spec fn callable(&self) -> bool {
        forall|step: nat|
            (#[trigger] <(A, B, C, D, E, F, G, H, I, J, K, L)>::nth(step)) matches Some(args)
                ==> call_requires(self.function, args)
    }

    /// The function under test.
    pub closed spec fn function(&self) -> Fun {
        self.function
    }

    /// Wraps `function`, which must accept every tuple of arguments that the
    /// enumeration can draw.
    pub fn new(function: Fun) -> (property: Self)
        requires
            forall|step: nat|
                (#[trigger] <(A, B, C, D, E, F, G, H, I, J, K, L)>::nth(step)) matches Some(args)
                    ==> call_requires(function, args),
        ensures
            property.function() == function,
    {
        Property12 { function, signature: PhantomData }
    }

    /// Where the contract of the function leaves one result for given
    /// arguments, and that result allows one outcome at every step, the
    /// property allows one outcome at every step.
    pub proof fn function_determines_outcome(self)
        requires
            forall|
                a: A,
                b: B,
                c: C,
                d: D,
                e: E,
                f: F,
                g: G,
                h: H,
                i: I,
                j: J,
                k: K,
                l: L,
                first: T,
                second: T,
            |
                #![trigger
                    call_ensures(self.function(), (a, b, c, d, e, f, g, h, i, j, k, l), first),
                    call_ensures(self.function(), (a, b, c, d, e, f, g, h, i, j, k, l), second),
                ]
                call_ensures(self.function(), (a, b, c, d, e, f, g, h, i, j, k, l), first)
                    && call_ensures(self.function(), (a, b, c, d, e, f, g, h, i, j, k, l), second)
                    ==> first == second && deterministic(first),
        ensures
            deterministic(self),
    {
    }
}

impl<A, B, C, D, E, F, G, H, I, J, K, L, T, Fun> Testable
    for Property12<A, B, C, D, E, F, G, H, I, J, K, L, T, Fun> where
    A: Serial + Render,
    B: Serial + Render,
    C: Serial + Render,
    D: Serial + Render,
    E: Serial + Render,
    F: Serial + Render,
    G: Serial + Render,
    H: Serial + Render,
    I: Serial + Render,
    J: Serial + Render,
    K: Serial + Render,
    L: Serial + Render,
    T: Testable,
    Fun: Fn(A, B, C, D, E, F, G, H, I, J, K, L) -> T,
 {
    open spec fn yields(&self, step: nat, outcome: Outcome) -> bool {
        match <(A, B, C, D, E, F, G, H, I, J, K, L)>::nth(step) {
            Some((a, b, c, d, e, f, g, h, i, j, k, l)) => exists|value: T, inner: Outcome|
                call_ensures(self.function(), (a, b, c, d, e, f, g, h, i, j, k, l), value)
                    && #[trigger] value.yields(step, inner)
                    && outcome == inner.with_arguments(seq![
                        a.text(),
                        b.text(),
                        c.text(),
                        d.text(),
                        e.text(),
                        f.text(),
                        g.text(),
                        h.text(),
                        i.text(),
                        j.text(),
                        k.text(),
                        l.text(),
                    ]),
            None => outcome == Outcome::from_bool(true),
        }
    }

    fn result<S: Cursor>(&self, s: &mut S) -> (r: TestResult) {
        proof {
            use_type_invariant(self);
        }
        let drawn: Option<(A, B, C, D, E, F, G, H, I, J, K, L)> = Serial::next(s);
        match drawn {
            Some((a, b, c, d, e, f, g, h, i, j, k, l)) => {
                let arguments: Vec<String> = vec![
                    a.render(),
                    b.render(),
                    c.render(),
                    d.render(),
                    e.render(),
                    f.render(),
                    g.render(),
                    h.render(),
                    i.render(),
                    j.render(),
                    k.render(),
                    l.render(),
                ];
                assert(texts(arguments@) =~= seq![
                    a.text(),
                    b.text(),
                    c.text(),
                    d.text(),
                    e.text(),
                    f.text(),
                    g.text(),
                    h.text(),
                    i.text(),
                    j.text(),
                    k.text(),
                    l.text(),
                ]);
                let value = (self.function)(a, b, c, d, e, f, g, h, i, j, k, l);
                let inner = value.result(s);
                inner.with_arguments(arguments)
            },
            None => TestResult::passed(),
        }
    }
}

} // verus!
