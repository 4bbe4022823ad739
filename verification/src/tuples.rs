//! Tuples of enumerable values.
//!
//! A tuple is enumerated by stepping all of its components together: the
//! value of the tuple at a step is made of the values of its components at
//! that same step, and the tuple is exhausted as soon as one of its
//! components is. A tuple of three or more components is put together from
//! the tuple of all components but the last, and the last.
//!
//! Used as a cursor, a tuple counts with its first component.

use crate::serial::{Cursor, Serial};
use vstd::prelude::*;

verus! {

impl<A: Cursor> Cursor for (A,) {
    open spec fn steps(&self) -> nat {
        self.0.steps()
    }

    open spec fn span() -> nat {
        A::span()
    }

    fn position(&self) -> (step: u64) {
        self.0.position()
    }

    fn advance(&mut self) -> (moved: bool) {
        self.0.advance()
    }
}

impl<A: Serial> Serial for (A,) {
    open spec fn nth(step: nat) -> Option<Self> {
        match A::nth(step) {
            Some(a) => Some((a,)),
            None => None,
        }
    }

    proof fn enumeration_is_ordered(earlier: nat, later: nat) {
        A::enumeration_is_ordered(earlier, later);
    }

    proof fn enumeration_fits_cursor(step: nat) {
        A::enumeration_fits_cursor(step);
    }

    fn new() -> (origin: Self) {
        (A::new(),)
    }

    fn next<S: Cursor>(s: &mut S) -> (value: Option<Self>) {
        match A::next(s) {
            Some(a) => Some((a,)),
            None => None,
        }
    }
}

impl<A: Cursor, B> Cursor for (A, B) {
    open spec fn steps(&self) -> nat {
        self.0.steps()
    }

    open spec fn span() -> nat {
        A::span()
    }

    fn position(&self) -> (step: u64) {
        self.0.position()
    }

    fn advance(&mut self) -> (moved: bool) {
        self.0.advance()
    }
}

impl<A: Serial, B: Serial> Serial for (A, B) {
    open spec fn nth(step: nat) -> Option<Self> {
        match (A::nth(step), B::nth(step)) {
            (Some(a), Some(b)) => Some((a, b)),
            _ => None,
        }
    }

    proof fn enumeration_is_ordered(earlier: nat, later: nat) {
        A::enumeration_is_ordered(earlier, later);
        B::enumeration_is_ordered(earlier, later);
    }

    proof fn enumeration_fits_cursor(step: nat) {
        A::enumeration_fits_cursor(step);
    }

    fn new() -> (origin: Self) {
        (A::new(), B::new())
    }

    fn next<S: Cursor>(s: &mut S) -> (value: Option<Self>) {
        match (A::next(s), B::next(s)) {
            (Some(a), Some(b)) => Some((a, b)),
            _ => None,
        }
    }
}

impl<A: Cursor, B, C> Cursor for (A, B, C) {
    open spec fn steps(&self) -> nat {
        self.0.steps()
    }

    open spec fn span() -> nat {
        A::span()
    }

    fn position(&self) -> (step: u64) {
        self.0.position()
    }

    fn advance(&mut self) -> (moved: bool) {
        self.0.advance()
    }
}

impl<A: Serial, B: Serial, C: Serial> Serial for (A, B, C) {
    open spec fn nth(step: nat) -> Option<Self> {
        match (<(A, B)>::nth(step), C::nth(step)) {
            (Some((a, b)), Some(c)) => Some((a, b, c)),
            _ => None,
        }
    }

    proof fn enumeration_is_ordered(earlier: nat, later: nat) {
        <(A, B)>::enumeration_is_ordered(earlier, later);
        C::enumeration_is_ordered(earlier, later);
    }

    proof fn enumeration_fits_cursor(step: nat) {
        A::enumeration_fits_cursor(step);
    }

    fn new() -> (origin: Self) {
        let (a, b) = <(A, B)>::new();
        (a, b, C::new())
    }

    fn next<S: Cursor>(s: &mut S) -> (value: Option<Self>) {
        match (<(A, B)>::next(s), C::next(s)) {
            (Some((a, b)), Some(c)) => Some((a, b, c)),
            _ => None,
        }
    }
}

impl<A: Cursor, B, C, D> Cursor for (A, B, C, D) {
    open spec fn steps(&self) -> nat {
        self.0.steps()
    }

    open spec fn span() -> nat {
        A::span()
    }

    fn position(&self) -> (step: u64) {
        self.0.position()
    }

    fn advance(&mut self) -> (moved: bool) {
        self.0.advance()
    }
}

impl<A: Serial, B: Serial, C: Serial, D: Serial> Serial for (A, B, C, D) {
    open spec fn nth(step: nat) -> Option<Self> {
        match (<(A, B, C)>::nth(step), D::nth(step)) {
            (Some((a, b, c)), Some(d)) => Some((a, b, c, d)),
            _ => None,
        }
    }

    proof fn enumeration_is_ordered(earlier: nat, later: nat) {
        <(A, B, C)>::enumeration_is_ordered(earlier, later);
        D::enumeration_is_ordered(earlier, later);
    }

    proof fn enumeration_fits_cursor(step: nat) {
        A::enumeration_fits_cursor(step);
    }

    fn new() -> (origin: Self) {
        let (a, b, c) = <(A, B, C)>::new();
        (a, b, c, D::new())
    }

    fn next<S: Cursor>(s: &mut S) -> (value: Option<Self>) {
        match (<(A, B, C)>::next(s), D::next(s)) {
            (Some((a, b, c)), Some(d)) => Some((a, b, c, d)),
            _ => None,
        }
    }
}

impl<A: Cursor, B, C, D, E> Cursor for (A, B, C, D, E) {
    open spec fn steps(&self) -> nat {
        self.0.steps()
    }

    open spec fn span() -> nat {
        A::span()
    }

    fn position(&self) -> (step: u64) {
        self.0.position()
    }

    fn advance(&mut self) -> (moved: bool) {
        self.0.advance()
    }
}

impl<A: Serial, B: Serial, C: Serial, D: Serial, E: Serial> Serial for (A, B, C, D, E) {
    open spec fn nth(step: nat) -> Option<Self> {
        match (<(A, B, C, D)>::nth(step), E::nth(step)) {
            (Some((a, b, c, d)), Some(e)) => Some((a, b, c, d, e)),
            _ => None,
        }
    }

    proof fn enumeration_is_ordered(earlier: nat, later: nat) {
        <(A, B, C, D)>::enumeration_is_ordered(earlier, later);
        E::enumeration_is_ordered(earlier, later);
    }

    proof fn enumeration_fits_cursor(step: nat) {
        A::enumeration_fits_cursor(step);
    }

    fn new() -> (origin: Self) {
        let (a, b, c, d) = <(A, B, C, D)>::new();
        (a, b, c, d, E::new())
    }

    fn next<S: Cursor>(s: &mut S) -> (value: Option<Self>) {
        match (<(A, B, C, D)>::next(s), E::next(s)) {
            (Some((a, b, c, d)), Some(e)) => Some((a, b, c, d, e)),
            _ => None,
        }
    }
}

impl<A: Cursor, B, C, D, E, F> Cursor for (A, B, C, D, E, F) {
    open spec fn steps(&self) -> nat {
        self.0.steps()
    }

    open spec fn span() -> nat {
        A::span()
    }

    fn position(&self) -> (step: u64) {
        self.0.position()
    }

    fn advance(&mut self) -> (moved: bool) {
        self.0.advance()
    }
}

impl<A, B, C, D, E, F> Serial for (A, B, C, D, E, F) where
    A: Serial,
    B: Serial,
    C: Serial,
    D: Serial,
    E: Serial,
    F: Serial,
 {
    open spec fn nth(step: nat) -> Option<Self> {
        match (<(A, B, C, D, E)>::nth(step), F::nth(step)) {
            (Some((a, b, c, d, e)), Some(f)) => Some((a, b, c, d, e, f)),
            _ => None,
        }
    }

    proof fn enumeration_is_ordered(earlier: nat, later: nat) {
        <(A, B, C, D, E)>::enumeration_is_ordered(earlier, later);
        F::enumeration_is_ordered(earlier, later);
    }

    proof fn enumeration_fits_cursor(step: nat) {
        A::enumeration_fits_cursor(step);
    }

    fn new() -> (origin: Self) {
        let (a, b, c, d, e) = <(A, B, C, D, E)>::new();
        (a, b, c, d, e, F::new())
    }

    fn next<S: Cursor>(s: &mut S) -> (value: Option<Self>) {
        match (<(A, B, C, D, E)>::next(s), F::next(s)) {
            (Some((a, b, c, d, e)), Some(f)) => Some((a, b, c, d, e, f)),
            _ => None,
        }
    }
}

impl<A: Cursor, B, C, D, E, F, G> Cursor for (A, B, C, D, E, F, G) {
    open spec fn steps(&self) -> nat {
        self.0.steps()
    }

    open spec fn span() -> nat {
        A::span()
    }

    fn position(&self) -> (step: u64) {
        self.0.position()
    }

    fn advance(&mut self) -> (moved: bool) {
        self.0.advance()
    }
}

impl<A, B, C, D, E, F, G> Serial for (A, B, C, D, E, F, G) where
    A: Serial,
    B: Serial,
    C: Serial,
    D: Serial,
    E: Serial,
    F: Serial,
    G: Serial,
 {
    open spec fn nth(step: nat) -> Option<Self> {
        match (<(A, B, C, D, E, F)>::nth(step), G::nth(step)) {
            (Some((a, b, c, d, e, f)), Some(g)) => Some((a, b, c, d, e, f, g)),
            _ => None,
        }
    }

    proof fn enumeration_is_ordered(earlier: nat, later: nat) {
        <(A, B, C, D, E, F)>::enumeration_is_ordered(earlier, later);
        G::enumeration_is_ordered(earlier, later);
    }

    proof fn enumeration_fits_cursor(step: nat) {
        A::enumeration_fits_cursor(step);
    }

    fn new() -> (origin: Self) {
        let (a, b, c, d, e, f) = <(A, B, C, D, E, F)>::new();
        (a, b, c, d, e, f, G::new())
    }

    fn next<S: Cursor>(s: &mut S) -> (value: Option<Self>) {
        match (<(A, B, C, D, E, F)>::next(s), G::next(s)) {
            (Some((a, b, c, d, e, f)), Some(g)) => Some((a, b, c, d, e, f, g)),
            _ => None,
        }
    }
}

impl<A: Cursor, B, C, D, E, F, G, H> Cursor for (A, B, C, D, E, F, G, H) {
    open spec fn steps(&self) -> nat {
        self.0.steps()
    }

    open spec fn span() -> nat {
        A::span()
    }

    fn position(&self) -> (step: u64) {
        self.0.position()
    }

    fn advance(&mut self) -> (moved: bool) {
        self.0.advance()
    }
}

impl<A, B, C, D, E, F, G, H> Serial for (A, B, C, D, E, F, G, H) where
    A: Serial,
    B: Serial,
    C: Serial,
    D: Serial,
    E: Serial,
    F: Serial,
    G: Serial,
    H: Serial,
 {
    open spec fn nth(step: nat) -> Option<Self> {
        match (<(A, B, C, D, E, F, G)>::nth(step), H::nth(step)) {
            (Some((a, b, c, d, e, f, g)), Some(h)) => Some((a, b, c, d, e, f, g, h)),
            _ => None,
        }
    }

    proof fn enumeration_is_ordered(earlier: nat, later: nat) {
        <(A, B, C, D, E, F, G)>::enumeration_is_ordered(earlier, later);
        H::enumeration_is_ordered(earlier, later);
    }

    proof fn enumeration_fits_cursor(step: nat) {
        A::enumeration_fits_cursor(step);
    }

    fn new() -> (origin: Self) {
        let (a, b, c, d, e, f, g) = <(A, B, C, D, E, F, G)>::new();
        (a, b, c, d, e, f, g, H::new())
    }

    fn next<S: Cursor>(s: &mut S) -> (value: Option<Self>) {
        match (<(A, B, C, D, E, F, G)>::next(s), H::next(s)) {
            (Some((a, b, c, d, e, f, g)), Some(h)) => Some((a, b, c, d, e, f, g, h)),
            _ => None,
        }
    }
}

impl<A: Cursor, B, C, D, E, F, G, H, I> Cursor for (A, B, C, D, E, F, G, H, I) {
    open spec fn steps(&self) -> nat {
        self.0.steps()
    }

    open spec fn span() -> nat {
        A::span()
    }

    fn position(&self) -> (step: u64) {
        self.0.position()
    }

    fn advance(&mut self) -> (moved: bool) {
        self.0.advance()
    }
}

impl<A, B, C, D, E, F, G, H, I> Serial for (A, B, C, D, E, F, G, H, I) where
    A: Serial,
    B: Serial,
    C: Serial,
    D: Serial,
    E: Serial,
    F: Serial,
    G: Serial,
    H: Serial,
    I: Serial,
 {
    open spec fn nth(step: nat) -> Option<Self> {
        match (<(A, B, C, D, E, F, G, H)>::nth(step), I::nth(step)) {
            (Some((a, b, c, d, e, f, g, h)), Some(i)) => Some((a, b, c, d, e, f, g, h, i)),
            _ => None,
        }
    }

    proof fn enumeration_is_ordered(earlier: nat, later: nat) {
        <(A, B, C, D, E, F, G, H)>::enumeration_is_ordered(earlier, later);
        I::enumeration_is_ordered(earlier, later);
    }

    proof fn enumeration_fits_cursor(step: nat) {
        A::enumeration_fits_cursor(step);
    }

    fn new() -> (origin: Self) {
        let (a, b, c, d, e, f, g, h) = <(A, B, C, D, E, F, G, H)>::new();
        (a, b, c, d, e, f, g, h, I::new())
    }

    fn next<S: Cursor>(s: &mut S) -> (value: Option<Self>) {
        match (<(A, B, C, D, E, F, G, H)>::next(s), I::next(s)) {
            (Some((a, b, c, d, e, f, g, h)), Some(i)) => Some((a, b, c, d, e, f, g, h, i)),
            _ => None,
        }
    }
}

impl<A: Cursor, B, C, D, E, F, G, H, I, J> Cursor for (A, B, C, D, E, F, G, H, I, J) {
    open spec fn steps(&self) -> nat {
        self.0.steps()
    }

    open spec fn span() -> nat {
        A::span()
    }

    fn position(&self) -> (step: u64) {
        self.0.position()
    }

    fn advance(&mut self) -> (moved: bool) {
        self.0.advance()
    }
}

impl<A, B, C, D, E, F, G, H, I, J> Serial for (A, B, C, D, E, F, G, H, I, J) where
    A: Serial,
    B: Serial,
    C: Serial,
    D: Serial,
    E: Serial,
    F: Serial,
    G: Serial,
    H: Serial,
    I: Serial,
    J: Serial,
 {
    open spec fn nth(step: nat) -> Option<Self> {
        match (<(A, B, C, D, E, F, G, H, I)>::nth(step), J::nth(step)) {
            (Some((a, b, c, d, e, f, g, h, i)), Some(j)) => Some((a, b, c, d, e, f, g, h, i, j)),
            _ => None,
        }
    }

    proof fn enumeration_is_ordered(earlier: nat, later: nat) {
        <(A, B, C, D, E, F, G, H, I)>::enumeration_is_ordered(earlier, later);
        J::enumeration_is_ordered(earlier, later);
    }

    proof fn enumeration_fits_cursor(step: nat) {
        A::enumeration_fits_cursor(step);
    }

    fn new() -> (origin: Self) {
        let (a, b, c, d, e, f, g, h, i) = <(A, B, C, D, E, F, G, H, I)>::new();
        (a, b, c, d, e, f, g, h, i, J::new())
    }

    fn next<S: Cursor>(s: &mut S) -> (value: Option<Self>) {
        match (<(A, B, C, D, E, F, G, H, I)>::next(s), J::next(s)) {
            (Some((a, b, c, d, e, f, g, h, i)), Some(j)) => Some((a, b, c, d, e, f, g, h, i, j)),
            _ => None,
        }
    }
}

impl<A: Cursor, B, C, D, E, F, G, H, I, J, K> Cursor for (A, B, C, D, E, F, G, H, I, J, K) {
    open spec fn steps(&self) -> nat {
        self.0.steps()
    }

    open spec fn span() -> nat {
        A::span()
    }

    fn position(&self) -> (step: u64) {
        self.0.position()
    }

    fn advance(&mut self) -> (moved: bool) {
        self.0.advance()
    }
}

impl<A, B, C, D, E, F, G, H, I, J, K> Serial for (A, B, C, D, E, F, G, H, I, J, K) where
    A: Serial,
    B: Serial,
    C: Serial,
    D: Serial,
    E: Serial,
    F: Serial,
    G: Serial,
    H: Serial,
    I: Serial,
    J: Serial,
    K: Serial,
 {
    open spec fn nth(step: nat) -> Option<Self> {
        match (<(A, B, C, D, E, F, G, H, I, J)>::nth(step), K::nth(step)) {
            (Some((a, b, c, d, e, f, g, h, i, j)), Some(k)) => Some(
                (a, b, c, d, e, f, g, h, i, j, k),
            ),
            _ => None,
        }
    }

    proof fn enumeration_is_ordered(earlier: nat, later: nat) {
        <(A, B, C, D, E, F, G, H, I, J)>::enumeration_is_ordered(earlier, later);
        K::enumeration_is_ordered(earlier, later);
    }

    proof fn enumeration_fits_cursor(step: nat) {
        A::enumeration_fits_cursor(step);
    }

    fn new() -> (origin: Self) {
        let (a, b, c, d, e, f, g, h, i, j) = <(A, B, C, D, E, F, G, H, I, J)>::new();
        (a, b, c, d, e, f, g, h, i, j, K::new())
    }

    fn next<S: Cursor>(s: &mut S) -> (value: Option<Self>) {
        match (<(A, B, C, D, E, F, G, H, I, J)>::next(s), K::next(s)) {
            (Some((a, b, c, d, e, f, g, h, i, j)), Some(k)) => Some(
                (a, b, c, d, e, f, g, h, i, j, k),
            ),
            _ => None,
        }
    }
}

impl<A: Cursor, B, C, D, E, F, G, H, I, J, K, L> Cursor for (A, B, C, D, E, F, G, H, I, J, K, L) {
    open spec fn steps(&self) -> nat {
        self.0.steps()
    }

    open spec fn span() -> nat {
        A::span()
    }

    fn position(&self) -> (step: u64) {
        self.0.position()
    }

    fn advance(&mut self) -> (moved: bool) {
        self.0.advance()
    }
}

impl<A, B, C, D, E, F, G, H, I, J, K, L> Serial for (A, B, C, D, E, F, G, H, I, J, K, L) where
    A: Serial,
    B: Serial,
    C: Serial,
    D: Serial,
    E: Serial,
    F: Serial,
    G: Serial,
    H: Serial,
    I: Serial,
    J: Serial,
    K: Serial,
    L: Serial,
 {
    open spec fn nth(step: nat) -> Option<Self> {
        match (<(A, B, C, D, E, F, G, H, I, J, K)>::nth(step), L::nth(step)) {
            (Some((a, b, c, d, e, f, g, h, i, j, k)), Some(l)) => Some(
                (a, b, c, d, e, f, g, h, i, j, k, l),
            ),
            _ => None,
        }
    }

    proof fn enumeration_is_ordered(earlier: nat, later: nat) {
        <(A, B, C, D, E, F, G, H, I, J, K)>::enumeration_is_ordered(earlier, later);
        L::enumeration_is_ordered(earlier, later);
    }

    proof fn enumeration_fits_cursor(step: nat) {
        A::enumeration_fits_cursor(step);
    }

    fn new() -> (origin: Self) {
        let (a, b, c, d, e, f, g, h, i, j, k) = <(A, B, C, D, E, F, G, H, I, J, K)>::new();
        (a, b, c, d, e, f, g, h, i, j, k, L::new())
    }

    fn next<S: Cursor>(s: &mut S) -> (value: Option<Self>) {
        match (<(A, B, C, D, E, F, G, H, I, J, K)>::next(s), L::next(s)) {
            (Some((a, b, c, d, e, f, g, h, i, j, k)), Some(l)) => Some(
                (a, b, c, d, e, f, g, h, i, j, k, l),
            ),
            _ => None,
        }
    }
}

/// A pair is enumerated by stepping both of its components together: the
/// pair at a step is made of each component's own value at that step, and
/// the pair is exhausted exactly where either component is.
pub proof fn pairs_step_together<A: Serial, B: Serial>(step: nat)
    ensures
        <(A, B)>::nth(step) is Some <==> A::nth(step) is Some && B::nth(step) is Some,
        <(A, B)>::nth(step) is Some ==> <(A, B)>::nth(step) == Some(
            (A::nth(step).unwrap(), B::nth(step).unwrap()),
        ),
{
}

} // verus!
