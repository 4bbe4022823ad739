//! Enumerable values and the cursors that drive their enumeration.
//!
//! A [`Serial`] type lists its values in a fixed order, smallest first. The
//! enumeration is never walked by the type itself: a [`Cursor`] counts the
//! steps taken so far, and every type reads its next value off that shared
//! count. Several types can therefore be stepped together by one cursor.

use vstd::prelude::*;

verus! {

/// The progress of one enumeration: a count of the steps taken so far.
///
/// A cursor starts at step `0` and is moved one step at a time. A cursor type
/// can only stand at the steps below its [`span`](Cursor::span).
pub trait Cursor: Sized {
    /// How many steps this cursor has taken.
    spec fn steps(&self) -> nat;

    /// The number of steps at which a cursor of this type can stand.
    spec fn span() -> nat;

    /// Reads the number of steps taken so far.
    fn position(&self) -> (step: u64)
        ensures
            step == self.steps(),
    ;

    /// Moves the cursor one step on. Returns `false`, and leaves the cursor as
    /// it was, when the type cannot stand at the following step.
    fn advance(&mut self) -> (moved: bool)
        ensures
            moved == (old(self).steps() + 1 < Self::span()),
            moved ==> final(self).steps() == old(self).steps() + 1,
            !moved ==> *final(self) == *old(self),
    ;
}

/// An ordered enumeration over a type. The implementor decides what "small"
/// means: the value at step `0` is the smallest, and every further step
/// yields a value not seen before, until the type runs out of values.
///
/// Every enumerable type can also serve as the cursor of a search, which is
/// why `Serial` extends [`Cursor`].
pub trait Serial: Cursor {
    /// The value of the enumeration at the given step, or `None` once the
    /// enumeration is exhausted.
    spec fn nth(step: nat) -> Option<Self>;

    /// The enumeration has no gaps and no repetitions: every step before a
    /// step that yields a value yields a value too, and a different one.
    proof fn enumeration_is_ordered(earlier: nat, later: nat)
        ensures
            earlier < later && Self::nth(later) is Some ==> Self::nth(earlier) is Some
                && Self::nth(earlier) != Self::nth(later),
    ;

    /// A cursor of this type can stand at every step at which the type has a
    /// value.
    proof fn enumeration_fits_cursor(step: nat)
        ensures
            Self::nth(step) is Some ==> step < Self::span(),
    ;

    /// A fresh cursor, which is also the smallest value of the type where the
    /// type has any value.
    fn new() -> (origin: Self)
        ensures
            origin.steps() == 0,
            Self::nth(0) is Some ==> Self::nth(0) == Some(origin),
    ;

    /// The value of this type at the step where the cursor `s` stands, or
    /// `None` if the enumeration is exhausted there. The cursor is only read.
    fn next<S: Cursor>(s: &mut S) -> (value: Option<Self>)
        ensures
            value == Self::nth(old(s).steps()),
            *final(s) == *old(s),
    ;
}

impl Cursor for () {
    open spec fn steps(&self) -> nat {
        0
    }

    open spec fn span() -> nat {
        1
    }

    fn position(&self) -> (step: u64) {
        0
    }

    fn advance(&mut self) -> (moved: bool) {
        false
    }
}

/// The empty tuple has nothing to enumerate: it is exhausted from the first
/// step on.
impl Serial for () {
    open spec fn nth(step: nat) -> Option<Self> {
        None
    }

    proof fn enumeration_is_ordered(earlier: nat, later: nat) {
    }

    proof fn enumeration_fits_cursor(step: nat) {
    }

    fn new() -> (origin: Self) {
        ()
    }

    fn next<S: Cursor>(s: &mut S) -> (value: Option<Self>) {
        None
    }
}

impl Cursor for bool {
    open spec fn steps(&self) -> nat {
        if *self {
            1
        } else {
            0
        }
    }

    open spec fn span() -> nat {
        2
    }

    fn position(&self) -> (step: u64) {
        if *self {
            1
        } else {
            0
        }
    }

    fn advance(&mut self) -> (moved: bool) {
        if *self {
            false
        } else {
            *self = true;
            true
        }
    }
}

/// `false` comes first, then `true`.
impl Serial for bool {
    open spec fn nth(step: nat) -> Option<Self> {
        if step == 0 {
            Some(false)
        } else if step == 1 {
            Some(true)
        } else {
            None
        }
    }

    proof fn enumeration_is_ordered(earlier: nat, later: nat) {
    }

    proof fn enumeration_fits_cursor(step: nat) {
    }

    fn new() -> (origin: Self) {
        false
    }

    fn next<S: Cursor>(s: &mut S) -> (value: Option<Self>) {
        let step: u64 = s.position();
        if step == 0 {
            Some(false)
        } else if step == 1 {
            Some(true)
        } else {
            None
        }
    }
}

impl Cursor for u8 {
    open spec fn steps(&self) -> nat {
        *self as nat
    }

    open spec fn span() -> nat {
        (u8::MAX + 1) as nat
    }

    fn position(&self) -> (step: u64) {
        *self as u64
    }

    fn advance(&mut self) -> (moved: bool) {
        if *self < u8::MAX {
            *self = *self + 1;
            true
        } else {
            false
        }
    }
}

/// Step `n` yields the number `n`, up to `u8::MAX`.
impl Serial for u8 {
    open spec fn nth(step: nat) -> Option<Self> {
        if step <= u8::MAX {
            Some(step as u8)
        } else {
            None
        }
    }

    proof fn enumeration_is_ordered(earlier: nat, later: nat) {
    }

    proof fn enumeration_fits_cursor(step: nat) {
    }

    fn new() -> (origin: Self) {
        0
    }

    fn next<S: Cursor>(s: &mut S) -> (value: Option<Self>) {
        let step: u64 = s.position();
        if step <= u8::MAX as u64 {
            Some(step as u8)
        } else {
            None
        }
    }
}

impl Cursor for u16 {
    open spec fn steps(&self) -> nat {
        *self as nat
    }

    open spec fn span() -> nat {
        (u16::MAX + 1) as nat
    }

    fn position(&self) -> (step: u64) {
        *self as u64
    }

    fn advance(&mut self) -> (moved: bool) {
        if *self < u16::MAX {
            *self = *self + 1;
            true
        } else {
            false
        }
    }
}

/// Step `n` yields the number `n`, up to `u16::MAX`.
impl Serial for u16 {
    open spec fn nth(step: nat) -> Option<Self> {
        if step <= u16::MAX {
            Some(step as u16)
        } else {
            None
        }
    }

    proof fn enumeration_is_ordered(earlier: nat, later: nat) {
    }

    proof fn enumeration_fits_cursor(step: nat) {
    }

    fn new() -> (origin: Self) {
        0
    }

    fn next<S: Cursor>(s: &mut S) -> (value: Option<Self>) {
        let step: u64 = s.position();
        if step <= u16::MAX as u64 {
            Some(step as u16)
        } else {
            None
        }
    }
}

impl Cursor for u32 {
    open spec fn steps(&self) -> nat {
        *self as nat
    }

    open spec fn span() -> nat {
        (u32::MAX + 1) as nat
    }

    fn position(&self) -> (step: u64) {
        *self as u64
    }

    fn advance(&mut self) -> (moved: bool) {
        if *self < u32::MAX {
            *self = *self + 1;
            true
        } else {
            false
        }
    }
}

/// Step `n` yields the number `n`, up to `u32::MAX`.
impl Serial for u32 {
    open spec fn nth(step: nat) -> Option<Self> {
        if step <= u32::MAX {
            Some(step as u32)
        } else {
            None
        }
    }

    proof fn enumeration_is_ordered(earlier: nat, later: nat) {
    }

    proof fn enumeration_fits_cursor(step: nat) {
    }

    fn new() -> (origin: Self) {
        0
    }

    fn next<S: Cursor>(s: &mut S) -> (value: Option<Self>) {
        let step: u64 = s.position();
        if step <= u32::MAX as u64 {
            Some(step as u32)
        } else {
            None
        }
    }
}

impl Cursor for u64 {
    open spec fn steps(&self) -> nat {
        *self as nat
    }

    open spec fn span() -> nat {
        (u64::MAX + 1) as nat
    }

    fn position(&self) -> (step: u64) {
        *self as u64
    }

    fn advance(&mut self) -> (moved: bool) {
        if *self < u64::MAX {
            *self = *self + 1;
            true
        } else {
            false
        }
    }
}

/// Step `n` yields the number `n`, up to `u64::MAX`.
impl Serial for u64 {
    open spec fn nth(step: nat) -> Option<Self> {
        if step <= u64::MAX {
            Some(step as u64)
        } else {
            None
        }
    }

    proof fn enumeration_is_ordered(earlier: nat, later: nat) {
    }

    proof fn enumeration_fits_cursor(step: nat) {
    }

    fn new() -> (origin: Self) {
        0
    }

    fn next<S: Cursor>(s: &mut S) -> (value: Option<Self>) {
        Some(s.position())
    }
}

impl Cursor for usize {
    open spec fn steps(&self) -> nat {
        *self as nat
    }

    open spec fn span() -> nat {
        (usize::MAX + 1) as nat
    }

    fn position(&self) -> (step: u64) {
        *self as u64
    }

    fn advance(&mut self) -> (moved: bool) {
        if *self < usize::MAX {
            *self = *self + 1;
            true
        } else {
            false
        }
    }
}

/// Step `n` yields the number `n`, up to `usize::MAX`.
impl Serial for usize {
    open spec fn nth(step: nat) -> Option<Self> {
        if step <= usize::MAX {
            Some(step as usize)
        } else {
            None
        }
    }

    proof fn enumeration_is_ordered(earlier: nat, later: nat) {
    }

    proof fn enumeration_fits_cursor(step: nat) {
    }

    fn new() -> (origin: Self) {
        0
    }

    fn next<S: Cursor>(s: &mut S) -> (value: Option<Self>) {
        let step: u64 = s.position();
        if step <= usize::MAX as u64 {
            Some(step as usize)
        } else {
            None
        }
    }
}

/// Stepping through `u8` counts upwards from zero: every step yields its own
/// number, so every number is reached once, smaller numbers first, and past
/// `u8::MAX` the enumeration is exhausted.
pub proof fn u8_counts_upwards(earlier: nat, later: nat)
    ensures
        later <= u8::MAX ==> u8::nth(later) == Some(later as u8),
        later > u8::MAX ==> u8::nth(later) is None,
        earlier < later <= u8::MAX ==> u8::nth(earlier).unwrap() < u8::nth(later).unwrap(),
{
}

/// Stepping through `u16` counts upwards from zero: every step yields its own
/// number, so every number is reached once, smaller numbers first, and past
/// `u16::MAX` the enumeration is exhausted.
pub proof fn u16_counts_upwards(earlier: nat, later: nat)
    ensures
        later <= u16::MAX ==> u16::nth(later) == Some(later as u16),
        later > u16::MAX ==> u16::nth(later) is None,
        earlier < later <= u16::MAX ==> u16::nth(earlier).unwrap() < u16::nth(later).unwrap(),
{
}

/// Stepping through `u32` counts upwards from zero: every step yields its own
/// number, so every number is reached once, smaller numbers first, and past
/// `u32::MAX` the enumeration is exhausted.
pub proof fn u32_counts_upwards(earlier: nat, later: nat)
    ensures
        later <= u32::MAX ==> u32::nth(later) == Some(later as u32),
        later > u32::MAX ==> u32::nth(later) is None,
        earlier < later <= u32::MAX ==> u32::nth(earlier).unwrap() < u32::nth(later).unwrap(),
{
}

/// Stepping through `u64` counts upwards from zero: every step yields its own
/// number, so every number is reached once, smaller numbers first, and past
/// `u64::MAX` the enumeration is exhausted.
pub proof fn u64_counts_upwards(earlier: nat, later: nat)
    ensures
        later <= u64::MAX ==> u64::nth(later) == Some(later as u64),
        later > u64::MAX ==> u64::nth(later) is None,
        earlier < later <= u64::MAX ==> u64::nth(earlier).unwrap() < u64::nth(later).unwrap(),
{
}

/// Stepping through `usize` counts upwards from zero: every step yields its own
/// number, so every number is reached once, smaller numbers first, and past
/// `usize::MAX` the enumeration is exhausted.
pub proof fn usize_counts_upwards(earlier: nat, later: nat)
    ensures
        later <= usize::MAX ==> usize::nth(later) == Some(later as usize),
        later > usize::MAX ==> usize::nth(later) is None,
        earlier < later <= usize::MAX ==> usize::nth(earlier).unwrap() < usize::nth(later).unwrap(),
{
}

} // verus!
