//! A validated guess: an integer that is known to lie in the playing range
//! `1 ..= 100`.

use vstd::prelude::*;

verus! {

/// The lowest value a guess (or the secret) may take.
pub const MIN_GUESS: i32 = 1;

/// The highest value a guess (or the secret) may take.
pub const MAX_GUESS: i32 = 100;

/// A candidate integer submitted by the player, validated at construction
/// to lie within `MIN_GUESS ..= MAX_GUESS`, immutable afterwards.
#[derive(Clone, Copy, PartialEq, Eq, Structural, Debug)]
pub struct Guess {
    value: i32,
}

impl Guess {
    /// Every `Guess` holds a value in the playing range.
    pub closed spec fn wf(self) -> bool {
        MIN_GUESS <= self.value <= MAX_GUESS
    }

    /// The value this guess carries.
    pub closed spec fn spec_value(self) -> i32 {
        self.value
    }

    /// A well-formed guess always lies in the playing range.
    pub proof fn lemma_wf_bounds(self)
        requires
            self.wf(),
        ensures
            MIN_GUESS <= self.spec_value() <= MAX_GUESS,
    {
    }

    /// Constructs a guess from a value already known to be in range.
    /// Out-of-range values are ruled out by the precondition; `try_new`
    /// is the checked entry point for arbitrary integers.
    pub fn new(value: i32) -> (g: Guess)
        requires
            MIN_GUESS <= value <= MAX_GUESS,
        ensures
            g.wf(),
            g.spec_value() == value,
    {
        Guess { value }
    }

    /// Constructs a guess from an arbitrary integer: succeeds exactly on
    /// the values in `MIN_GUESS ..= MAX_GUESS`, and returns the validated
    /// guess carrying that value.
    pub fn try_new(value: i32) -> (r: Option<Guess>)
        ensures
            MIN_GUESS <= value <= MAX_GUESS ==> (r matches Some(g) && g.wf()
                && g.spec_value() == value),
            !(MIN_GUESS <= value <= MAX_GUESS) ==> r is None,
    {
        if MIN_GUESS <= value && value <= MAX_GUESS {
            Some(Guess { value })
        } else {
            None
        }
    }

    /// The value this guess was constructed from.
    pub fn value(&self) -> (v: i32)
        ensures
            v == self.spec_value(),
    {
        self.value
    }
}

} // verus!
