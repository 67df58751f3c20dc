//! The game's decisions: drawing the secret, and the read/parse/compare
//! cycle on one line of input.
//!
//! The surrounding binary owns the blocking I/O; everything it decides with
//! is computed here, on plain values.

use crate::guess::Guess;
use crate::guess::MAX_GUESS;
use crate::guess::MIN_GUESS;
use crate::parse::parse_line;
use crate::parse::parse_spec;
use vstd::prelude::*;

verus! {

/// How a guess compares to the secret.
#[derive(Clone, Copy, PartialEq, Eq, Structural, Debug)]
pub enum Outcome {
    /// The guess is below the secret.
    TooSmall,
    /// The guess is above the secret.
    TooBig,
    /// The guess equals the secret: the game is over.
    Win,
}

/// The outcome of holding a guessed value against the secret.
pub open spec fn outcome_of(guess: i32, secret: i32) -> Outcome {
    if guess < secret {
        Outcome::TooSmall
    } else if guess > secret {
        Outcome::TooBig
    } else {
        Outcome::Win
    }
}

impl Outcome {
    /// The line reported to the player for this outcome.
    pub fn message(&self) -> (r: &'static str)
        ensures
            *self is TooSmall ==> r@ == "Too small!"@,
            *self is TooBig ==> r@ == "Too big!"@,
            *self is Win ==> r@ == "You win!"@,
    {
        match self {
            Outcome::TooSmall => "Too small!",
            Outcome::TooBig => "Too big!",
            Outcome::Win => "You win!",
        }
    }

    /// Whether this outcome ends the game.
    pub fn is_win(&self) -> (r: bool)
        ensures
            r <==> *self is Win,
    {
        matches!(self, Outcome::Win)
    }
}

/// What one loop iteration does with a line of input.
#[derive(Clone, Copy, PartialEq, Eq, Structural, Debug)]
pub enum StepResult {
    /// The line did not parse as an integer: report and re-prompt.
    NotANumber,
    /// The line parsed, but the value lies outside the playing range: a
    /// broken invariant, fatal to the run.
    OutOfRange(i32),
    /// A validated guess, with how it compares to the secret.
    Guessed(Guess, Outcome),
}

impl StepResult {
    /// Whether the game ends after this step: only a winning guess is
    /// terminal; every other result re-enters the loop.
    pub fn is_terminal(&self) -> (r: bool)
        ensures
            r <==> (*self matches StepResult::Guessed(_, o) && o is Win),
    {
        matches!(self, StepResult::Guessed(_, Outcome::Win))
    }
}

/// How `guess` compares against `secret`.
pub fn compare(guess: &Guess, secret: &Guess) -> (r: Outcome)
    ensures
        r == outcome_of(guess.spec_value(), secret.spec_value()),
{
    let g = guess.value();
    let s = secret.value();
    if g < s {
        Outcome::TooSmall
    } else if g > s {
        Outcome::TooBig
    } else {
        Outcome::Win
    }
}

/// One iteration of the parse/validate/compare cycle, on an already-read
/// line. The secret is only read, never changed. The line is rejected
/// exactly when it is no numeral or overflows `i32`; a numeral outside the
/// playing range is the fatal out-of-range result; a numeral inside it
/// becomes a validated guess together with its outcome against the secret.
pub fn step(secret: &Guess, line: &[u8]) -> (r: StepResult)
    ensures
        match parse_spec(line@) {
            Option::None => r is NotANumber,
            Option::Some(v) => {
                if MIN_GUESS <= v <= MAX_GUESS {
                    r matches StepResult::Guessed(g, o) && g.wf() && g.spec_value() == v
                        && o == outcome_of(v, secret.spec_value())
                } else {
                    r == StepResult::OutOfRange(v)
                }
            },
        },
{
    match parse_line(line) {
        Option::None => StepResult::NotANumber,
        Option::Some(v) => match Guess::try_new(v) {
            Option::None => StepResult::OutOfRange(v),
            Option::Some(g) => {
                let o = compare(&g, secret);
                StepResult::Guessed(g, o)
            },
        },
    }
}

/// Relies on `rand::random_range`: returns a value drawn uniformly from the
/// given inclusive range. It panics on an empty range, which the
/// precondition rules out.
#[verifier::external_body]
fn random_in_range(lo: i32, hi: i32) -> (r: i32)
    requires
        lo <= hi,
    ensures
        lo <= r <= hi,
{
    rand::random_range(lo..=hi)
}

/// Draws the secret number for a run: a random value in the playing range.
/// Nothing beyond its bounds can be said of a random draw.
pub fn new_secret() -> (g: Guess)
    ensures
        g.wf(),
        MIN_GUESS <= g.spec_value() <= MAX_GUESS,
{
    let v = random_in_range(MIN_GUESS, MAX_GUESS);
    Guess::new(v)
}

} // verus!
