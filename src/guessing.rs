//! A number-guessing game: a guess kept between 1 and 100, and the verdict on
//! a guess against the secret number.
use vstd::prelude::*;

verus! {

/// A number between 1 and 100.
pub struct Guess {
    value: u32,
}

impl Guess {
    /// The number guessed.
    pub closed spec fn spec_value(&self) -> u32 {
        self.value
    }

    /// A guess of `value`, which must lie between 1 and 100.
    pub fn new(value: u32) -> (r: Guess)
        requires
            1 <= value <= 100,
        ensures
            r.spec_value() == value,
    {
        Guess { value }
    }

    /// The number guessed.
    pub fn value(&self) -> (r: u32)
        ensures
            r == self.spec_value(),
    {
        self.value
    }
}

/// How a guess compares with the secret number.
pub enum Verdict {
    TooSmall,
    TooBig,
    Win,
}

/// The verdict on `guess` against `secret`.
pub fn judge(guess: u32, secret: u32) -> (r: Verdict)
    ensures
        guess < secret <==> r is TooSmall,
        guess > secret <==> r is TooBig,
        guess == secret <==> r is Win,
{
    if guess < secret {
        Verdict::TooSmall
    } else if guess > secret {
        Verdict::TooBig
    } else {
        Verdict::Win
    }
}

} // verus!
