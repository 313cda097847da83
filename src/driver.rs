//! The decisions of the driving loop, which runs one computation to completion
//! on the calling thread: after each progress attempt it either returns the
//! value or parks until woken, and after each wake it attempts again.
use vstd::prelude::*;
use crate::cell::Outcome;

verus! {

/// What the loop does after a progress attempt.
pub enum Step<T> {
    /// Block until the notifier fires, then attempt again.
    Park,
    /// Return this value; the loop ends.
    Finish(T),
}

/// The loop's bookkeeping: how many progress attempts it made, how many times
/// it was woken from parking, and whether it has its value.
pub struct DriverState {
    pub attempts: nat,
    pub wakes: nat,
    pub finished: bool,
}

impl DriverState {
    /// The loop is to attempt progress next.
    pub open spec fn awaiting_attempt(self) -> bool {
        !self.finished && self.attempts == self.wakes
    }

    /// The loop is parked and waits to be woken.
    pub open spec fn awaiting_wake(self) -> bool {
        !self.finished && self.attempts == self.wakes + 1
    }
}

/// The state of one run of the driving loop. It alternates progress attempts
/// and wakes, starting with an attempt, so every attempt after the first is
/// paid for by one wake, spurious or not.
pub struct Driver {
    attempts: u64,
    wakes: u64,
    finished: bool,
}

impl View for Driver {
    type V = DriverState;

    closed spec fn view(&self) -> DriverState {
        DriverState { attempts: self.attempts as nat, wakes: self.wakes as nat, finished: self.finished }
    }
}

impl Driver {
    #[verifier::type_invariant]
    spec fn inv(&self) -> bool {
        &&& self.wakes <= self.attempts <= self.wakes + 1
        &&& self.finished ==> self.attempts == self.wakes + 1
    }

    /// A loop that has not attempted anything yet.
    pub fn new() -> (r: Driver)
        ensures
            r@ == (DriverState { attempts: 0, wakes: 0, finished: false }),
            r@.awaiting_attempt(),
    {
        Driver { attempts: 0, wakes: 0, finished: false }
    }

    /// Whether `on_outcome` may be called now.
    pub fn can_attempt(&self) -> (r: bool)
        ensures
            r == (self@.awaiting_attempt() && self@.attempts < u64::MAX),
    {
        !self.finished && self.attempts == self.wakes && self.attempts < u64::MAX
    }

    /// Whether `on_wake` may be called now.
    pub fn can_wake(&self) -> (r: bool)
        ensures
            r == self@.awaiting_wake(),
    {
        proof {
            use_type_invariant(self);
        }
        !self.finished && self.attempts > self.wakes
    }

    /// Records the outcome of a progress attempt and says what to do next:
    /// return the value when it is done, park otherwise.
    pub fn on_outcome<T>(&mut self, outcome: Outcome<T>) -> (r: Step<T>)
        requires
            old(self)@.awaiting_attempt(),
            old(self)@.attempts < u64::MAX,
        ensures
            final(self)@.attempts == old(self)@.attempts + 1,
            final(self)@.wakes == old(self)@.wakes,
            final(self)@.finished == (outcome is Done),
            final(self)@.attempts <= final(self)@.wakes + 1,
            match outcome {
                Outcome::Done(v) => r == Step::Finish(v),
                Outcome::NotReady => r is Park,
            },
    {
        self.attempts = self.attempts + 1;
        match outcome {
            Outcome::Done(v) => {
                self.finished = true;
                Step::Finish(v)
            },
            Outcome::NotReady => Step::Park,
        }
    }

    /// Records that the parked loop was woken; it attempts progress next.
    pub fn on_wake(&mut self)
        requires
            old(self)@.awaiting_wake(),
        ensures
            final(self)@ == (DriverState {
                attempts: old(self)@.attempts,
                wakes: old(self)@.wakes + 1,
                finished: false,
            }),
            final(self)@.awaiting_attempt(),
            final(self)@.attempts <= final(self)@.wakes + 1,
    {
        self.wakes = self.wakes + 1;
    }
}

} // verus!
