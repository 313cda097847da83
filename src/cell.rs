//! The shared completion cell: the state that a background worker and the
//! suspended computation wrapping it hold together. The worker writes one value;
//! the computation polls for it and leaves a notifier behind while it waits.
use vstd::prelude::*;

verus! {

/// What one attempt to make progress reports.
pub enum Outcome<T> {
    /// The value is not there yet; the notifier handed in will be invoked later.
    NotReady,
    /// The final value.
    Done(T),
}

/// Where a cell's value is in its life.
pub enum Phase<T> {
    /// The worker has not written its value yet.
    Pending,
    /// The value is written and waits to be taken.
    Ready(T),
    /// The value was handed to a poller; the cell is spent.
    Delivered,
}

/// The abstract state of a completion cell: its value's phase and the notifier
/// of the most recent poller that found no value.
pub struct CellState<T, N> {
    pub phase: Phase<T>,
    pub notifier: Option<N>,
}

/// The state of a cell that was just created.
pub open spec fn fresh<T, N>() -> CellState<T, N> {
    CellState { phase: Phase::Pending, notifier: None }
}

/// One progress attempt with notifier `n`: a written value is moved out and
/// returned; otherwise `n` replaces any earlier notifier.
pub open spec fn poll_step<T, N>(s: CellState<T, N>, n: N) -> (CellState<T, N>, Outcome<T>) {
    match s.phase {
        Phase::Ready(v) => (CellState { phase: Phase::Delivered, notifier: s.notifier }, Outcome::Done(v)),
        _ => (CellState { phase: s.phase, notifier: Some(n) }, Outcome::NotReady),
    }
}

/// The worker's publication of `v`: the value is stored and the registered
/// notifier, if any, is taken out to be invoked.
pub open spec fn complete_step<T, N>(s: CellState<T, N>, v: T) -> (CellState<T, N>, Option<N>) {
    (CellState { phase: Phase::Ready(v), notifier: None }, s.notifier)
}

/// A cell holding at most one eventual value and at most one notifier.
pub struct CompletionCell<T, N> {
    value: Option<T>,
    pending_notifier: Option<N>,
    delivered: bool,
}

impl<T, N> View for CompletionCell<T, N> {
    type V = CellState<T, N>;

    closed spec fn view(&self) -> CellState<T, N> {
        CellState {
            phase: if self.delivered {
                Phase::Delivered
            } else {
                match self.value {
                    Some(v) => Phase::Ready(v),
                    None => Phase::Pending,
                }
            },
            notifier: self.pending_notifier,
        }
    }
}

impl<T, N> CompletionCell<T, N> {
    /// An empty cell: no value, no notifier.
    pub fn new() -> (r: Self)
        ensures
            r@ == fresh::<T, N>(),
    {
        CompletionCell { value: None, pending_notifier: None, delivered: false }
    }

    /// Takes the value if it is there; otherwise registers `notifier` as the one
    /// to wake, replacing any earlier one. Once the value was taken the cell must
    /// not be polled again.
    pub fn attempt_progress(&mut self, notifier: N) -> (r: Outcome<T>)
        requires
            !(old(self)@.phase is Delivered),
        ensures
            (final(self)@, r) == poll_step(old(self)@, notifier),
    {
        match self.value.take() {
            Some(v) => {
                self.delivered = true;
                Outcome::Done(v)
            },
            None => {
                self.pending_notifier = Some(notifier);
                Outcome::NotReady
            },
        }
    }

    /// Stores the worker's value and hands back the notifier to invoke, if a
    /// poller left one. The value is written once, while the cell is pending.
    pub fn complete(&mut self, value: T) -> (r: Option<N>)
        requires
            old(self)@.phase is Pending,
        ensures
            (final(self)@, r) == complete_step(old(self)@, value),
    {
        self.value = Some(value);
        self.pending_notifier.take()
    }

    /// Whether the worker has not written its value yet.
    pub fn is_pending(&self) -> (r: bool)
        ensures
            r == (self@.phase is Pending),
    {
        !self.delivered && self.value.is_none()
    }

    /// Whether the value was already handed to a poller.
    pub fn is_delivered(&self) -> (r: bool)
        ensures
            r == (self@.phase is Delivered),
    {
        self.delivered
    }
}

} // verus!
