//! A box of one's own: a value held in a one-field tuple struct.
use vstd::prelude::*;

verus! {

/// Holds one value.
pub struct MyBox<T>(pub T);

impl<T> MyBox<T> {
    /// A box holding `x`.
    pub fn new(x: T) -> (r: MyBox<T>)
        ensures
            r.0 == x,
    {
        MyBox(x)
    }
}

} // verus!
