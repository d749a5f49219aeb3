//! The iterator protocol as scripts see it: each step yields a value or ends.
use vstd::prelude::*;

verus! {

/// A source of values that a script iterates over.
pub trait JSIterator<V> {
    fn next_value(&mut self) -> Option<V>;
}

/// One step of an iteration: the value, and whether the iteration is over.
pub struct IteratorResult<V> {
    pub value: Option<V>,
    pub done: bool,
}

impl<V> IteratorResult<V> {
    /// The step for what the source yielded: done exactly when it yielded nothing.
    pub fn from_next(next: Option<V>) -> (r: IteratorResult<V>)
        ensures
            r.done == (next is None),
            r.value == next,
    {
        let done = next.is_none();
        IteratorResult { value: next, done }
    }
}

/// Takes one step of `iter`.
pub fn next_result<V, I: JSIterator<V>>(iter: &mut I) -> (r: IteratorResult<V>)
    ensures
        r.done == (r.value is None),
{
    IteratorResult::from_next(iter.next_value())
}

} // verus!
