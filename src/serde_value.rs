//! A wrapper that marks a value to be carried to and from the host through
//! a serialization format.
use vstd::prelude::*;

verus! {

pub struct ByondSerde<T>(pub T);

impl<T> ByondSerde<T> {
    pub fn new(value: T) -> (r: ByondSerde<T>)
        ensures
            r.0 == value,
    {
        ByondSerde(value)
    }

    pub fn into_inner(self) -> (r: T)
        ensures
            r == self.0,
    {
        self.0
    }

    /// The wrapped value.
    pub fn inner(&self) -> (r: &T)
        ensures
            *r == self.0,
    {
        &self.0
    }
}

} // verus!
