//! A generic struct behind a module boundary.

use vstd::prelude::*;

verus! {

/// A struct around one value of any type.
pub struct GenericStruct<T> {
    pub value: T,
}

impl<T> GenericStruct<T> {
    /// Wraps a value.
    pub fn new(value: T) -> (s: GenericStruct<T>)
        ensures
            s.value == value,
    {
        GenericStruct { value }
    }

    /// The wrapped value.
    pub fn get_value(&self) -> (value: &T)
        ensures
            *value == self.value,
    {
        &self.value
    }
}

} // verus!
