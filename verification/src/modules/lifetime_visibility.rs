//! A struct that borrows its text, behind a module boundary.

use vstd::prelude::*;

verus! {

/// A struct around a borrowed text.
pub struct LifetimeStruct<'a> {
    pub value: &'a str,
}

impl<'a> LifetimeStruct<'a> {
    /// Wraps a borrowed text.
    pub fn new(value: &'a str) -> (s: LifetimeStruct<'a>)
        ensures
            s.value == value,
    {
        LifetimeStruct { value }
    }

    /// The borrowed text, for as long as the text itself lives.
    pub fn get_value(&self) -> (value: &'a str)
        ensures
            value == self.value,
    {
        self.value
    }
}

} // verus!
