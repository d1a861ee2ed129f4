//! A trait with one method that every type writes and one that it inherits.

use vstd::prelude::*;

verus! {

/// A trait with a required and a provided method. Each returns the line
/// that it stands for.
pub trait PublicTrait {
    /// The line of the type's own method.
    fn public_method(&self) -> (line: String);

    /// The line of the provided method.
    fn default_method(&self) -> (line: String)
        default_ensures
            line@ == "默认方法"@,
    {
        String::from_str("默认方法")
    }
}

/// A type without fields that implements the trait.
pub struct PublicStruct;

impl PublicTrait for PublicStruct {
    fn public_method(&self) -> (line: String)
        ensures
            line@ == "实现公共方法"@,
    {
        String::from_str("实现公共方法")
    }
}

} // verus!
