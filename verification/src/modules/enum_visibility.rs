//! An enum: all of its variants are as open as the enum itself.

use vstd::prelude::*;

verus! {

/// An enum with two variants.
pub enum PublicEnum {
    Variant1,
    Variant2,
}

impl PublicEnum {
    /// The first variant.
    pub fn new_variant1() -> (e: PublicEnum)
        ensures
            e is Variant1,
    {
        PublicEnum::Variant1
    }

    /// The second variant.
    pub fn new_variant2() -> (e: PublicEnum)
        ensures
            e is Variant2,
    {
        PublicEnum::Variant2
    }
}

} // verus!
