//! The smallest library there is: one function.

use vstd::prelude::*;

verus! {

/// Adds two numbers.
pub fn add(left: usize, right: usize) -> (sum: usize)
    requires
        left + right <= usize::MAX,
    ensures
        sum == left + right,
{
    left + right
}

} // verus!
