//! What a library crate offers its users.

use vstd::prelude::*;

pub use crate::functions::add;
pub use crate::functions::multiply;
pub use crate::modules::back_of_house;
pub use crate::modules::error_visibility as error_handling;
pub use crate::traits::Drawable;

verus! {

/// A function that comes with documentation.
pub fn public_function_with_docs() -> (text: String)
    ensures
        text@ == "这是一个有文档的函数"@,
{
    String::from_str("这是一个有文档的函数")
}

} // verus!
