//! An error type and a function that returns it.

use vstd::prelude::*;

verus! {

/// Why data could not be processed.
#[derive(Debug, PartialEq, Eq, Structural)]
pub enum CustomError {
    NotFound,
    InvalidInput,
}

impl CustomError {
    /// The message that goes with the error.
    pub fn message(&self) -> (text: &'static str)
        ensures
            text@ == match self {
                CustomError::NotFound => "未找到"@,
                CustomError::InvalidInput => "无效输入"@,
            },
    {
        match self {
            CustomError::NotFound => "未找到",
            CustomError::InvalidInput => "无效输入",
        }
    }
}

/// The upper-case form of a text, as the standard library maps it.
pub uninterp spec fn uppercase(text: Seq<char>) -> Seq<char>;

/// Calls `str::to_uppercase`. The contract gives the result the name
/// [`uppercase`] and claims nothing else of it.
#[verifier::external_body]
fn to_uppercase(text: &str) -> (upper: String)
    ensures
        upper@ == uppercase(text@),
{
    text.to_uppercase()
}

/// Turns data into upper case. Empty data is refused as invalid input.
pub fn process_data(data: &str) -> (r: Result<String, CustomError>)
    ensures
        data@.len() == 0 ==> r == Err::<String, CustomError>(CustomError::InvalidInput),
        data@.len() != 0 ==> (r matches Ok(upper) && upper@ == uppercase(data@)),
{
    if data.is_empty() {
        Err(CustomError::InvalidInput)
    } else {
        Ok(to_uppercase(data))
    }
}

} // verus!
