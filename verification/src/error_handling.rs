//! Failure as a value: results and the errors they carry.

use vstd::prelude::*;

verus! {

/// Why a division was refused.
#[derive(Debug, PartialEq, Eq, Structural)]
pub enum CustomError {
    DivisionByZero,
    NegativeNumber,
    Overflow,
}

impl CustomError {
    /// The message that goes with the error.
    pub fn message(&self) -> (text: &'static str)
        ensures
            text@ == match self {
                CustomError::DivisionByZero => "除零错误"@,
                CustomError::NegativeNumber => "负数错误"@,
                CustomError::Overflow => "溢出错误"@,
            },
    {
        match self {
            CustomError::DivisionByZero => "除零错误",
            CustomError::NegativeNumber => "负数错误",
            CustomError::Overflow => "溢出错误",
        }
    }
}

/// The quotient of a dividend that is not negative: the one whole number `q`
/// for which `a - b * q` lies from zero up to, and not including, the size
/// of `b`. For such a dividend this is the quotient rounded towards zero.
pub open spec fn quotient(a: int, b: int) -> int
    recommends
        a >= 0,
        b != 0,
{
    a / b
}

/// Divides a number that is not negative by one that is not zero. A zero
/// divisor is refused first, a negative dividend second.
pub fn divide(a: i32, b: i32) -> (r: Result<i32, CustomError>)
    ensures
        b == 0 ==> r == Err::<i32, CustomError>(CustomError::DivisionByZero),
        b != 0 && a < 0 ==> r == Err::<i32, CustomError>(CustomError::NegativeNumber),
        b != 0 && a >= 0 ==> (r matches Ok(q) && q == quotient(a as int, b as int)),
{
    if b == 0 {
        Err(CustomError::DivisionByZero)
    } else if a < 0 {
        Err(CustomError::NegativeNumber)
    } else {
        assert(-a <= (a as int) / (b as int) <= a) by (nonlinear_arith)
            requires
                a >= 0,
                b != 0,
        ;
        Ok(a / b)
    }
}

} // verus!
