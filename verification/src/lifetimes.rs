//! References and how long they live.

use vstd::prelude::*;
use vstd::string::*;

verus! {

/// The longer of two strings by their length in bytes; the second where
/// they are equally long.
pub fn longest<'a>(x: &'a str, y: &'a str) -> (r: &'a str)
    ensures
        r == if x.spec_bytes().len() > y.spec_bytes().len() {
            x
        } else {
            y
        },
{
    if x.as_bytes().len() > y.as_bytes().len() {
        x
    } else {
        y
    }
}

/// An excerpt that borrows its text.
#[derive(Debug)]
pub struct ImportantExcerpt<'a> {
    pub part: &'a str,
}

impl<'a> ImportantExcerpt<'a> {
    /// The level of importance, which is always three.
    pub fn level(&self) -> (level: i32)
        ensures
            level == 3,
    {
        3
    }

    /// The borrowed text.
    pub fn announce_and_return_part(&self) -> (part: &str)
        ensures
            part == self.part,
    {
        self.part
    }
}

/// A text that lives as long as the program.
pub fn string_literal() -> (text: &'static str)
    ensures
        text@ == "I have a static lifetime."@,
{
    "I have a static lifetime."
}

/// A point that borrows both coordinates.
pub struct Point<'a, T> {
    pub x: &'a T,
    pub y: &'a T,
}

impl<'a, T> Point<'a, T> {
    /// The point with the two borrowed coordinates.
    pub fn new(x: &'a T, y: &'a T) -> (p: Point<'a, T>)
        ensures
            p.x == x,
            p.y == y,
    {
        Point { x, y }
    }

    /// The first coordinate.
    pub fn get_x(&self) -> (x: &'a T)
        ensures
            x == self.x,
    {
        self.x
    }

    /// The second coordinate.
    pub fn get_y(&self) -> (y: &'a T)
        ensures
            y == self.y,
    {
        self.y
    }
}

/// A successful result whose texts live as long as the program.
pub fn lifetime_with_error_handling() -> (r: Result<&'static str, &'static str>)
    ensures
        r matches Ok(text) && text@ == "成功"@,
{
    Ok("成功")
}

} // verus!
