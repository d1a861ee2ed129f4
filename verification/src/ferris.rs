//! Ferris the crab says a few words in a speech bubble.

use vstd::prelude::*;

verus! {

/// The longest message, in characters, that Ferris is asked to say.
pub const MAX_MESSAGE: usize = 500;

/// The widest line, in columns, that Ferris is asked to fill.
pub const MAX_WIDTH: usize = 500;

/// The picture that `ferris_says::say` draws for a text and a line width:
/// the text in a bubble, wrapped at the width, with Ferris below it.
pub uninterp spec fn speech_bubble(input: Seq<char>, max_width: nat) -> Seq<u8>;

/// Calls `ferris_says::say` with a byte vector as the writer and hands the
/// vector back. The contract gives what was written the name
/// [`speech_bubble`].
///
/// The call wraps the text with `textwrap::fill`, which adds up the cost of
/// the lines in a signed 32-bit number and panics, or goes wrong silently,
/// where that overflows. So the text is held to [`MAX_MESSAGE`] characters
/// and the width to [`MAX_WIDTH`] columns. Such a text has at most 500
/// lines and, at up to three columns a character, 1500 columns. A line
/// costs 1000, then 2500 for each column beyond the width or else the
/// square of the gap at its end, then at most 50: 3 751 050 at the most.
/// Five hundred such lines cost less than 1 900 million, which fits.
///
/// The call fails only where its writer fails; the writer here is the byte
/// vector, which takes every write by growing.
#[verifier::external_body]
fn say(input: &str, max_width: usize) -> (bytes: Vec<u8>)
    requires
        input@.len() <= MAX_MESSAGE,
        max_width <= MAX_WIDTH,
    ensures
        bytes@ == speech_bubble(input@, max_width as nat),
{
    let mut bytes: Vec<u8> = Vec::new();
    ferris_says::say(input.as_bytes(), max_width, &mut bytes).unwrap();
    bytes
}

/// Ferris says `message`, on lines as wide as the message has characters.
/// A message of more than [`MAX_MESSAGE`] characters is not said.
pub fn ferris_says(message: &str) -> (out: Option<Vec<u8>>)
    ensures
        message@.len() <= MAX_MESSAGE ==> (out matches Some(bytes) && bytes@ == speech_bubble(
            message@,
            message@.len(),
        )),
        message@.len() > MAX_MESSAGE ==> out.is_none(),
{
    let width: usize = message.unicode_len();
    if width <= MAX_MESSAGE {
        Some(say(message, width))
    } else {
        None
    }
}

/// Ferris greets the reader.
pub fn say_hello() -> (out: Option<Vec<u8>>)
    ensures
        out matches Some(bytes) && bytes@ == speech_bubble(
            "Hello fellow Rustacean!"@,
            "Hello fellow Rustacean!"@.len(),
        ),
{
    proof {
        reveal_strlit("Hello fellow Rustacean!");
    }
    ferris_says("Hello fellow Rustacean!")
}

} // verus!
