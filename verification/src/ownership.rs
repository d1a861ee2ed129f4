//! Owned strings, borrowed strings, and slices of them.

use vstd::prelude::*;
use vstd::string::*;
use vstd::utf8::*;

verus! {

/// The byte that encodes a space.
pub open spec fn space() -> u8 {
    0x20
}

/// `end` is where the first word of `bytes` stops: at the first space, or at
/// the end where there is none.
pub open spec fn is_word_end(bytes: Seq<u8>, end: int) -> bool {
    &&& 0 <= end <= bytes.len()
    &&& forall|k: int| 0 <= k < end ==> #[trigger] bytes[k] != space()
    &&& end < bytes.len() ==> bytes[end] == space()
}

/// A sequence has one word end only.
pub proof fn lemma_word_end_unique(bytes: Seq<u8>, a: int, b: int)
    requires
        is_word_end(bytes, a),
        is_word_end(bytes, b),
    ensures
        a == b,
{
    if a < b {
        assert(bytes[a] != space());
    } else if b < a {
        assert(bytes[b] != space());
    }
}

/// The length of a string in bytes.
pub fn calculate_length(s: &String) -> (len: usize)
    ensures
        len == encode_utf8(s@).len(),
{
    s.as_str().as_bytes().len()
}

/// Appends `, world` to a string.
pub fn change(some_string: &mut String)
    ensures
        final(some_string)@ == old(some_string)@ + ", world"@,
{
    some_string.append(", world");
}

/// A fresh `hello`, handed to the caller.
pub fn no_dangle() -> (s: String)
    ensures
        s@ == "hello"@,
{
    let s = String::from_str("hello");
    s
}

/// A fresh `yours`, handed to the caller.
pub fn gives_ownership() -> (s: String)
    ensures
        s@ == "yours"@,
{
    let some_string = String::from_str("yours");
    some_string
}

/// Takes a string and hands the same string back.
pub fn takes_and_gives_back(a_string: String) -> (s: String)
    ensures
        s == a_string,
{
    a_string
}

/// The first word of `s`: everything before its first space, or all of `s`
/// where it holds no space. The word is cut off where the bytes of `s` hold
/// their first space, and is the beginning of `s` character by character.
pub fn first_word(s: &str) -> (word: &str)
    ensures
        word.spec_bytes() == s.spec_bytes().take(word.spec_bytes().len() as int),
        is_word_end(s.spec_bytes(), word.spec_bytes().len() as int),
        word@ == s@.take(word@.len() as int),
{
    let bytes = s.as_bytes();
    let mut i: usize = 0;
    while i < bytes.len()
        invariant
            bytes@ == s.spec_bytes(),
            0 <= i <= bytes@.len(),
            forall|k: int| 0 <= k < i ==> #[trigger] bytes@[k] != space(),
        decreases bytes@.len() - i,
    {
        if bytes[i] == 0x20u8 {
            proof {
                encode_utf8_valid_utf8(s@);
                is_char_boundary_iff_not_is_continuation_byte(s.spec_bytes(), i as int);
            }
            let (head, _) = s.split_at(i);
            proof {
                let all = s.spec_bytes();
                decode_utf8_split(all, i as int);
                encode_utf8_decode_utf8(s@);
                encode_utf8_decode_utf8(head@);
                assert(head.spec_bytes() == all.subrange(0, i as int));
                assert(s@ =~= head@ + decode_utf8(all.subrange(i as int, all.len() as int)));
                assert(head@ =~= s@.take(head@.len() as int));
            }
            return head;
        }
        i += 1;
    }
    assert(s.spec_bytes().take(s.spec_bytes().len() as int) =~= s.spec_bytes());
    assert(s@.take(s@.len() as int) =~= s@);
    s
}

} // verus!
