//! ASCII case mapping on text, as the formatter and the namespace lookup use it.

use vstd::prelude::*;

verus! {

/// A lowercase ASCII letter becomes its capital; any other character stays.
pub open spec fn ascii_upper_char(c: char) -> char {
    if 'a' <= c <= 'z' {
        ((c as u8 - 32) as u8) as char
    } else {
        c
    }
}

/// A capital ASCII letter becomes its lowercase letter; any other character
/// stays.
pub open spec fn ascii_lower_char(c: char) -> char {
    if 'A' <= c <= 'Z' {
        ((c as u8 + 32) as u8) as char
    } else {
        c
    }
}

/// The text with each character replaced by `ascii_upper_char` of it.
pub open spec fn ascii_uppercase(text: Seq<char>) -> Seq<char> {
    Seq::new(text.len(), |i: int| ascii_upper_char(text[i]))
}

/// The text with each character replaced by `ascii_lower_char` of it.
pub open spec fn ascii_lowercase(text: Seq<char>) -> Seq<char> {
    Seq::new(text.len(), |i: int| ascii_lower_char(text[i]))
}

/// Every character of the text is an ASCII character.
pub open spec fn all_ascii(text: Seq<char>) -> bool {
    forall|i: int| 0 <= i < text.len() ==> #[trigger] text[i] <= '\u{7f}'
}

/// The two texts differ at most in the case of their ASCII letters.
pub open spec fn same_ignoring_ascii_case(a: Seq<char>, b: Seq<char>) -> bool {
    ascii_lowercase(a) == ascii_lowercase(b)
}

/// The lowercase letter of a character.
pub fn to_ascii_lower(c: char) -> (lower: char)
    ensures
        lower == ascii_lower_char(c),
{
    if 'A' <= c && c <= 'Z' {
        ((c as u8) + 32) as char
    } else {
        c
    }
}

/// Changing the case of the letters of a text gives a text that differs from
/// it in case only.
pub proof fn lemma_case_change_is_same_ignoring_case(text: Seq<char>)
    ensures
        same_ignoring_ascii_case(ascii_lowercase(text), text),
        same_ignoring_ascii_case(ascii_uppercase(text), text),
{
    assert(ascii_lowercase(ascii_lowercase(text)) =~= ascii_lowercase(text));
    assert(ascii_lowercase(ascii_uppercase(text)) =~= ascii_lowercase(text));
}

} // verus!
