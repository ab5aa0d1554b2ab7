//! Rendering an identifier as text.

use vstd::prelude::*;

use crate::ascii::{all_ascii, ascii_upper_char, ascii_uppercase};
use crate::identifier::{variant_field, version_field, Uuid, RFC_VARIANT};

verus! {

/// The `k`-th hexadecimal digit of a 128-bit value, counted from the most
/// significant one, for `k` from 0 to 31.
pub open spec fn nibble(value: u128, k: int) -> u128 {
    (value >> (((31 - k) * 4) as u128)) & 0xf
}

/// The lowercase character of a hexadecimal digit below 16.
pub open spec fn lower_hex_digit(digit: u128) -> char {
    if digit < 10 {
        ((digit + 0x30) as u8) as char
    } else {
        ((digit + 0x57) as u8) as char
    }
}

/// The 32 lowercase hexadecimal digits of a value, most significant first.
pub open spec fn simple_form(value: u128) -> Seq<char> {
    Seq::new(32, |k: int| lower_hex_digit(nibble(value, k)))
}

/// The digits of `simple_form` in groups of 8, 4, 4, 4 and 12, with a hyphen
/// between neighbouring groups.
pub open spec fn hyphenated_form(value: u128) -> Seq<char> {
    let digits = simple_form(value);
    digits.subrange(0, 8) + seq!['-'] + digits.subrange(8, 12) + seq!['-'] + digits.subrange(
        12,
        16,
    ) + seq!['-'] + digits.subrange(16, 20) + seq!['-'] + digits.subrange(20, 32)
}

/// The hyphenated form between an opening and a closing brace.
pub open spec fn braced_form(value: u128) -> Seq<char> {
    seq!['{'] + hyphenated_form(value) + seq!['}']
}

/// The text of an identifier value under the three formatting flags. The
/// layout is chosen first: without hyphens if `no_hyphen` is set, whatever
/// `braced` says; else braced if `braced` is set; else hyphenated. The layout
/// is then put in capitals if `upper` is set.
pub open spec fn formatted(value: u128, no_hyphen: bool, braced: bool, upper: bool) -> Seq<char> {
    let layout = if no_hyphen {
        simple_form(value)
    } else if braced {
        braced_form(value)
    } else {
        hyphenated_form(value)
    };
    if upper {
        ascii_uppercase(layout)
    } else {
        layout
    }
}

/// The character is one of `0` to `9` or `a` to `f`.
pub open spec fn is_lower_hex(c: char) -> bool {
    ('0' <= c <= '9') || ('a' <= c <= 'f')
}

/// The character is one of `0` to `9` or `A` to `F`.
pub open spec fn is_upper_hex(c: char) -> bool {
    ('0' <= c <= '9') || ('A' <= c <= 'F')
}

/// Each digit of a value is below 16 and its character is a lowercase
/// hexadecimal digit.
pub proof fn lemma_digit_is_lower_hex(value: u128, k: int)
    requires
        0 <= k < 32,
    ensures
        nibble(value, k) < 16,
        is_lower_hex(lower_hex_digit(nibble(value, k))),
{
    let shifted: u128 = value >> (((31 - k) * 4) as u128);
    assert(shifted & 0xf < 16) by (bit_vector);
}

/// The digits are all lowercase hexadecimal, 32 of them.
pub proof fn lemma_simple_shape(value: u128)
    ensures
        simple_form(value).len() == 32,
        forall|k: int| 0 <= k < 32 ==> is_lower_hex(#[trigger] simple_form(value)[k]),
{
    assert forall|k: int| 0 <= k < 32 implies is_lower_hex(#[trigger] simple_form(value)[k]) by {
        lemma_digit_is_lower_hex(value, k);
    }
}

/// The hyphenated form has 36 characters: a hyphen at each of the positions
/// 8, 13, 18 and 23, and at every other position the next digit in order.
pub proof fn lemma_hyphenated_shape(value: u128)
    ensures
        hyphenated_form(value).len() == 36,
        forall|i: int|
            0 <= i < 36 ==> #[trigger] hyphenated_form(value)[i] == (if i == 8 || i == 13 || i
                == 18 || i == 23 {
                '-'
            } else if i < 8 {
                simple_form(value)[i]
            } else if i < 13 {
                simple_form(value)[i - 1]
            } else if i < 18 {
                simple_form(value)[i - 2]
            } else if i < 23 {
                simple_form(value)[i - 3]
            } else {
                simple_form(value)[i - 4]
            }),
        forall|i: int|
            0 <= i < 36 && i != 8 && i != 13 && i != 18 && i != 23 ==> is_lower_hex(
                #[trigger] hyphenated_form(value)[i],
            ),
{
    lemma_simple_shape(value);
}

/// The braced form has 38 characters: an opening brace, the hyphenated form,
/// a closing brace.
pub proof fn lemma_braced_shape(value: u128)
    ensures
        braced_form(value).len() == 38,
        braced_form(value)[0] == '{',
        braced_form(value)[37] == '}',
        forall|i: int| 0 <= i < 36 ==> #[trigger] braced_form(value)[i + 1] == hyphenated_form(value)[i],
{
    lemma_hyphenated_shape(value);
}

/// All three layouts are ASCII text.
pub proof fn lemma_layouts_are_ascii(value: u128)
    ensures
        all_ascii(simple_form(value)),
        all_ascii(hyphenated_form(value)),
        all_ascii(braced_form(value)),
{
    lemma_simple_shape(value);
    lemma_hyphenated_shape(value);
    lemma_braced_shape(value);
}

/// Calls `to_string` on the `Simple` adapter of `uuid::Uuid`, after
/// `from_u128`. Trusted: the text is the 32 lowercase hexadecimal digits of
/// the value, most significant first, with nothing between or around them.
#[verifier::external_body]
fn simple_string(value: u128) -> (text: String)
    ensures
        text@ == simple_form(value),
{
    uuid::Uuid::from_u128(value).as_simple().to_string()
}

/// Calls `to_string` on `uuid::Uuid` itself, after `from_u128`. Trusted: the
/// text is the lowercase digits in groups of 8, 4, 4, 4 and 12 with a hyphen
/// between the groups.
#[verifier::external_body]
fn hyphenated_string(value: u128) -> (text: String)
    ensures
        text@ == hyphenated_form(value),
{
    uuid::Uuid::from_u128(value).to_string()
}

/// Calls `to_string` on the `Braced` adapter of `uuid::Uuid`, after
/// `from_u128`. Trusted: the text is the hyphenated form with `{` before it
/// and `}` after it.
#[verifier::external_body]
fn braced_string(value: u128) -> (text: String)
    ensures
        text@ == braced_form(value),
{
    uuid::Uuid::from_u128(value).braced().to_string()
}

/// Calls `str::to_uppercase`. Trusted, and only of ASCII text: each lowercase
/// letter comes back as its capital and every other character as it was.
/// Nothing is claimed of text that holds a character beyond ASCII.
#[verifier::external_body]
fn uppercase_string(text: &str) -> (upper: String)
    ensures
        all_ascii(text@) ==> upper@ == ascii_uppercase(text@),
{
    text.to_uppercase()
}

/// Renders an identifier as text. `no_hyphen` asks for the 32 digits alone and
/// wins over `braced`; `braced` asks for the hyphenated form in braces; with
/// neither the hyphenated form comes back. `upper` puts the letters of the
/// chosen layout in capitals.
pub fn format_uuid(u: Uuid, no_hyphen: bool, braced: bool, upper: bool) -> (text: String)
    ensures
        text@ == formatted(u@, no_hyphen, braced, upper),
{
    let layout = if no_hyphen {
        simple_string(u.as_u128())
    } else if braced {
        braced_string(u.as_u128())
    } else {
        hyphenated_string(u.as_u128())
    };
    if upper {
        proof {
            lemma_layouts_are_ascii(u@);
        }
        uppercase_string(layout.as_str())
    } else {
        layout
    }
}

/// The capital character of a hexadecimal digit below 16.
pub open spec fn upper_hex_digit(digit: u128) -> char {
    if digit < 10 {
        ((digit + 0x30) as u8) as char
    } else {
        ((digit + 0x37) as u8) as char
    }
}

/// Putting a lowercase digit in capitals gives the capital digit, and leaves
/// hyphens and braces alone.
pub proof fn lemma_upper_of_digit(digit: u128)
    requires
        digit < 16,
    ensures
        ascii_upper_char(lower_hex_digit(digit)) == upper_hex_digit(digit),
        is_upper_hex(upper_hex_digit(digit)),
        ascii_upper_char('-') == '-',
        ascii_upper_char('{') == '{',
        ascii_upper_char('}') == '}',
{
}

/// With no flag set, the text is the canonical form: 36 characters, hyphens
/// at the positions 8, 13, 18 and 23, lowercase hexadecimal digits elsewhere.
pub proof fn lemma_canonical_text(value: u128)
    ensures
        formatted(value, false, false, false) == hyphenated_form(value),
        formatted(value, false, false, false).len() == 36,
        formatted(value, false, false, false)[8] == '-',
        formatted(value, false, false, false)[13] == '-',
        formatted(value, false, false, false)[18] == '-',
        formatted(value, false, false, false)[23] == '-',
        forall|i: int|
            0 <= i < 36 && i != 8 && i != 13 && i != 18 && i != 23 ==> is_lower_hex(
                #[trigger] formatted(value, false, false, false)[i],
            ),
{
    lemma_hyphenated_shape(value);
}

/// With `no_hyphen` set and `upper` clear, the text is exactly 32 lowercase
/// hexadecimal digits.
pub proof fn lemma_no_hyphen_text(value: u128, braced: bool)
    ensures
        formatted(value, true, braced, false).len() == 32,
        forall|i: int|
            0 <= i < 32 ==> is_lower_hex(#[trigger] formatted(value, true, braced, false)[i]),
{
    lemma_simple_shape(value);
}

/// With `braced` alone set, the text has 38 characters, starts with `{`, ends
/// with `}` and holds the canonical form between the two.
pub proof fn lemma_braced_text(value: u128)
    ensures
        formatted(value, false, true, false).len() == 38,
        formatted(value, false, true, false)[0] == '{',
        formatted(value, false, true, false)[37] == '}',
        formatted(value, false, true, false).subrange(1, 37) == formatted(
            value,
            false,
            false,
            false,
        ),
{
    lemma_braced_shape(value);
}

/// `no_hyphen` wins over `braced`: with both set the text is the one that
/// `no_hyphen` alone gives, 32 characters long and with no brace in it.
pub proof fn lemma_no_hyphen_wins(value: u128, upper: bool)
    ensures
        formatted(value, true, true, upper) == formatted(value, true, false, upper),
        formatted(value, true, true, upper).len() == 32,
        forall|i: int|
            0 <= i < 32 ==> #[trigger] formatted(value, true, true, upper)[i] != '{' && formatted(
                value,
                true,
                true,
                upper,
            )[i] != '}',
{
    lemma_simple_shape(value);
}

/// For every choice of the two layout flags, the text with `upper` set is the
/// text with `upper` clear put in capitals: the same length, and at each
/// position the capital of the character that stood there.
pub proof fn lemma_upper_is_uppercase_of_lower(value: u128, no_hyphen: bool, braced: bool)
    ensures
        formatted(value, no_hyphen, braced, true) == ascii_uppercase(
            formatted(value, no_hyphen, braced, false),
        ),
        formatted(value, no_hyphen, braced, true).len() == formatted(
            value,
            no_hyphen,
            braced,
            false,
        ).len(),
        forall|i: int|
            0 <= i < formatted(value, no_hyphen, braced, false).len() ==> #[trigger] formatted(
                value,
                no_hyphen,
                braced,
                true,
            )[i] == ascii_upper_char(formatted(value, no_hyphen, braced, false)[i]),
{
}

/// In capitals the 32 digits alone are the capital digits of the value.
pub proof fn lemma_upper_simple_text(value: u128, braced: bool)
    ensures
        formatted(value, true, braced, true) == Seq::new(
            32,
            |k: int| upper_hex_digit(nibble(value, k)),
        ),
{
    assert forall|k: int| 0 <= k < 32 implies #[trigger] formatted(value, true, braced, true)[k]
        == upper_hex_digit(nibble(value, k)) by {
        lemma_digit_is_lower_hex(value, k);
        lemma_upper_of_digit(nibble(value, k));
    }
}

/// The canonical form shows the two fields: the character at position 14 is
/// the digit of the version field, and where the variant field holds `10` the
/// character at position 19 is one of `8`, `9`, `a` and `b`.
pub proof fn lemma_fields_in_canonical_text(value: u128)
    ensures
        hyphenated_form(value)[14] == lower_hex_digit(version_field(value)),
        variant_field(value) == RFC_VARIANT ==> hyphenated_form(value)[19] == '8' || hyphenated_form(
            value,
        )[19] == '9' || hyphenated_form(value)[19] == 'a' || hyphenated_form(value)[19] == 'b',
{
    lemma_hyphenated_shape(value);
    assert((value >> 62) & 0x3 == 2 ==> 8 <= (value >> 60) & 0xf < 12) by (bit_vector);
}

} // verus!
