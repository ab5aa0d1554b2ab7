//! A request for identifiers: which version, how many, and how each is
//! rendered as a line of text.

use vstd::prelude::*;

use crate::format::{
    format_uuid, formatted, is_lower_hex, lemma_braced_shape, lemma_canonical_text,
    lemma_fields_in_canonical_text, lemma_simple_shape, lower_hex_digit,
};
use crate::generate::{
    generate_v1, generate_v4, generate_v5, generate_v6, generate_v7, spec_generate_v5,
};
use crate::identifier::{variant_field, version_field, Uuid, RFC_VARIANT};

verus! {

/// The versions that can be generated.
#[derive(Clone, Copy, Debug, PartialEq, Eq, Hash, Structural)]
pub enum Version {
    V1,
    V4,
    V5,
    V6,
    V7,
}

/// Why a request is turned down before anything is generated.
#[derive(Clone, Copy, Debug, PartialEq, Eq, Structural)]
pub enum RequestError {
    /// The number names no version that can be generated.
    UnsupportedVersion(u8),
    /// Version 5 was asked for and no name was given.
    MissingName,
}

impl Version {
    /// The number of the version, as it stands in the version field.
    pub open spec fn spec_number(self) -> u8 {
        match self {
            Version::V1 => 1,
            Version::V4 => 4,
            Version::V5 => 5,
            Version::V6 => 6,
            Version::V7 => 7,
        }
    }

    /// The version with the given number, if it is one of 1, 4, 5, 6 and 7.
    pub open spec fn spec_from_number(number: u8) -> Option<Version> {
        if number == 1 {
            Some(Version::V1)
        } else if number == 4 {
            Some(Version::V4)
        } else if number == 5 {
            Some(Version::V5)
        } else if number == 6 {
            Some(Version::V6)
        } else if number == 7 {
            Some(Version::V7)
        } else {
            None
        }
    }

    /// The number of the version.
    pub fn number(&self) -> (number: u8)
        ensures
            number == self.spec_number(),
    {
        match self {
            Version::V1 => 1,
            Version::V4 => 4,
            Version::V5 => 5,
            Version::V6 => 6,
            Version::V7 => 7,
        }
    }

    /// The version with the given number, or `None` for a number other than
    /// 1, 4, 5, 6 and 7.
    pub fn from_number(number: u8) -> (version: Option<Version>)
        ensures
            version == Version::spec_from_number(number),
    {
        match number {
            1 => Some(Version::V1),
            4 => Some(Version::V4),
            5 => Some(Version::V5),
            6 => Some(Version::V6),
            7 => Some(Version::V7),
            _ => None,
        }
    }
}

/// What `check_request` answers: the version is looked at first, then the
/// name that version 5 needs.
pub open spec fn spec_check_request(version: u8, has_name: bool) -> Result<Version, RequestError> {
    match Version::spec_from_number(version) {
        None => Err(RequestError::UnsupportedVersion(version)),
        Some(v) => if v == Version::V5 && !has_name {
            Err(RequestError::MissingName)
        } else {
            Ok(v)
        },
    }
}

/// Checks a request before anything is generated. A version number other
/// than 1, 4, 5, 6 and 7 is turned down as unsupported; version 5 without a
/// name is turned down for the missing name; every other request is accepted
/// with its version.
pub fn check_request(version: u8, has_name: bool) -> (checked: Result<Version, RequestError>)
    ensures
        checked == spec_check_request(version, has_name),
{
    match Version::from_number(version) {
        None => Err(RequestError::UnsupportedVersion(version)),
        Some(v) => {
            if version == 5 && !has_name {
                Err(RequestError::MissingName)
            } else {
                Ok(v)
            }
        },
    }
}

/// The value is one that a generator of the version may give for the name
/// and the namespace word: its two fields hold the version and the variant
/// `10`, and for version 5 it is the value of the name in the namespace.
pub open spec fn is_generated(
    value: u128,
    version: Version,
    name: Seq<char>,
    namespace: Seq<char>,
) -> bool {
    &&& version_field(value) == version.spec_number()
    &&& variant_field(value) == RFC_VARIANT
    &&& version == Version::V5 ==> value == spec_generate_v5(name, namespace)
}

/// The text is the rendering, under the flags, of a value that a generator of
/// the version may give.
pub open spec fn is_line(
    text: Seq<char>,
    version: Version,
    name: Seq<char>,
    namespace: Seq<char>,
    no_hyphen: bool,
    braced: bool,
    upper: bool,
) -> bool {
    exists|value: u128|
        is_generated(value, version, name, namespace) && text == #[trigger] formatted(
            value,
            no_hyphen,
            braced,
            upper,
        )
}

/// One identifier of the version. The name and the namespace word are read
/// for version 5 alone.
pub fn generate(version: Version, name: &str, namespace: &str) -> (u: Uuid)
    ensures
        is_generated(u@, version, name@, namespace@),
{
    match version {
        Version::V1 => generate_v1(),
        Version::V4 => generate_v4(),
        Version::V5 => generate_v5(name, namespace),
        Version::V6 => generate_v6(),
        Version::V7 => generate_v7(),
    }
}

/// `count` identifiers of the version, each generated on its own and
/// rendered under the flags, in the order in which they were generated.
pub fn generate_lines(
    version: Version,
    name: &str,
    namespace: &str,
    count: usize,
    no_hyphen: bool,
    braced: bool,
    upper: bool,
) -> (lines: Vec<String>)
    ensures
        lines.len() == count,
        forall|i: int|
            0 <= i < count ==> is_line(
                (#[trigger] lines[i])@,
                version,
                name@,
                namespace@,
                no_hyphen,
                braced,
                upper,
            ),
{
    let mut lines: Vec<String> = Vec::new();
    let mut done: usize = 0;
    while done < count
        invariant
            done <= count,
            lines.len() == done,
            forall|i: int|
                0 <= i < done ==> is_line(
                    (#[trigger] lines[i])@,
                    version,
                    name@,
                    namespace@,
                    no_hyphen,
                    braced,
                    upper,
                ),
        decreases count - done,
    {
        let u = generate(version, name, namespace);
        let line = format_uuid(u, no_hyphen, braced, upper);
        lines.push(line);
        done += 1;
    }
    lines
}

/// The length of a line follows from the flags alone: 32 characters without
/// hyphens, 38 in braces, 36 otherwise.
pub proof fn lemma_line_length(
    text: Seq<char>,
    version: Version,
    name: Seq<char>,
    namespace: Seq<char>,
    no_hyphen: bool,
    braced: bool,
    upper: bool,
)
    requires
        is_line(text, version, name, namespace, no_hyphen, braced, upper),
    ensures
        text.len() == (if no_hyphen {
            32nat
        } else if braced {
            38nat
        } else {
            36nat
        }),
{
    let value = choose|value: u128|
        is_generated(value, version, name, namespace) && text == #[trigger] formatted(
            value,
            no_hyphen,
            braced,
            upper,
        );
    lemma_simple_shape(value);
    lemma_canonical_text(value);
    lemma_braced_shape(value);
}

/// A line rendered with no flag set is in canonical form and shows its
/// version: 36 characters, hyphens at the positions 8, 13, 18 and 23,
/// lowercase hexadecimal digits elsewhere, and at position 14 the digit of
/// the version.
pub proof fn lemma_canonical_line(
    text: Seq<char>,
    version: Version,
    name: Seq<char>,
    namespace: Seq<char>,
)
    requires
        is_line(text, version, name, namespace, false, false, false),
    ensures
        text.len() == 36,
        text[8] == '-',
        text[13] == '-',
        text[18] == '-',
        text[23] == '-',
        forall|i: int|
            0 <= i < 36 && i != 8 && i != 13 && i != 18 && i != 23 ==> is_lower_hex(
                #[trigger] text[i],
            ),
        text[14] == lower_hex_digit(version.spec_number() as u128),
        text[19] == '8' || text[19] == '9' || text[19] == 'a' || text[19] == 'b',
{
    let value = choose|value: u128|
        is_generated(value, version, name, namespace) && text == #[trigger] formatted(
            value,
            false,
            false,
            false,
        );
    lemma_canonical_text(value);
    lemma_fields_in_canonical_text(value);
}

} // verus!
