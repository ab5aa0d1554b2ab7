//! The four well-known namespaces of name-based identifiers.

use vstd::prelude::*;

use crate::ascii::{ascii_lower_char, ascii_lowercase, same_ignoring_ascii_case, to_ascii_lower};

verus! {

/// The value of the namespace for domain names.
pub const NAMESPACE_DNS: u128 = 0x6ba7b810_9dad_11d1_80b4_00c04fd430c8;

/// The value of the namespace for URLs.
pub const NAMESPACE_URL: u128 = 0x6ba7b811_9dad_11d1_80b4_00c04fd430c8;

/// The value of the namespace for ISO object identifiers.
pub const NAMESPACE_OID: u128 = 0x6ba7b812_9dad_11d1_80b4_00c04fd430c8;

/// The value of the namespace for X.500 distinguished names.
pub const NAMESPACE_X500: u128 = 0x6ba7b814_9dad_11d1_80b4_00c04fd430c8;

/// A namespace: the fixed 128-bit value that is hashed in front of a name.
#[derive(Clone, Copy, Debug, PartialEq, Eq, Hash, Structural)]
pub enum Namespace {
    Dns,
    Url,
    Oid,
    X500,
}

impl Namespace {
    /// The namespace that a word selects. The words `url`, `oid` and `x500`
    /// select their namespaces, in any mix of capitals and lowercase letters;
    /// every other word, `dns` among them, selects the namespace for domain
    /// names.
    pub open spec fn spec_from_name(name: Seq<char>) -> Namespace {
        let word = ascii_lowercase(name);
        if word == seq!['u', 'r', 'l'] {
            Namespace::Url
        } else if word == seq!['o', 'i', 'd'] {
            Namespace::Oid
        } else if word == seq!['x', '5', '0', '0'] {
            Namespace::X500
        } else {
            Namespace::Dns
        }
    }

    /// The 128-bit value of the namespace.
    pub open spec fn spec_value(self) -> u128 {
        match self {
            Namespace::Dns => NAMESPACE_DNS,
            Namespace::Url => NAMESPACE_URL,
            Namespace::Oid => NAMESPACE_OID,
            Namespace::X500 => NAMESPACE_X500,
        }
    }

    /// The namespace that a word selects; a word that names none selects the
    /// namespace for domain names.
    pub fn from_name(name: &str) -> (namespace: Namespace)
        ensures
            namespace == Namespace::spec_from_name(name@),
    {
        proof {
            reveal_strlit("url");
            reveal_strlit("oid");
            reveal_strlit("x500");
            assert("url"@ =~= seq!['u', 'r', 'l']);
            assert("oid"@ =~= seq!['o', 'i', 'd']);
            assert("x500"@ =~= seq!['x', '5', '0', '0']);
        }
        if lowercase_is(name, "url") {
            Namespace::Url
        } else if lowercase_is(name, "oid") {
            Namespace::Oid
        } else if lowercase_is(name, "x500") {
            Namespace::X500
        } else {
            Namespace::Dns
        }
    }

    /// The 128-bit value of the namespace.
    pub fn value(&self) -> (value: u128)
        ensures
            value == self.spec_value(),
    {
        match self {
            Namespace::Dns => NAMESPACE_DNS,
            Namespace::Url => NAMESPACE_URL,
            Namespace::Oid => NAMESPACE_OID,
            Namespace::X500 => NAMESPACE_X500,
        }
    }
}

/// Whether the text, with its capital ASCII letters made lowercase, is the
/// given word.
fn lowercase_is(text: &str, word: &str) -> (same: bool)
    ensures
        same == (ascii_lowercase(text@) == word@),
{
    let n: usize = text.unicode_len();
    if n != word.unicode_len() {
        return false;
    }
    let mut i: usize = 0;
    while i < n
        invariant
            i <= n,
            n == text@.len(),
            n == word@.len(),
            forall|j: int| 0 <= j < i ==> ascii_lower_char(text@[j]) == word@[j],
        decreases n - i,
    {
        if to_ascii_lower(text.get_char(i)) != word.get_char(i) {
            return false;
        }
        i += 1;
    }
    assert(ascii_lowercase(text@) =~= word@);
    true
}

/// The namespace that a word selects does not depend on the case of the
/// word's letters.
pub proof fn lemma_from_name_ignores_case(a: Seq<char>, b: Seq<char>)
    requires
        same_ignoring_ascii_case(a, b),
    ensures
        Namespace::spec_from_name(a) == Namespace::spec_from_name(b),
{
}

/// Different namespaces have different values, so the same name is hashed
/// behind different bytes in each of them.
pub proof fn lemma_namespace_values_distinct(a: Namespace, b: Namespace)
    ensures
        a.spec_value() == b.spec_value() <==> a == b,
{
}

} // verus!
