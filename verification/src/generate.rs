//! The five generators.

use vstd::prelude::*;

use crate::ascii::{
    ascii_lowercase, ascii_uppercase, lemma_case_change_is_same_ignoring_case,
    same_ignoring_ascii_case,
};
use crate::identifier::{
    lemma_with_version_and_variant, variant_field, version_field, with_version_and_variant, Uuid,
    RFC_VARIANT,
};
use crate::namespace::{lemma_from_name_ignores_case, Namespace};

verus! {

/// The first 128 bits of the SHA-1 digest of a namespace value's sixteen
/// bytes, most significant first, followed by the bytes of a name. It names
/// the hash that `uuid::Uuid::new_v5` takes of its two arguments.
pub uninterp spec fn sha1_leading_bits(namespace: u128, name: Seq<u8>) -> u128;

/// The value of the name-based identifier of a name in a namespace: the
/// leading bits of the hash with version 5 and the variant `10` written in.
pub open spec fn name_based_value(namespace: u128, name: Seq<u8>) -> u128 {
    with_version_and_variant(sha1_leading_bits(namespace, name), 5)
}

/// The value that `generate_v5` gives for a name and a word for the
/// namespace: the name enters the hash as its UTF-8 bytes.
pub open spec fn spec_generate_v5(name: Seq<char>, namespace: Seq<char>) -> u128 {
    name_based_value(
        Namespace::spec_from_name(namespace).spec_value(),
        vstd::utf8::encode_utf8(name),
    )
}

/// Calls `rand::rng` and fills six bytes from it with `RngCore::fill_bytes`.
/// Nothing is claimed of the bytes.
#[verifier::external_body]
fn random_node() -> (node: [u8; 6]) {
    let mut node = [0u8; 6];
    rand::RngCore::fill_bytes(&mut rand::rng(), &mut node);
    node
}

/// Calls `uuid::Uuid::now_v1` with the node and takes the result's `as_u128`.
/// Trusted: whatever the clock and the clock sequence were, the version field
/// holds 1 and the variant field holds `10`.
#[verifier::external_body]
fn now_v1_value(node: &[u8; 6]) -> (value: u128)
    ensures
        version_field(value) == 1,
        variant_field(value) == RFC_VARIANT,
{
    uuid::Uuid::now_v1(node).as_u128()
}

/// Calls `uuid::Uuid::new_v4` and takes the result's `as_u128`. Trusted:
/// whatever the random bits were, the version field holds 4 and the variant
/// field holds `10`.
#[verifier::external_body]
fn new_v4_value() -> (value: u128)
    ensures
        version_field(value) == 4,
        variant_field(value) == RFC_VARIANT,
{
    uuid::Uuid::new_v4().as_u128()
}

/// Calls `uuid::Uuid::new_v5` with the namespace, made by `from_u128`, and
/// the name, and takes the result's `as_u128`. Trusted: the result is the
/// leading 128 bits of the SHA-1 hash of the namespace's bytes and the name,
/// with version 5 and the variant `10` written over the two fields.
#[verifier::external_body]
fn new_v5_value(namespace: u128, name: &[u8]) -> (value: u128)
    ensures
        value == with_version_and_variant(sha1_leading_bits(namespace, name@), 5),
{
    uuid::Uuid::new_v5(&uuid::Uuid::from_u128(namespace), name).as_u128()
}

/// Calls `uuid::Uuid::now_v6` with the node and takes the result's `as_u128`.
/// Trusted: whatever the clock and the clock sequence were, the version field
/// holds 6 and the variant field holds `10`.
#[verifier::external_body]
fn now_v6_value(node: &[u8; 6]) -> (value: u128)
    ensures
        version_field(value) == 6,
        variant_field(value) == RFC_VARIANT,
{
    uuid::Uuid::now_v6(node).as_u128()
}

/// Calls `uuid::Uuid::now_v7` and takes the result's `as_u128`. Trusted:
/// whatever the clock and the random bits were, the version field holds 7
/// and the variant field holds `10`.
#[verifier::external_body]
fn now_v7_value() -> (value: u128)
    ensures
        version_field(value) == 7,
        variant_field(value) == RFC_VARIANT,
{
    uuid::Uuid::now_v7().as_u128()
}

/// A version 1 identifier: the current time, a clock sequence and a node of
/// 48 bits, drawn at random for this call.
pub fn generate_v1() -> (u: Uuid)
    ensures
        version_field(u@) == 1,
        variant_field(u@) == RFC_VARIANT,
{
    let node = random_node();
    Uuid::from_u128(now_v1_value(&node))
}

/// A version 4 identifier: random bits around the two fields.
pub fn generate_v4() -> (u: Uuid)
    ensures
        version_field(u@) == 4,
        variant_field(u@) == RFC_VARIANT,
{
    Uuid::from_u128(new_v4_value())
}

/// The version 5 identifier of a name in a namespace. It depends on the two
/// arguments alone.
pub fn name_based(namespace: Namespace, name: &[u8]) -> (u: Uuid)
    ensures
        u@ == name_based_value(namespace.spec_value(), name@),
        version_field(u@) == 5,
        variant_field(u@) == RFC_VARIANT,
{
    proof {
        lemma_with_version_and_variant(sha1_leading_bits(namespace.spec_value(), name@), 5);
    }
    Uuid::from_u128(new_v5_value(namespace.value(), name))
}

/// The version 5 identifier of a name in the namespace that the word
/// `namespace` selects: one of `dns`, `url`, `oid` and `x500`, in capitals or
/// lowercase; any other word stands for `dns`.
pub fn generate_v5(name: &str, namespace: &str) -> (u: Uuid)
    ensures
        u@ == spec_generate_v5(name@, namespace@),
        version_field(u@) == 5,
        variant_field(u@) == RFC_VARIANT,
{
    name_based(Namespace::from_name(namespace), name.as_bytes())
}

/// A version 6 identifier: as version 1, with the time laid out so that
/// identifiers sort by it.
pub fn generate_v6() -> (u: Uuid)
    ensures
        version_field(u@) == 6,
        variant_field(u@) == RFC_VARIANT,
{
    let node = random_node();
    Uuid::from_u128(now_v6_value(&node))
}

/// A version 7 identifier: the current Unix time in milliseconds in the
/// leading 48 bits, random bits after the fields.
pub fn generate_v7() -> (u: Uuid)
    ensures
        version_field(u@) == 7,
        variant_field(u@) == RFC_VARIANT,
{
    Uuid::from_u128(now_v7_value())
}

/// The value of a name-based identifier does not depend on the case of the
/// letters of the word that selects its namespace.
pub proof fn lemma_generate_v5_ignores_namespace_case(
    name: Seq<char>,
    a: Seq<char>,
    b: Seq<char>,
)
    requires
        same_ignoring_ascii_case(a, b),
    ensures
        spec_generate_v5(name, a) == spec_generate_v5(name, b),
{
    lemma_from_name_ignores_case(a, b);
}

/// A namespace word in capitals, and the same word in lowercase, give the
/// identifier that the word itself gives.
pub proof fn lemma_generate_v5_namespace_in_capitals(name: Seq<char>, word: Seq<char>)
    ensures
        spec_generate_v5(name, ascii_uppercase(word)) == spec_generate_v5(name, word),
        spec_generate_v5(name, ascii_lowercase(word)) == spec_generate_v5(name, word),
{
    lemma_case_change_is_same_ignoring_case(word);
    lemma_generate_v5_ignores_namespace_case(name, ascii_uppercase(word), word);
    lemma_generate_v5_ignores_namespace_case(name, ascii_lowercase(word), word);
}

/// Every name-based value carries version 5 and the variant `10`.
pub proof fn lemma_name_based_fields(namespace: u128, name: Seq<u8>)
    ensures
        version_field(name_based_value(namespace, name)) == 5,
        variant_field(name_based_value(namespace, name)) == RFC_VARIANT,
{
    lemma_with_version_and_variant(sha1_leading_bits(namespace, name), 5);
}

} // verus!
