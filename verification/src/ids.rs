//! Identifiers: UUIDs held as their 128-bit value, parsed and printed by
//! the `uuid` crate.

use vstd::prelude::*;
use vstd::arithmetic::power::pow;

verus! {

/// What `uuid::Uuid::parse_str` returns for a string, as the 128-bit value
/// of the identifier (`None` when the string is not a UUID).
pub uninterp spec fn spec_parse_uuid(s: Seq<char>) -> Option<u128>;

/// What the `Display` of the error `uuid::Uuid::parse_str` gives for a
/// string that is not a UUID says (which character or length is wrong).
pub uninterp spec fn spec_uuid_error_text(s: Seq<char>) -> Seq<char>;

/// The lower-case hex digit of `n` (`0 <= n < 16`).
pub open spec fn spec_hex_digit(n: int) -> char {
    if n < 10 {
        (48 + n) as char
    } else {
        (87 + n) as char
    }
}

/// The simple form of an identifier: its 32 hex digits, most significant
/// first, in lower case (what `uuid::Uuid::simple` prints).
pub open spec fn spec_uuid_simple(id: u128) -> Seq<char> {
    Seq::new(32, |i: int| spec_hex_digit(((id as nat) / pow(16, (31 - i) as nat) as nat) as int % 16))
}

/// The hyphenated form of an identifier: the simple form with hyphens
/// after its 8th, 12th, 16th and 20th digits (what `uuid::Uuid`'s
/// `to_string` prints).
pub open spec fn spec_uuid_hyphenated(id: u128) -> Seq<char> {
    let s = spec_uuid_simple(id);
    s.subrange(0, 8) + seq!['-'] + s.subrange(8, 12) + seq!['-'] + s.subrange(12, 16) + seq!['-']
        + s.subrange(16, 20) + seq!['-'] + s.subrange(20, 32)
}

/// `uuid::Uuid::parse_str`: the value of a UUID in any of the formats the
/// crate prints (simple, hyphenated, braced, urn), `None` otherwise.
#[verifier::external_body]
pub(crate) fn parse_uuid(s: &str) -> (r: Option<u128>)
    ensures
        r == spec_parse_uuid(s@),
{
    uuid::Uuid::parse_str(s).ok().map(|u| u.as_u128())
}

/// The text of the `uuid::Error` that `uuid::Uuid::parse_str` returns for a
/// string that is not a UUID (its `Display`).
#[verifier::external_body]
pub(crate) fn uuid_error_text(s: &str) -> (r: String)
    requires
        spec_parse_uuid(s@) is None,
    ensures
        r@ == spec_uuid_error_text(s@),
{
    match uuid::Uuid::parse_str(s) {
        Err(e) => e.to_string(),
        Ok(_) => String::new(),
    }
}

/// `uuid::Uuid::to_string` (hyphenated form, 36 characters). The crate's
/// parser accepts every format the crate prints, so parsing the text gives
/// the identifier back.
#[verifier::external_body]
pub(crate) fn uuid_to_string(id: u128) -> (r: String)
    ensures
        r@ == spec_uuid_hyphenated(id),
        r@.len() == 36,
        spec_parse_uuid(r@) == Some(id),
{
    uuid::Uuid::from_u128(id).to_string()
}

/// `uuid::Uuid::simple` formatted to a string (32 characters); parsing it
/// gives the identifier back.
#[verifier::external_body]
pub(crate) fn uuid_to_simple_string(id: u128) -> (r: String)
    ensures
        r@ == spec_uuid_simple(id),
        r@.len() == 32,
        spec_parse_uuid(r@) == Some(id),
{
    uuid::Uuid::from_u128(id).simple().to_string()
}

/// `uuid::Uuid::new_v4`: a random identifier. Nothing is promised of its
/// value: it comes from the operating system's random source.
#[verifier::external_body]
pub(crate) fn random_uuid() -> (r: u128) {
    uuid::Uuid::new_v4().as_u128()
}

} // verus!
