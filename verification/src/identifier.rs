//! 128-bit identifiers and their textual forms.
//!
//! Identifiers travel through the library as `u128`; the `uuid` crate renders
//! and reads their text.
use vstd::prelude::*;

verus! {

/// The lower-case hexadecimal digit of a value below sixteen.
pub open spec fn hex_digit(value: nat) -> char
    recommends
        value < 16,
{
    "0123456789abcdef"@[value as int]
}

/// `value` modulo `16^width`, written with exactly `width` lower-case
/// hexadecimal digits, most significant first.
pub open spec fn hex_lower(value: nat, width: nat) -> Seq<char>
    decreases width,
{
    if width == 0 {
        Seq::empty()
    } else {
        hex_lower(value / 16, (width - 1) as nat).push(hex_digit(value % 16))
    }
}

/// The unhyphenated form of an identifier: 32 lower-case hexadecimal digits.
pub open spec fn simple_text(id: u128) -> Seq<char> {
    hex_lower(id as nat, 32)
}

/// The hyphenated form of an identifier: the digits of [`simple_text`] in groups
/// of 8, 4, 4, 4 and 12.
pub open spec fn hyphenated_text(id: u128) -> Seq<char> {
    let digits = simple_text(id);
    digits.subrange(0, 8) + "-"@ + digits.subrange(8, 12) + "-"@ + digits.subrange(12, 16) + "-"@
        + digits.subrange(16, 20) + "-"@ + digits.subrange(20, 32)
}

/// The identifier that the `uuid` crate reads from a text, if it accepts the text.
pub uninterp spec fn parsed_uuid(text: Seq<char>) -> Option<u128>;

/// `hex_lower` yields exactly as many digits as it is asked for.
pub proof fn lemma_hex_lower_len(value: nat, width: nat)
    ensures
        hex_lower(value, width).len() == width,
    decreases width,
{
    if width > 0 {
        lemma_hex_lower_len(value / 16, (width - 1) as nat);
    }
}

/// Calls `Uuid::simple` and formats it: the 32 lower-case hexadecimal digits of
/// the value, most significant first, without separators.
#[verifier::external_body]
pub(crate) fn simple(id: u128) -> (text: String)
    ensures
        text@ == simple_text(id),
{
    uuid::Uuid::from_u128(id).simple().to_string()
}

/// Calls `Uuid::hyphenated` and formats it: the same digits as the simple form,
/// grouped 8-4-4-4-12 with `-` between the groups.
#[verifier::external_body]
pub(crate) fn hyphenated(id: u128) -> (text: String)
    ensures
        text@ == hyphenated_text(id),
{
    uuid::Uuid::from_u128(id).hyphenated().to_string()
}

/// Calls `Uuid::parse_str`; the value of the identifier it reads is named
/// [`parsed_uuid`], and `None` stands for a text it rejects.
#[verifier::external_body]
pub(crate) fn parse(text: &str) -> (id: Option<u128>)
    ensures
        id == parsed_uuid(text@),
{
    uuid::Uuid::parse_str(text).ok().map(|id| id.as_u128())
}

/// Calls `Uuid::new_v4`: a random identifier, of which nothing is promised.
#[verifier::external_body]
pub(crate) fn fresh() -> u128 {
    uuid::Uuid::new_v4().as_u128()
}

} // verus!
