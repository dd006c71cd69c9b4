//! The text formats that entity fields must have. Each format is decided by
//! the library that owns it. The written forms of a UUID are few and are
//! stated here; for the other formats this module gives the decision a name
//! that contracts can speak of. For each format one function asks for the
//! decision.

use vstd::prelude::*;

verus! {

/// One of the sixteen hexadecimal digits, in either case.
pub open spec fn is_hex_digit(c: char) -> bool {
    ('0' <= c <= '9') || ('a' <= c <= 'f') || ('A' <= c <= 'F')
}

/// What stands at position `at` of a hyphenated identifier: a hyphen after
/// the groups of eight, four, four and four digits, a hexadecimal digit
/// anywhere else.
pub open spec fn hyphenated_char(c: char, at: int) -> bool {
    if at == 8 || at == 13 || at == 18 || at == 23 {
        c == '-'
    } else {
        is_hex_digit(c)
    }
}

/// The simple form of a UUID: thirty-two hexadecimal digits.
pub open spec fn simple_uuid(text: Seq<char>) -> bool {
    &&& text.len() == 32
    &&& forall|i: int| 0 <= i < 32 ==> is_hex_digit(#[trigger] text[i])
}

/// The hyphenated form of a UUID: groups of eight, four, four, four and
/// twelve hexadecimal digits with a hyphen between one group and the next.
pub open spec fn hyphenated_uuid(text: Seq<char>) -> bool {
    &&& text.len() == 36
    &&& forall|i: int| 0 <= i < 36 ==> hyphenated_char(#[trigger] text[i], i)
}

/// The braced form of a UUID: the hyphenated form between `{` and `}`.
pub open spec fn braced_uuid(text: Seq<char>) -> bool {
    &&& text.len() == 38
    &&& text[0] == '{'
    &&& text[37] == '}'
    &&& hyphenated_uuid(text.subrange(1, 37))
}

/// The letter `lower` in either case.
pub open spec fn is_letter(c: char, lower: char, upper: char) -> bool {
    c == lower || c == upper
}

/// The URN form of a UUID: the hyphenated form behind `urn:uuid:`, the
/// letters of which may be of either case.
pub open spec fn urn_uuid(text: Seq<char>) -> bool {
    &&& text.len() == 45
    &&& is_letter(text[0], 'u', 'U')
    &&& is_letter(text[1], 'r', 'R')
    &&& is_letter(text[2], 'n', 'N')
    &&& text[3] == ':'
    &&& is_letter(text[4], 'u', 'U')
    &&& is_letter(text[5], 'u', 'U')
    &&& is_letter(text[6], 'i', 'I')
    &&& is_letter(text[7], 'd', 'D')
    &&& text[8] == ':'
    &&& hyphenated_uuid(text.subrange(9, 45))
}

/// The texts that are UUIDs: those of one of the four written forms. No
/// version or variant is asked of the digits.
pub open spec fn uuid_text(text: Seq<char>) -> bool {
    simple_uuid(text) || hyphenated_uuid(text) || braced_uuid(text) || urn_uuid(text)
}

/// Whether `validate_email` of the validator crate accepts `text`.
pub uninterp spec fn email_text(text: Seq<char>) -> bool;

/// Whether `validate_phone` of the validator crate accepts `text`.
pub uninterp spec fn phone_text(text: Seq<char>) -> bool;

/// Whether `Url::parse` of the url crate accepts `text`.
pub uninterp spec fn url_text(text: Seq<char>) -> bool;

/// Calls `uuid::Uuid::parse_str` and keeps only whether it succeeded.
/// Trusted: the crate accepts a text exactly when it has one of the four
/// written forms: it tells them apart by length (32, 36, 38 or 45 bytes),
/// asks for the braces or for the prefix, whose letters it compares without
/// regard to case, for hyphens at the four places, and for hexadecimal digits
/// of either case everywhere else. A text that passes is made of one-byte
/// characters only, so its length in bytes is its length in characters.
#[verifier::external_body]
pub(crate) fn is_uuid(text: &str) -> (ok: bool)
    ensures
        ok == uuid_text(text@),
{
    uuid::Uuid::parse_str(text).is_ok()
}

/// Calls `validator::validate_email`.
/// Trusted: the answer depends on the characters of `text` alone, so it is
/// the value that `email_text` names.
#[verifier::external_body]
pub(crate) fn is_email(text: &str) -> (ok: bool)
    ensures
        ok == email_text(text@),
{
    validator::validate_email(text)
}

/// Calls `validator::validate_phone`.
/// Trusted: the answer depends on the characters of `text` alone, so it is
/// the value that `phone_text` names.
#[verifier::external_body]
pub(crate) fn is_phone(text: &str) -> (ok: bool)
    ensures
        ok == phone_text(text@),
{
    validator::validate_phone(text)
}

/// Calls `url::Url::parse` and keeps only whether it succeeded.
/// Trusted: the answer depends on the characters of `text` alone, so it is
/// the value that `url_text` names.
#[verifier::external_body]
pub(crate) fn is_url(text: &str) -> (ok: bool)
    ensures
        ok == url_text(text@),
{
    url::Url::parse(text).is_ok()
}

/// Draws a random identifier with `uuid::Uuid::new_v4` and writes it with the
/// crate's `Display`.
/// Trusted: whatever was drawn, `Display` writes the hyphenated form, in
/// lower case. Nothing else is claimed of the text: two calls give different
/// identifiers.
#[verifier::external_body]
pub(crate) fn fresh_uuid() -> (id: String)
    ensures
        hyphenated_uuid(id@),
{
    uuid::Uuid::new_v4().to_string()
}

} // verus!
