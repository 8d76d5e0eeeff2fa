//! Textual UUIDs, as the `uuid` crate reads them.

use vstd::prelude::*;
use crate::text::is_hex;

verus! {

#[verifier::external_type_specification]
#[verifier::external_body]
pub struct ExUuid(uuid::Uuid);

#[verifier::external_type_specification]
#[verifier::external_body]
pub struct ExUuidError(uuid::Error);

/// Positions of the hyphens in the hyphenated form.
pub open spec fn is_hyphen_position(i: int) -> bool {
    i == 8 || i == 13 || i == 18 || i == 23
}

/// `s` is 36 characters: hex digits with hyphens at positions 8, 13, 18 and 23.
pub open spec fn is_hyphenated_uuid(s: Seq<char>) -> bool {
    &&& s.len() == 36
    &&& forall|i: int| 0 <= i < 36 ==> if is_hyphen_position(i) { s[i] == '-' } else { is_hex(#[trigger] s[i]) }
}

/// `s` is the URN prefix `urn:uuid:`, letters in either case.
pub open spec fn is_urn_prefix(s: Seq<char>) -> bool {
    &&& s.len() == 9
    &&& (s[0] == 'u' || s[0] == 'U')
    &&& (s[1] == 'r' || s[1] == 'R')
    &&& (s[2] == 'n' || s[2] == 'N')
    &&& s[3] == ':'
    &&& (s[4] == 'u' || s[4] == 'U')
    &&& (s[5] == 'u' || s[5] == 'U')
    &&& (s[6] == 'i' || s[6] == 'I')
    &&& (s[7] == 'd' || s[7] == 'D')
    &&& s[8] == ':'
}

/// The texts that `Uuid::parse_str` accepts: 32 hex digits; the hyphenated form;
/// the hyphenated form in braces; or `urn:uuid:` followed by the hyphenated form.
pub open spec fn is_uuid_text(s: Seq<char>) -> bool {
    ||| (s.len() == 32 && forall|i: int| 0 <= i < 32 ==> is_hex(#[trigger] s[i]))
    ||| is_hyphenated_uuid(s)
    ||| (s.len() == 38 && s[0] == '{' && s[37] == '}' && is_hyphenated_uuid(s.subrange(1, 37)))
    ||| (s.len() == 45 && is_urn_prefix(s.take(9)) && is_hyphenated_uuid(s.skip(9)))
}

/// `Uuid::parse_str`: succeeds exactly on the texts of `is_uuid_text` (32 hex digits,
/// hyphenated, braced or URN forms, hex digits in either case).
#[verifier::external_body]
pub(crate) fn uuid_parse_str(input: &str) -> (r: Result<uuid::Uuid, uuid::Error>)
    ensures
        r is Ok <==> is_uuid_text(input@),
{
    uuid::Uuid::parse_str(input)
}

/// `c` is a lower-case hex digit.
pub open spec fn is_lower_hex(c: char) -> bool {
    ('0' <= c && c <= '9') || ('a' <= c && c <= 'f')
}

/// `s` is a random (version 4, RFC variant) UUID as `Uuid`'s `Display` writes it:
/// hyphenated, lower-case, with version digit `4` and variant digit `8`, `9`, `a` or
/// `b`.
pub open spec fn is_v4_text(s: Seq<char>) -> bool {
    &&& is_hyphenated_uuid(s)
    &&& forall|i: int| 0 <= i < 36 && !is_hyphen_position(i) ==> is_lower_hex(#[trigger] s[i])
    &&& s[14] == '4'
    &&& (s[19] == '8' || s[19] == '9' || s[19] == 'a' || s[19] == 'b')
}

/// `Uuid::new_v4().to_string()`: a fresh random UUID in its hyphenated lower-case
/// text. Its source masks in version 4 and the RFC variant, and `Display` writes the
/// lower-case hyphenated form; which UUID comes back is random, so nothing more is
/// claimed (the call panics only when the system's random source fails).
#[verifier::external_body]
pub(crate) fn fresh_uuid_text() -> (r: String)
    ensures
        is_v4_text(r@),
{
    uuid::Uuid::new_v4().to_string()
}

} // verus!
