//! The shape of a session id.

use crate::text::chars_of;
use vstd::prelude::*;

verus! {

/// A hexadecimal digit, in either case.
pub open spec fn is_hex_digit(c: char) -> bool {
    ('0' <= c && c <= '9') || ('a' <= c && c <= 'f') || ('A' <= c && c <= 'F')
}

/// Thirty-two hexadecimal digits.
pub open spec fn is_simple_uuid(s: Seq<char>) -> bool {
    s.len() == 32 && forall|i: int| 0 <= i < 32 ==> is_hex_digit(#[trigger] s[i])
}

/// Hexadecimal digits in groups of 8, 4, 4, 4 and 12, with a hyphen
/// between the groups.
pub open spec fn is_hyphenated_uuid(s: Seq<char>) -> bool {
    s.len() == 36 && forall|i: int|
        0 <= i < 36 ==> if i == 8 || i == 13 || i == 18 || i == 23 {
            #[trigger] s[i] == '-'
        } else {
            is_hex_digit(s[i])
        }
}

/// A hyphenated UUID in braces.
pub open spec fn is_braced_uuid(s: Seq<char>) -> bool {
    s.len() == 38 && s[0] == '{' && s[37] == '}' && is_hyphenated_uuid(s.subrange(1, 37))
}

/// The lower-case form of an ASCII capital, and any other character as it
/// is.
pub open spec fn ascii_lower(c: char) -> char {
    if 'A' <= c && c <= 'Z' {
        ((c as u32) + 32) as char
    } else {
        c
    }
}

/// A hyphenated UUID after `urn:uuid:`, the prefix in any mix of cases.
pub open spec fn is_urn_uuid(s: Seq<char>) -> bool {
    &&& s.len() == 45
    &&& s.subrange(0, 9).map_values(|c: char| ascii_lower(c)) == "urn:uuid:"@
    &&& is_hyphenated_uuid(s.subrange(9, 45))
}

/// The texts that `uuid::Uuid::parse_str` accepts.
pub open spec fn is_uuid_text(s: Seq<char>) -> bool {
    is_simple_uuid(s) || is_hyphenated_uuid(s) || is_braced_uuid(s) || is_urn_uuid(s)
}

/// The shape of a session id: a hyphenated UUID whose version digit, the
/// first of the third group, is 4.
pub open spec fn is_session_id(s: Seq<char>) -> bool {
    is_hyphenated_uuid(s) && s[14] == '4'
}

/// Calls `uuid::Uuid::parse_str` and says whether it returned a UUID. It
/// does so for the four forms that the parser knows, and for no other
/// text: 32 hexadecimal digits; the digits in groups of 8, 4, 4, 4 and 12
/// with hyphens between them; that form in braces; and that form after
/// `urn:uuid:`.
#[verifier::external_body]
fn uuid_parses(text: &str) -> (ok: bool)
    ensures
        ok == is_uuid_text(text@),
{
    uuid::Uuid::parse_str(text).is_ok()
}

/// Whether a text has the shape of a session id.
pub fn is_valid_session_id(session_id: &str) -> (valid: bool)
    ensures
        valid == is_session_id(session_id@),
{
    if !uuid_parses(session_id) {
        return false;
    }
    let chars = chars_of(session_id);
    chars.len() == 36 && chars[14] == '4'
}

} // verus!
