//! Identifiers for new sessions.

use vstd::prelude::*;

verus! {

/// A decimal digit or one of the letters `a` to `f`.
pub open spec fn is_lower_hex(c: char) -> bool {
    ('0' <= c && c <= '9') || ('a' <= c && c <= 'f')
}

/// The textual shape of a random (version 4) UUID: 36 characters, hyphens
/// after the 8th, 12th, 16th and 20th digit, lower-case hexadecimal digits
/// elsewhere, the version digit `4` and a variant digit from `8` to `b`.
pub open spec fn is_session_id(s: Seq<char>) -> bool {
    &&& s.len() == 36
    &&& forall|i: int|
        0 <= i < 36 ==> if i == 8 || i == 13 || i == 18 || i == 23 {
            #[trigger] s[i] == '-'
        } else {
            is_lower_hex(s[i])
        }
    &&& s[14] == '4'
    &&& (s[19] == '8' || s[19] == '9' || s[19] == 'a' || s[19] == 'b')
}

/// Draws a new identifier with `uuid::Uuid::new_v4` and renders it with the
/// `Display` impl of `uuid::Uuid`.
///
/// Trusted: the text has the hyphenated lower-case form of a version 4 UUID.
/// Nothing is claimed about which identifier is drawn; two calls may even
/// return the same one. The call panics if the operating system cannot
/// supply random bytes.
#[verifier::external_body]
pub(crate) fn fresh_session_id() -> (id: String)
    ensures
        is_session_id(id@),
{
    uuid::Uuid::new_v4().to_string()
}

} // verus!
