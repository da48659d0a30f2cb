//! Correlation ids: one random id per response, which ties what the client
//! is told to what the log records.

use vstd::prelude::*;

verus! {

/// True for the digits and the lower-case letters `a` to `f`.
pub open spec fn is_lower_hex(c: char) -> bool {
    ('0' <= c && c <= '9') || ('a' <= c && c <= 'f')
}

/// True for the text of a random (version 4) UUID in its usual form: 36
/// characters, lower-case hexadecimal digits in groups of 8, 4, 4, 4 and 12
/// with a hyphen between them, the version digit `4` at the head of the
/// third group and one of `8`, `9`, `a`, `b` at the head of the fourth.
pub open spec fn is_uuid_v4_text(s: Seq<char>) -> bool {
    &&& s.len() == 36
    &&& forall|i: int|
        0 <= i < 36 ==> if i == 8 || i == 13 || i == 18 || i == 23 {
            #[trigger] s[i] == '-'
        } else {
            is_lower_hex(s[i])
        }
    &&& s[14] == '4'
    &&& (s[19] == '8' || s[19] == '9' || s[19] == 'a' || s[19] == 'b')
}

/// A fresh correlation id: the text of `uuid::Uuid::new_v4()`.
///
/// Trusted, not proved: that the text has the form of a version 4 UUID, as
/// the `uuid` crate sets version and variant bits in `new_v4` and writes a
/// `Uuid` in lower-case hyphenated form. Nothing is claimed about which id
/// comes out: it is random, and two calls may or may not differ.
#[verifier::external_body]
pub(crate) fn new_request_uuid() -> (text: String)
    ensures
        is_uuid_v4_text(text@),
{
    uuid::Uuid::new_v4().to_string()
}

} // verus!
