//! Fresh identifiers.

use vstd::prelude::*;

verus! {

/// Whether the character is a decimal digit or one of the letters `a` to `f`.
pub open spec fn is_hex_digit(c: char) -> bool {
    ('0' <= c <= '9') || ('a' <= c <= 'f')
}

/// Whether the text is a random UUID as it is commonly written: 32
/// lower-case hexadecimal digits in groups of 8, 4, 4, 4 and 12 with hyphens
/// between them, of which the first digit of the third group is the version,
/// 4, and the first digit of the fourth group is one of `8`, `9`, `a`, `b`.
pub open spec fn is_uuid_text(text: Seq<char>) -> bool {
    &&& text.len() == 36
    &&& forall|i: int|
        0 <= i < 36 ==> if i == 8 || i == 13 || i == 18 || i == 23 {
            #[trigger] text[i] == '-'
        } else {
            is_hex_digit(text[i])
        }
    &&& text[14] == '4'
    &&& (text[19] == '8' || text[19] == '9' || text[19] == 'a' || text[19] == 'b')
}

/// `uuid::Uuid::new_v4`, written out by its `Display`: a random identifier
/// of version 4, in lower case with hyphens. Which one depends on the
/// system's random source; the call panics only if that source fails.
#[verifier::external_body]
pub(crate) fn random_uuid() -> (id: String)
    ensures
        is_uuid_text(id@),
{
    uuid::Uuid::new_v4().to_string()
}

/// A fresh identifier for a sandbox, a PTY or a request: a random UUID.
pub fn new_id() -> (id: String)
    ensures
        is_uuid_text(id@),
{
    random_uuid()
}

} // verus!
