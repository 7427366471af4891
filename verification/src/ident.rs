//! Generated identifiers for stored files.

use vstd::prelude::*;

verus! {

/// One lower-case hexadecimal digit.
pub open spec fn is_lower_hex(c: char) -> bool {
    ('0' <= c && c <= '9') || ('a' <= c && c <= 'f')
}

/// Index of one of the four hyphens of the 8-4-4-4-12 layout.
pub open spec fn is_hyphen_position(i: int) -> bool {
    i == 8 || i == 13 || i == 18 || i == 23
}

/// The shape of a generated identifier: 36 characters in the 8-4-4-4-12
/// layout, lower-case hexadecimal digits separated by hyphens, with the
/// version digit `4` and a variant digit between `8` and `b`.
pub open spec fn is_generated_id(id: Seq<char>) -> bool {
    &&& id.len() == 36
    &&& forall|i: int|
        0 <= i < 36 ==> if is_hyphen_position(i) {
            #[trigger] id[i] == '-'
        } else {
            is_lower_hex(id[i])
        }
    &&& id[14] == '4'
    &&& (id[19] == '8' || id[19] == '9' || id[19] == 'a' || id[19] == 'b')
}

/// Draws a fresh random identifier.
///
/// Trusted: calls `uuid::Uuid::new_v4` and formats the value with its
/// `Display` impl, which writes the lower-case hyphenated form. The contract
/// states only the shape, which holds of every outcome; which identifier
/// comes back is random, and two calls are unrelated. The call aborts if the
/// operating system cannot supply random bytes.
#[verifier::external_body]
pub(crate) fn fresh_id() -> (id: String)
    ensures
        is_generated_id(id@),
{
    uuid::Uuid::new_v4().to_string()
}

} // verus!
