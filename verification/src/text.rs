//! Text primitives shared by the pipeline: substring search over diagnostic
//! text and decoding of captured encoder output.

use vstd::prelude::*;
use vstd::utf8::*;

verus! {

/// `needle` occurs in `hay` as a contiguous run of characters.
pub open spec fn occurs_in(needle: Seq<char>, hay: Seq<char>) -> bool {
    exists|i: int| occurs_at(needle, hay, i)
}

/// `needle` occurs in `hay` starting at index `i`.
pub open spec fn occurs_at(needle: Seq<char>, hay: Seq<char>, i: int) -> bool {
    &&& 0 <= i
    &&& i + needle.len() <= hay.len()
    &&& hay.subrange(i, i + needle.len()) == needle
}

/// The text that lossy UTF-8 decoding makes of `bytes`: valid sequences are
/// decoded, every invalid one is replaced by U+FFFD. The replacement rules
/// are those of the standard library and are not restated here.
pub uninterp spec fn utf8_lossy(bytes: Seq<u8>) -> Seq<char>;

/// Substring test on string slices.
///
/// Trusted: calls `str::contains` with a string pattern, which std documents
/// as returning `true` exactly when the pattern matches a sub-slice of the
/// receiver. Nothing of the search itself is proved here.
#[verifier::external_body]
pub(crate) fn contains(hay: &str, needle: &str) -> (found: bool)
    ensures
        found == occurs_in(needle@, hay@),
{
    hay.contains(needle)
}

/// Decodes captured process output into text, replacing invalid UTF-8.
///
/// Trusted: calls `String::from_utf8_lossy`. Its result is named
/// `utf8_lossy`; the one fact stated beside the name is the documented one
/// that well-formed UTF-8 comes back as the text it encodes.
#[verifier::external_body]
pub(crate) fn decode_lossy(bytes: &[u8]) -> (text: String)
    ensures
        text@ == utf8_lossy(bytes@),
        valid_utf8(bytes@) ==> text@ == decode_utf8(bytes@),
{
    String::from_utf8_lossy(bytes).into_owned()
}

/// `text` ends with `suffix`.
pub open spec fn ends_with(text: Seq<char>, suffix: Seq<char>) -> bool {
    &&& suffix.len() <= text.len()
    &&& text.subrange(text.len() - suffix.len(), text.len() as int) == suffix
}

/// Occurrence is transitive: what occurs in a part of a text occurs in the
/// text.
pub proof fn lemma_occurs_in_transitive(needle: Seq<char>, part: Seq<char>, text: Seq<char>)
    requires
        occurs_in(needle, part),
        occurs_in(part, text),
    ensures
        occurs_in(needle, text),
{
    let i = choose|i: int| occurs_at(needle, part, i);
    let j = choose|j: int| occurs_at(part, text, j);
    assert(text.subrange(j + i, j + i + needle.len()) =~= text.subrange(j, j + part.len()).subrange(
        i,
        i + needle.len(),
    ));
    assert(occurs_at(needle, text, j + i));
}

} // verus!
