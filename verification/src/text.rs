//! Lenient text decoding and substring search over the accumulated bytes.
//!
//! The convenience predicate treats accumulated bytes as UTF-8 text, decoded
//! leniently so that invalid sequences are replaced rather than rejected, and
//! asks whether a caller-supplied substring has appeared yet.

use vstd::prelude::*;

verus! {

/// The text that lenient UTF-8 decoding yields for the given bytes. The
/// decoding is a function of the bytes alone; its full definition is too large
/// to restate, so it is only named here and pinned down by `decode_lossy`.
pub uninterp spec fn lossy_of(bytes: Seq<u8>) -> Seq<char>;

/// The pattern occurs in the text as a contiguous run of characters.
pub open spec fn spec_contains(text: Seq<char>, pattern: Seq<char>) -> bool {
    exists|i: int|
        0 <= i && i + pattern.len() <= text.len() && #[trigger] text.subrange(
            i,
            i + pattern.len(),
        ) == pattern
}

/// Relies on String::from_utf8_lossy: decodes the bytes as UTF-8, replacing
/// invalid sequences; the call never fails and depends on the bytes alone.
#[verifier::external_body]
fn decode_lossy(data: &Vec<u8>) -> (text: String)
    ensures
        text@ == lossy_of(data@),
{
    String::from_utf8_lossy(data.as_slice()).into_owned()
}

/// Relies on str::contains: true exactly when the pattern occurs as a
/// contiguous substring of the text.
#[verifier::external_body]
fn contains_str(text: &str, pattern: &str) -> (found: bool)
    ensures
        found == spec_contains(text@, pattern@),
{
    text.contains(pattern)
}

/// Whether the text decoded leniently from `data` contains `pattern`.
pub fn lossy_contains(data: &Vec<u8>, pattern: &str) -> (found: bool)
    ensures
        found == spec_contains(lossy_of(data@), pattern@),
{
    let text = decode_lossy(data);
    contains_str(text.as_str(), pattern)
}

} // verus!
