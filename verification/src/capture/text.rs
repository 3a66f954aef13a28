//! Text operations that window matching relies on.
//!
//! Window titles arrive as UTF-16 code units and are compared as Rust
//! strings. Decoding and case folding are done by the standard library; the
//! functions here give those calls a contract that the matching rules can be
//! stated against.

use vstd::prelude::*;

verus! {

/// The characters that lossy UTF-16 decoding yields for `units`: well-formed
/// code units decode to their characters and each unpaired surrogate to
/// U+FFFD.
pub uninterp spec fn utf16_lossy_text(units: Seq<u16>) -> Seq<char>;

/// The lowercase equivalent of `text` under the Unicode case mapping, which
/// does not depend on a locale.
pub uninterp spec fn lowercase_text(text: Seq<char>) -> Seq<char>;

/// `needle` stands in `hay` starting at position `at`.
pub open spec fn occurs_at(hay: Seq<char>, needle: Seq<char>, at: int) -> bool {
    &&& 0 <= at
    &&& at + needle.len() <= hay.len()
    &&& hay.subrange(at, at + needle.len()) == needle
}

/// `needle` stands somewhere in `hay` as a contiguous run of characters.
pub open spec fn contains_text(hay: Seq<char>, needle: Seq<char>) -> bool {
    exists|at: int| occurs_at(hay, needle, at)
}

/// The empty text occurs in every text.
pub proof fn lemma_empty_text_is_contained(hay: Seq<char>)
    ensures
        contains_text(hay, Seq::<char>::empty()),
{
    assert(hay.subrange(0, 0) =~= Seq::<char>::empty());
    assert(occurs_at(hay, Seq::<char>::empty(), 0));
}

/// Calls `String::from_utf16_lossy`. Trusted: the result is the lossy
/// decoding of exactly the given code units, a function of the units alone.
#[verifier::external_body]
pub(crate) fn decode_utf16_lossy(units: &[u16]) -> (text: String)
    ensures
        text@ == utf16_lossy_text(units@),
{
    String::from_utf16_lossy(units)
}

/// Calls `str::to_lowercase`. Trusted: the result is the lowercase
/// equivalent of the given text, a function of the text alone, and the
/// empty text stays empty.
#[verifier::external_body]
pub(crate) fn to_lowercase(text: &str) -> (lower: String)
    ensures
        lower@ == lowercase_text(text@),
        text@.len() == 0 ==> lower@.len() == 0,
{
    text.to_lowercase()
}

/// Calls `str::contains` with a string pattern. Trusted: the result tells
/// whether the pattern occurs in the text as a contiguous run of characters.
#[verifier::external_body]
pub(crate) fn contains(hay: &str, needle: &str) -> (found: bool)
    ensures
        found == contains_text(hay@, needle@),
{
    hay.contains(needle)
}

} // verus!
