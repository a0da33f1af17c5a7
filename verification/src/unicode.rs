//! Trusted bridges to text facilities outside the verified library: grapheme
//! segmentation for display widths, and Unicode case mapping.

use unicode_segmentation::UnicodeSegmentation;
use vstd::prelude::*;

verus! {

/// The number of extended grapheme clusters in a string of these characters.
pub uninterp spec fn grapheme_count(s: Seq<char>) -> nat;

/// Relies on UnicodeSegmentation::graphemes with extended clusters: the count
/// depends on the characters alone, and every cluster holds at least one.
#[verifier::external_body]
pub fn count_graphemes(s: &str) -> (n: usize)
    ensures
        n == grapheme_count(s@),
        n <= s@.len(),
{
    UnicodeSegmentation::graphemes(s, true).count()
}

/// The lowercase form of a string of these characters.
pub uninterp spec fn lower_of(s: Seq<char>) -> Seq<char>;

/// Relies on str::to_lowercase: the result depends on the characters alone,
/// and an empty string stays empty.
#[verifier::external_body]
pub fn lowercase_str(s: &str) -> (r: String)
    ensures
        r@ == lower_of(s@),
        s@.len() == 0 ==> r@.len() == 0,
{
    s.to_lowercase()
}

/// The first character of the lowercase mapping of a character.
pub uninterp spec fn lower_char_of(c: char) -> char;

/// Relies on char::to_lowercase: the mapping depends on the character alone
/// and always yields at least one character, of which the first is kept.
#[verifier::external_body]
pub fn lowercase_char(c: char) -> (r: char)
    ensures
        r == lower_char_of(c),
{
    c.to_lowercase().next().unwrap_or(c)
}

} // verus!
