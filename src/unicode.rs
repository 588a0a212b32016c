//! Display width and text segmentation, as computed by the unicode-width and
//! unicode-segmentation crates.

use vstd::prelude::*;
use unicode_segmentation::UnicodeSegmentation;
use unicode_width::UnicodeWidthStr;

verus! {

/// Columns the text occupies on a terminal.
pub uninterp spec fn display_width(s: Seq<char>) -> nat;

/// The extended grapheme clusters of the text, in order.
pub uninterp spec fn grapheme_clusters(s: Seq<char>) -> Seq<Seq<char>>;

/// The pieces of the text between word boundaries, in order.
pub uninterp spec fn word_bound_segments(s: Seq<char>) -> Seq<Seq<char>>;

/// The character sequences held by a vector of strings.
pub open spec fn views(v: Seq<String>) -> Seq<Seq<char>> {
    v.map_values(|s: String| s@)
}

/// Relies on `UnicodeWidthStr::width`: the width depends on the text alone,
/// and the empty text is zero columns wide.
#[verifier::external_body]
pub(crate) fn str_width(s: &str) -> (r: usize)
    ensures
        r as nat == display_width(s@),
        s@.len() == 0 ==> r == 0,
{
    UnicodeWidthStr::width(s)
}

/// Relies on `UnicodeSegmentation::graphemes` (extended clusters): the
/// clusters are consecutive slices of the text that together make it up.
#[verifier::external_body]
pub(crate) fn graphemes_of(s: &str) -> (r: Vec<String>)
    ensures
        views(r@) == grapheme_clusters(s@),
        views(r@).flatten() == s@,
{
    s.graphemes(true).map(|g| g.to_string()).collect()
}

/// Relies on `UnicodeSegmentation::split_word_bounds`: its documentation
/// states that the pieces concatenate back to the whole text.
#[verifier::external_body]
pub(crate) fn word_bounds_of(s: &str) -> (r: Vec<String>)
    ensures
        views(r@) == word_bound_segments(s@),
        views(r@).flatten() == s@,
{
    s.split_word_bounds().map(|w| w.to_string()).collect()
}

} // verus!
