//! How a report of the weather is set off on the terminal.

use vstd::prelude::*;

verus! {

/// The lowercase form of `text`: what `str::to_lowercase` returns.
pub uninterp spec fn lowercase(text: Seq<char>) -> Seq<char>;

/// Whether `needle` stands somewhere in `text`, as one run of characters.
pub open spec fn contains_text(text: Seq<char>, needle: Seq<char>) -> bool {
    exists|i: int|
        0 <= i <= text.len() - needle.len() && #[trigger] text.subrange(i, i + needle.len())
            == needle
}

/// Calls `str::to_lowercase`, whose result `lowercase` names.
#[verifier::external_body]
fn to_lowercase(text: &str) -> (lower: String)
    ensures
        lower@ == lowercase(text@),
{
    text.to_lowercase()
}

/// Calls `str::contains` with a string as the pattern: it tells whether the
/// pattern matches a part of `text`.
#[verifier::external_body]
fn contains(text: &str, needle: &str) -> (found: bool)
    ensures
        found == contains_text(text@, needle@),
{
    text.contains(needle)
}

/// The colour, out of the 256 of a terminal, for a description in lower
/// case: that of the first of the words clear, cloud, sun, rain, wind and
/// snow that stands in it, and none where none does.
pub open spec fn color_of(lower: Seq<char>) -> Option<u8> {
    if contains_text(lower, "clear"@) {
        Some(4u8)
    } else if contains_text(lower, "cloud"@) {
        Some(7u8)
    } else if contains_text(lower, "sun"@) {
        Some(11u8)
    } else if contains_text(lower, "rain"@) {
        Some(12u8)
    } else if contains_text(lower, "wind"@) {
        Some(14u8)
    } else if contains_text(lower, "snow"@) {
        Some(15u8)
    } else {
        None
    }
}

/// Picks the colour for a description that is in lower case already.
pub fn color_for(lower: &str) -> (color: Option<u8>)
    ensures
        color == color_of(lower@),
{
    if contains(lower, "clear") {
        Some(4)
    } else if contains(lower, "cloud") {
        Some(7)
    } else if contains(lower, "sun") {
        Some(11)
    } else if contains(lower, "rain") {
        Some(12)
    } else if contains(lower, "wind") {
        Some(14)
    } else if contains(lower, "snow") {
        Some(15)
    } else {
        None
    }
}

/// Picks the colour that a description of the weather is shown in, whatever
/// its case.
pub fn get_style_for_weather(description: &str) -> (color: Option<u8>)
    ensures
        color == color_of(lowercase(description@)),
{
    let lower = to_lowercase(description);
    color_for(lower.as_str())
}

} // verus!
