//! Extraction of the offending snippet from the submitted text.
//!
//! The span the service reports is measured in Unicode scalar values and
//! may reach past the end of the local text; extraction clamps both ends
//! instead of failing.

use vstd::prelude::*;

verus! {

/// The sub-sequence of `text` at `[offset, offset + length)`, with both
/// bounds clamped to the text's length.
pub open spec fn snippet_of(text: Seq<char>, offset: int, length: int) -> Seq<char>
    recommends
        offset >= 0,
        length >= 0,
{
    let n = text.len() as int;
    let start = if offset < n { offset } else { n };
    let end = if offset + length < n { offset + length } else { n };
    text.subrange(start, end)
}

/// The snippet of `text` that a reported span covers, clamped to the text:
/// every `offset`/`length` combination is accepted, including spans that
/// lie wholly or partly past the end of the text.
pub fn get_error_snippet(text: &str, offset: usize, length: usize) -> (r: String)
    ensures
        r@ == snippet_of(text@, offset as int, length as int),
{
    let n = text.unicode_len();
    let start = if offset < n {
        offset
    } else {
        n
    };
    let end = if length < n - start {
        start + length
    } else {
        n
    };
    let piece = text.substring_char(start, end);
    piece.to_owned()
}

} // verus!
