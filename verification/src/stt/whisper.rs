//! Whisper's result: the text of its segments.
use vstd::prelude::*;

use crate::text::{push_char, push_str, trim, trimmed};

verus! {

/// Each segment trimmed and followed by a space.
pub open spec fn spaced(segments: Seq<Seq<char>>) -> Seq<char>
    decreases segments.len(),
{
    if segments.len() == 0 {
        Seq::empty()
    } else {
        spaced(segments.drop_last()) + trimmed(segments.last()) + seq![' ']
    }
}

/// The transcript of a chunk from Whisper's segments: each trimmed, joined
/// by spaces, the whole trimmed.
pub fn segments_text(segments: &Vec<String>) -> (r: String)
    ensures
        r@ == trimmed(spaced(crate::text::string_views(segments@))),
{
    let ghost views = crate::text::string_views(segments@);
    let mut text = String::new();
    let mut i: usize = 0;
    while i < segments.len()
        invariant
            i <= segments.len(),
            views == crate::text::string_views(segments@),
            text@ == spaced(views.take(i as int)),
        decreases segments.len() - i,
    {
        assert(views.take(i + 1).drop_last() =~= views.take(i as int));
        let t = trim(segments[i].as_str());
        push_str(&mut text, t.as_str());
        push_char(&mut text, ' ');
        i = i + 1;
    }
    assert(views.take(segments.len() as int) =~= views);
    trim(text.as_str())
}

} // verus!
