//! Center-ellipsis truncation of a status line to a display width.
//!
//! Widths are counted in characters, not bytes, so multi-byte glyphs are
//! never split.

use vstd::prelude::*;
use vstd::string::*;

verus! {

/// The single-character glyph that marks an elided middle.
pub open spec fn ellipsis_char() -> char {
    '\u{2026}'
}

/// What `truncate_with_ellipsis` returns: the text itself when it fits, a
/// run of plain dots when the width cannot hold any content around a marker,
/// and otherwise a prefix and a suffix of the text around the ellipsis glyph,
/// together exactly `width` characters.
pub open spec fn truncate_spec(text: Seq<char>, width: nat) -> Seq<char> {
    if text.len() <= width {
        text
    } else if width < 3 {
        Seq::new(width, |i: int| '.')
    } else {
        let left = ((width - 1) as nat) / 2;
        let right = (width - 1 - left) as nat;
        text.take(left as int) + seq![ellipsis_char()] + text.skip(text.len() - right)
    }
}

/// Shorten `text` to at most `max_width` characters, keeping its start and
/// end and eliding the middle behind a single ellipsis glyph.
pub fn truncate_with_ellipsis(text: &str, max_width: usize) -> (r: String)
    ensures
        r@ == truncate_spec(text@, max_width as nat),
{
    let n = text.unicode_len();
    if n <= max_width {
        return String::from_str(text);
    }
    if max_width < 3 {
        let mut dots = String::new();
        let mut i: usize = 0;
        while i < max_width
            invariant
                i <= max_width,
                dots@ =~= Seq::new(i as nat, |k: int| '.'),
            decreases max_width - i,
        {
            proof {
                reveal_strlit(".");
            }
            dots.append(".");
            i = i + 1;
        }
        return dots;
    }
    let available = max_width - 1;
    let left_len = available / 2;
    let right_len = available - left_len;
    let left = text.substring_char(0, left_len);
    let right = text.substring_char(n - right_len, n);
    let mut r = String::from_str(left);
    proof {
        reveal_strlit("\u{2026}");
        assert("\u{2026}"@ =~= seq![ellipsis_char()]);
    }
    r.append("\u{2026}");
    r.append(right);
    proof {
        assert(r@ =~= truncate_spec(text@, max_width as nat));
    }
    r
}

/// A text that already fits within the width is returned unchanged.
pub proof fn lemma_truncate_fits(text: Seq<char>, width: nat)
    requires
        text.len() <= width,
    ensures
        truncate_spec(text, width) == text,
{
}

/// Under a width too small for any content around a marker, a text that does
/// not fit is reduced to at most `width` characters, all of them ellipsis
/// dots.
pub proof fn lemma_truncate_tiny_width(text: Seq<char>, width: nat)
    requires
        width < 3,
        text.len() > width,
    ensures
        truncate_spec(text, width).len() <= width,
        forall|i: int|
            0 <= i < truncate_spec(text, width).len() ==> truncate_spec(text, width)[i] == '.',
{
}

/// At a workable width, a text that does not fit is cut to exactly `width`
/// characters: a prefix of the text, the ellipsis glyph, and a suffix of the
/// text.
pub proof fn lemma_truncate_exact(text: Seq<char>, width: nat)
    requires
        width >= 3,
        text.len() > width,
    ensures
        truncate_spec(text, width).len() == width,
        forall|i: int|
            0 <= i < ((width - 1) as nat) / 2 ==> truncate_spec(text, width)[i] == text[i],
        truncate_spec(text, width)[(((width - 1) as nat) / 2) as int] == ellipsis_char(),
        forall|j: int|
            ((width - 1) as nat) / 2 < j < width ==> truncate_spec(text, width)[j] == text[text.len() - width + j],
{
    let left = ((width - 1) as nat) / 2;
    let right = (width - 1 - left) as nat;
    let r = truncate_spec(text, width);
    assert(r.len() == width);
    assert forall|j: int| left < j < width implies r[j] == text[text.len() - width + j] by {
        assert(r[j] == text.skip(text.len() - right)[j - left - 1]);
    }
}

} // verus!
