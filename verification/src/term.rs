//! The text sent to a terminal line writer. An in-place redraw is a
//! carriage return, the rendered text, and a clear-to-end-of-line control
//! sequence; a final line is a carriage return, the text, and a newline.
//! Both are pure string constructions; the caller owns the output stream.

use vstd::prelude::*;

verus! {

use vstd::string::StringExecFns;

/// The character sequence that redraws the current terminal line as `text`.
pub open spec fn spec_rewrite_text(text: Seq<char>) -> Seq<char> {
    seq!['\r'] + text + seq!['\x1b', '[', 'K']
}

/// The character sequence that ends in-place updates with `text` as the
/// line's final content.
pub open spec fn spec_finish_text(text: Seq<char>) -> Seq<char> {
    seq!['\r'] + text + seq!['\n']
}

/// The line-rewrite sequence for `text`: carriage return, the text, then
/// clear to end of line.
pub fn rewrite_line(text: &str) -> (r: String)
    ensures
        r@ == spec_rewrite_text(text@),
{
    let mut out = String::new();
    out.push('\r');
    out.append(text);
    out.push('\x1b');
    out.push('[');
    out.push('K');
    proof {
        assert(out@ =~= spec_rewrite_text(text@));
    }
    out
}

/// The line-finishing sequence for `text`: carriage return, the text, then
/// a newline. Whatever the text, the result always ends with a newline.
pub fn finish_line(text: &str) -> (r: String)
    ensures
        r@ == spec_finish_text(text@),
        r@.len() == text@.len() + 2,
        r@.last() == '\n',
{
    let mut out = String::new();
    out.push('\r');
    out.append(text);
    out.push('\n');
    proof {
        assert(out@ =~= spec_finish_text(text@));
    }
    out
}

} // verus!
