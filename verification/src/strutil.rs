//! String-building helpers: appending single characters and joining rendered
//! segments with spaces.

use vstd::prelude::*;

verus! {

use vstd::string::StringExecFns;

/// Relies on `String::push`: appends the given character to the end of the
/// string.
pub assume_specification [ String::push ](s: &mut String, ch: char)
    ensures
        final(s)@ == old(s)@.push(ch),
;

/// The segments of `parts` concatenated with a single space between
/// consecutive segments.
pub open spec fn join_spaced(parts: Seq<Seq<char>>) -> Seq<char>
    decreases parts.len(),
{
    if parts.len() == 0 {
        Seq::empty()
    } else if parts.len() == 1 {
        parts[0]
    } else {
        join_spaced(parts.drop_last()) + seq![' '] + parts.last()
    }
}

/// Joins the rendered segments with single spaces, in order.
pub fn join_parts(parts: &Vec<String>) -> (r: String)
    ensures
        r@ == join_spaced(parts@.map_values(|p: String| p@)),
{
    let ghost views = parts@.map_values(|p: String| p@);
    let mut out = String::new();
    let mut i: usize = 0;
    while i < parts.len()
        invariant
            i <= parts.len(),
            views == parts@.map_values(|p: String| p@),
            out@ == join_spaced(views.take(i as int)),
        decreases parts.len() - i,
    {
        if i > 0 {
            out.push(' ');
        }
        out.append(parts[i].as_str());
        proof {
            let taken = views.take(i + 1);
            assert(taken.drop_last() =~= views.take(i as int));
            assert(taken.last() == views[i as int]);
            assert(out@ =~= join_spaced(taken));
        }
        i += 1;
    }
    proof {
        assert(views.take(parts.len() as int) =~= views);
    }
    out
}

} // verus!
