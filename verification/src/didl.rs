//! Pieces of the DIDL-Lite documents that describe a track to a renderer.
use crate::text::str_chars;
use crate::xml::{push_escaped, xml_escape};
use vstd::prelude::*;

verus! {

/// `<tag>`, the escaped value and `</tag>`.
pub open spec fn element(open: Seq<char>, value: Seq<char>, close: Seq<char>) -> Seq<char> {
    open + xml_escape(value) + close
}

/// The element for an optional value (nothing when absent).
pub open spec fn opt_element(open: Seq<char>, value: Option<String>, close: Seq<char>) -> Seq<char> {
    match value {
        Some(v) => element(open, v@, close),
        None => Seq::empty(),
    }
}

/// The value, or `default` when absent.
pub open spec fn or_default(value: Option<String>, default: Seq<char>) -> Seq<char> {
    match value {
        Some(v) => v@,
        None => default,
    }
}

/// Appends a text.
pub fn push_text(out: &mut Vec<char>, s: &str)
    ensures
        final(out)@ == old(out)@ + s@,
{
    let cs = str_chars(s);
    let ghost start = out@;
    let mut i: usize = 0;
    while i < cs.len()
        invariant
            cs@ == s@,
            i <= cs@.len(),
            out@ == start + cs@.subrange(0, i as int),
        decreases cs@.len() - i,
    {
        out.push(cs[i]);
        i = i + 1;
        assert(out@ =~= start + cs@.subrange(0, i as int));
    }
    assert(cs@.subrange(0, cs@.len() as int) =~= s@);
}

/// Appends an element with an escaped value.
pub fn push_element(out: &mut Vec<char>, open: &str, value: &str, close: &str)
    ensures
        final(out)@ == old(out)@ + element(open@, value@, close@),
{
    let ghost start = out@;
    push_text(out, open);
    push_escaped(out, value);
    push_text(out, close);
    assert(out@ =~= start + element(open@, value@, close@));
}

/// Appends the element of an optional value.
pub fn push_opt_element(out: &mut Vec<char>, open: &str, value: &Option<String>, close: &str)
    ensures
        final(out)@ == old(out)@ + opt_element(open@, *value, close@),
{
    match value {
        Some(v) => push_element(out, open, v.as_str(), close),
        None => {
            assert(out@ =~= out@ + Seq::<char>::empty());
        },
    }
}

} // verus!
