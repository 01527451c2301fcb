//! Small helpers for strings that may be absent and for lists of strings.

use vstd::prelude::*;
use vstd::string::*;

verus! {

/// The characters of a string that may be absent.
pub open spec fn text_of(text: Option<String>) -> Option<Seq<char>> {
    match text {
        Some(text) => Some(text@),
        None => None,
    }
}

/// Appends a copy of `text` to `list`.
pub(crate) fn push_text(list: &mut Vec<String>, text: &str)
    ensures
        final(list).deep_view() == old(list).deep_view().push(text@),
{
    let ghost before = list.deep_view();
    list.push(String::from_str(text));
    assert(list.deep_view() =~= before.push(text@));
}

/// Appends a copy of every string of `more` to `list`, in order.
pub(crate) fn push_all(list: &mut Vec<String>, more: &Vec<String>)
    ensures
        final(list).deep_view() == old(list).deep_view() + more.deep_view(),
{
    let ghost before = list.deep_view();
    let mut i: usize = 0;
    while i < more.len()
        invariant
            i <= more.len(),
            list.deep_view() == before + more.deep_view().take(i as int),
        decreases more.len() - i,
    {
        push_text(list, more[i].as_str());
        assert(more.deep_view().take(i + 1) =~= more.deep_view().take(i as int).push(more[i as int]@));
        assert(before + more.deep_view().take(i as int).push(more[i as int]@) =~= (before
            + more.deep_view().take(i as int)).push(more[i as int]@));
        i += 1;
    }
}

} // verus!
