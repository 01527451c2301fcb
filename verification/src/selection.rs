//! The labels under which the candidates are shown to the operator.

use vstd::prelude::*;
use vstd::std_specs::iter::IteratorSpec;
use vstd::string::*;

verus! {

/// How many scalar values stand before the first line break of `text`:
/// all of them where it has no line break.
pub open spec fn line_end(text: Seq<char>) -> int
    decreases text.len(),
{
    if text.len() == 0 || text[0] == '\n' {
        0
    } else {
        1 + line_end(text.drop_first())
    }
}

/// The label of a candidate: its text up to the first line break, without
/// the break.
pub open spec fn label_of(text: Seq<char>) -> Seq<char> {
    text.take(line_end(text))
}

/// The labels of the candidates, one for each and in their order.
pub open spec fn labels_of(candidates: Seq<Seq<char>>) -> Seq<Seq<char>> {
    Seq::new(candidates.len(), |i: int| label_of(candidates[i]))
}

/// `line_end` is the place of the first line break: it lies within the
/// text, no line break stands before it, and one stands at it unless it is
/// the end of the text.
pub proof fn lemma_line_end(text: Seq<char>)
    ensures
        0 <= line_end(text) <= text.len(),
        forall|k: int| 0 <= k < line_end(text) ==> text[k] != '\n',
        line_end(text) < text.len() ==> text[line_end(text)] == '\n',
    decreases text.len(),
{
    if text.len() == 0 || text[0] == '\n' {
    } else {
        let rest = text.drop_first();
        lemma_line_end(rest);
        assert forall|k: int| 0 <= k < line_end(text) implies text[k] != '\n' by {
            if k > 0 {
                assert(text[k] == rest[k - 1]);
            }
        }
        if line_end(text) < text.len() {
            assert(text[line_end(text)] == rest[line_end(rest)]);
        }
    }
}

/// Any place with the two properties of the first line break is it.
pub proof fn lemma_line_end_unique(text: Seq<char>, at: int)
    requires
        0 <= at <= text.len(),
        forall|k: int| 0 <= k < at ==> text[k] != '\n',
        at < text.len() ==> text[at] == '\n',
    ensures
        line_end(text) == at,
{
    lemma_line_end(text);
    let end = line_end(text);
    if end < at {
        assert(text[end] != '\n');
    } else if at < end {
        assert(text[at] == '\n');
    }
}

/// A text without a line break is its own label, and a label holds no line
/// break.
pub proof fn lemma_label(text: Seq<char>)
    ensures
        (forall|k: int| 0 <= k < text.len() ==> text[k] != '\n') ==> label_of(text) == text,
        forall|k: int| 0 <= k < label_of(text).len() ==> label_of(text)[k] != '\n',
        label_of(label_of(text)) == label_of(text),
{
    lemma_line_end(text);
    if forall|k: int| 0 <= k < text.len() ==> text[k] != '\n' {
        lemma_line_end_unique(text, text.len() as int);
    }
    let label = label_of(text);
    assert forall|k: int| 0 <= k < label.len() implies label[k] != '\n' by {
        assert(label[k] == text[k]);
    }
    lemma_line_end_unique(label, label.len() as int);
}

/// There are as many labels as candidates.
pub proof fn lemma_labels_len(candidates: Seq<Seq<char>>)
    ensures
        labels_of(candidates).len() == candidates.len(),
{
}

/// Computes the label of a candidate.
pub fn label(text: &str) -> (first: String)
    ensures
        first@ == label_of(text@),
{
    let total = text.unicode_len();
    let mut chars = text.chars();
    let mut count: usize = 0;
    proof {
        assert(text@.skip(0) =~= text@);
    }
    loop
        invariant_except_break
            total == text@.len(),
            count <= total,
            chars.remaining() == text@.skip(count as int),
            line_end(text@) == count + line_end(text@.skip(count as int)),
        ensures
            count <= total,
            line_end(text@) == count,
        decreases total - count,
    {
        let ghost rest = text@.skip(count as int);
        match chars.next() {
            Some(c) => {
                if c == '\n' {
                    break ;
                }
                assert(rest.drop_first() =~= text@.skip(count + 1));
                count += 1;
            },
            None => {
                break ;
            },
        }
    }
    String::from_str(text.substring_char(0, count))
}

/// Computes the labels of the candidates.
pub fn labels(candidates: &Vec<String>) -> (shown: Vec<String>)
    ensures
        shown.deep_view() == labels_of(candidates.deep_view()),
        shown.len() == candidates.len(),
{
    let mut shown: Vec<String> = Vec::new();
    let mut i: usize = 0;
    while i < candidates.len()
        invariant
            i <= candidates.len(),
            shown.len() == i,
            forall|k: int| 0 <= k < i ==> shown[k]@ == label_of(candidates[k]@),
        decreases candidates.len() - i,
    {
        shown.push(label(candidates[i].as_str()));
        i += 1;
    }
    shown
}

} // verus!
