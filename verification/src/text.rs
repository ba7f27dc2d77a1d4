use vstd::prelude::*;
use vstd::string::*;

verus! {

/// Whether two string slices hold the same characters.
pub fn str_eq(a: &str, b: &str) -> (same: bool)
    ensures
        same == (a@ == b@),
{
    let left = String::from_str(a);
    let right = String::from_str(b);
    left == right
}

/// `needle` stands at the end of `text`.
pub open spec fn ends_with(text: Seq<char>, needle: Seq<char>) -> bool {
    needle.len() <= text.len() && text.subrange(text.len() - needle.len(), text.len() as int)
        == needle
}

/// `needle` occurs somewhere in `text`.
pub open spec fn contains(text: Seq<char>, needle: Seq<char>) -> bool {
    exists|at: int|
        0 <= at && at + needle.len() <= text.len() && #[trigger] text.subrange(
            at,
            at + needle.len(),
        ) == needle
}

/// A text built of three parts holds the middle one.
pub proof fn lemma_contains_middle(head: Seq<char>, middle: Seq<char>, tail: Seq<char>)
    ensures
        contains(head + middle + tail, middle),
{
    let whole = head + middle + tail;
    let at = head.len() as int;
    assert(whole.subrange(at, at + middle.len()) =~= middle);
}

/// A text ends with its last part.
pub proof fn lemma_ends_with_tail(head: Seq<char>, tail: Seq<char>)
    ensures
        ends_with(head + tail, tail),
{
    let whole = head + tail;
    assert(whole.subrange(whole.len() - tail.len(), whole.len() as int) =~= tail);
}

} // verus!
