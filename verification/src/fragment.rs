//! Occurrence of one text inside another, character by character.

use vstd::prelude::*;

verus! {

/// `fragment` stands in `text` from position `at` on: every character of
/// `fragment`, in order, with nothing in between.
pub open spec fn occurs_at(text: Seq<char>, fragment: Seq<char>, at: int) -> bool {
    &&& 0 <= at
    &&& at + fragment.len() <= text.len()
    &&& text.subrange(at, at + fragment.len()) == fragment
}

/// `fragment` stands somewhere in `text`. The empty fragment stands in every
/// text.
pub open spec fn has_fragment(text: Seq<char>, fragment: Seq<char>) -> bool {
    exists|at: int| occurs_at(text, fragment, at)
}

/// Tells whether `fragment` stands in `text` at position `at`. Where the
/// text ends before the fragment would, it does not.
pub fn matches_at(text: &Vec<char>, fragment: &Vec<char>, at: usize) -> (found: bool)
    ensures
        found == occurs_at(text@, fragment@, at as int),
{
    if at > text.len() || fragment.len() > text.len() - at {
        return false;
    }
    let mut k: usize = 0;
    while k < fragment.len()
        invariant
            k <= fragment.len(),
            at + fragment.len() <= text.len(),
            forall|j: int| 0 <= j < k ==> text@[at + j] == fragment@[j],
        decreases fragment.len() - k,
    {
        if text[at + k] != fragment[k] {
            proof {
                let window = text@.subrange(at as int, at + fragment.len());
                assert(window[k as int] == text@[at + k]);
            }
            return false;
        }
        k += 1;
    }
    assert(text@.subrange(at as int, at + fragment.len()) =~= fragment@);
    true
}

/// Tells whether `fragment` stands somewhere in `text`, trying each position
/// from the left.
pub fn find_fragment(text: &Vec<char>, fragment: &Vec<char>) -> (found: bool)
    ensures
        found == has_fragment(text@, fragment@),
{
    if fragment.len() > text.len() {
        return false;
    }
    let last: usize = text.len() - fragment.len();
    let mut at: usize = 0;
    loop
        invariant
            last == text.len() - fragment.len(),
            at <= last,
            forall|earlier: int| 0 <= earlier < at ==> !occurs_at(text@, fragment@, earlier),
        decreases last - at,
    {
        if matches_at(text, fragment, at) {
            return true;
        }
        if at == last {
            return false;
        }
        at += 1;
    }
}

/// The characters of `text`, in order.
pub fn chars_of(text: &str) -> (chars: Vec<char>)
    ensures
        chars@ == text@,
{
    let mut chars: Vec<char> = Vec::new();
    for c in walk: text.chars()
        invariant
            chars@ == walk.seq().take(walk.index()),
    {
        chars.push(c);
    }
    chars
}

/// Tells whether `fragment` stands somewhere in `text`: the characters must
/// agree exactly, so the letter case counts and nothing is normalised.
pub fn contains_fragment(text: &str, fragment: &str) -> (found: bool)
    ensures
        found == has_fragment(text@, fragment@),
{
    let text_chars = chars_of(text);
    let fragment_chars = chars_of(fragment);
    find_fragment(&text_chars, &fragment_chars)
}

} // verus!
