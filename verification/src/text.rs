//! Searching text, character by character.

use vstd::prelude::*;
use vstd::string::*;

verus! {

/// An index that holds `mark` and has no `mark` before it is the first one.
pub proof fn lemma_first_index(s: Seq<char>, mark: char, i: int)
    requires
        0 <= i < s.len(),
        s[i] == mark,
        forall|j: int| 0 <= j < i ==> s[j] != mark,
    ensures
        s.index_of_first(mark) == Some(i),
{
    s.index_of_first_ensures(mark);
    assert(s.contains(mark));
    let k = s.index_of_first(mark).unwrap();
    if k < i {
        assert(s[k] != mark);
    }
}

/// An index that holds `mark` and has no `mark` after it is the last one.
pub proof fn lemma_last_index(s: Seq<char>, mark: char, i: int)
    requires
        0 <= i < s.len(),
        s[i] == mark,
        forall|j: int| i < j < s.len() ==> s[j] != mark,
    ensures
        s.index_of_last(mark) == Some(i),
{
    s.index_of_last_ensures(mark);
    assert(s.contains(mark));
    let k = s.index_of_last(mark).unwrap();
    if k > i {
        assert(s[k] != mark);
    }
}

/// A sequence without `mark` has neither a first nor a last one.
pub proof fn lemma_no_index(s: Seq<char>, mark: char)
    requires
        forall|j: int| 0 <= j < s.len() ==> s[j] != mark,
    ensures
        s.index_of_first(mark) is None,
        s.index_of_last(mark) is None,
{
    s.index_of_first_ensures(mark);
    s.index_of_last_ensures(mark);
}

/// Position of the first `mark` in `text`, if it holds one.
pub fn find_first(text: &str, mark: char) -> (at: Option<usize>)
    ensures
        match at {
            Some(i) => i < text@.len() && text@.index_of_first(mark) == Some(i as int),
            None => text@.index_of_first(mark) is None,
        },
{
    let n = text.unicode_len();
    let mut i: usize = 0;
    for c in it: text.chars()
        invariant
            i == it.index(),
            n == text@.len(),
            it.seq() == text@,
            forall|j: int| 0 <= j < i ==> text@[j] != mark,
    {
        if c == mark {
            proof {
                lemma_first_index(text@, mark, i as int);
            }
            return Some(i);
        }
        i += 1;
    }
    proof {
        lemma_no_index(text@, mark);
    }
    None
}

/// Position of the last `mark` in `text`, if it holds one.
pub fn find_last(text: &str, mark: char) -> (at: Option<usize>)
    ensures
        match at {
            Some(i) => i < text@.len() && text@.index_of_last(mark) == Some(i as int),
            None => text@.index_of_last(mark) is None,
        },
{
    let n = text.unicode_len();
    let mut i: usize = 0;
    let mut found: Option<usize> = None;
    for c in it: text.chars()
        invariant
            i == it.index(),
            n == text@.len(),
            it.seq() == text@,
            match found {
                Some(k) => k < i && text@[k as int] == mark && forall|j: int|
                    k < j < i ==> text@[j] != mark,
                None => forall|j: int| 0 <= j < i ==> text@[j] != mark,
            },
    {
        if c == mark {
            found = Some(i);
        }
        i += 1;
    }
    proof {
        match found {
            Some(k) => lemma_last_index(text@, mark, k as int),
            None => lemma_no_index(text@, mark),
        }
    }
    found
}

} // verus!
