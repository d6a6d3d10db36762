//! Small operations on text that the rest of the library is built from.

use vstd::prelude::*;
use vstd::string::StringExecFns;

verus! {

/// The characters of `s`, in order.
pub fn chars_of(s: &str) -> (v: Vec<char>)
    ensures
        v@ == s@,
{
    broadcast use vstd::string::group_string_axioms;

    let mut v: Vec<char> = Vec::new();
    for c in it: s.chars()
        invariant
            it.seq() == s@,
            v@ == it.seq().take(it.index()),
    {
        v.push(c);
    }
    v
}

/// `a` followed by `b`.
pub fn followed_by(a: &str, b: &str) -> (r: String)
    ensures
        r@ == a@ + b@,
{
    let mut r = String::from_str(a);
    r.append(b);
    r
}

/// Whether `text` ends with `suffix`.
pub open spec fn is_suffix(suffix: Seq<char>, text: Seq<char>) -> bool {
    suffix.len() <= text.len() && text.subrange(text.len() - suffix.len(), text.len() as int)
        == suffix
}

/// Whether `text` ends with `suffix`, compared character by character.
pub fn ends_with(text: &str, suffix: &str) -> (r: bool)
    ensures
        r == is_suffix(suffix@, text@),
{
    let t = chars_of(text);
    let s = chars_of(suffix);
    if s.len() > t.len() {
        return false;
    }
    let start: usize = t.len() - s.len();
    let mut i: usize = 0;
    while i < s.len()
        invariant
            i <= s.len(),
            t@ == text@,
            s@ == suffix@,
            start + s.len() == t.len(),
            forall|j: int| 0 <= j < i ==> t@[start + j] == s@[j],
        decreases s.len() - i,
    {
        if t[start + i] != s[i] {
            assert(t@.subrange(start as int, t@.len() as int)[i as int] != s@[i as int]);
            return false;
        }
        i += 1;
    }
    assert(t@.subrange(start as int, t@.len() as int) =~= s@);
    true
}

/// Where `target` first occurs in `text`, if it occurs at all.
pub open spec fn first_index_of(text: Seq<char>, target: char) -> Option<int> {
    if exists|i: int| 0 <= i < text.len() && text[i] == target {
        Some(choose|i: int| is_first_occurrence(text, target, i))
    } else {
        None
    }
}

/// Whether `target` stands at index `i` of `text` and nowhere before it.
pub open spec fn is_first_occurrence(text: Seq<char>, target: char, i: int) -> bool {
    &&& 0 <= i < text.len()
    &&& text[i] == target
    &&& forall|j: int| 0 <= j < i ==> text[j] != target
}

/// An index that is a first occurrence is the one that `first_index_of` names.
pub proof fn lemma_first_index_of(text: Seq<char>, target: char, i: int)
    requires
        is_first_occurrence(text, target, i),
    ensures
        first_index_of(text, target) == Some(i),
{
    let k = choose|k: int| is_first_occurrence(text, target, k);
    assert(is_first_occurrence(text, target, k));
    if k < i {
        assert(text[k] != target);
    } else if i < k {
        assert(text[i] != target);
    }
}

/// The index of the first `target` in `text`.
pub fn find_char(text: &str, target: char) -> (r: Option<usize>)
    ensures
        match r {
            Some(i) => first_index_of(text@, target) == Some(i as int) && is_first_occurrence(
                text@,
                target,
                i as int,
            ),
            None => first_index_of(text@, target) is None,
        },
{
    broadcast use vstd::string::group_string_axioms;

    let n = text.unicode_len();
    let mut i: usize = 0;
    for c in it: text.chars()
        invariant
            it.seq() == text@,
            n == text@.len(),
            i == it.index(),
            forall|j: int| 0 <= j < i ==> text@[j] != target,
    {
        if c == target {
            proof {
                lemma_first_index_of(text@, target, i as int);
            }
            return Some(i);
        }
        i += 1;
    }
    None
}

} // verus!
