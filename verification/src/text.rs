//! Character sequences and substring search.

use vstd::prelude::*;

verus! {

/// `pattern` occurs in `text` as a contiguous run that starts at position `at`.
pub open spec fn occurs_at(text: Seq<char>, pattern: Seq<char>, at: int) -> bool {
    &&& 0 <= at
    &&& at + pattern.len() <= text.len()
    &&& text.subrange(at, at + pattern.len()) == pattern
}

/// `pattern` occurs somewhere in `text` as a contiguous run of characters.
/// The empty pattern occurs in every text.
pub open spec fn is_substring(text: Seq<char>, pattern: Seq<char>) -> bool {
    exists|at: int| occurs_at(text, pattern, at)
}

/// The lowercase form of `text`: what `str::to_lowercase` returns for it. The
/// mapping follows the Unicode character database and is not one character for
/// one, so it is named here and not spelled out.
pub uninterp spec fn lowercase(text: Seq<char>) -> Seq<char>;

/// `str::to_lowercase` of the standard library, taken on trust: the result
/// depends on the characters of `text` alone and is named `lowercase`.
pub assume_specification[ str::to_lowercase ](text: &str) -> (lowered: String)
    ensures
        lowered@ == lowercase(text@),
;

/// The characters of a string, in order.
pub fn chars_of(s: &str) -> (chars: Vec<char>)
    ensures
        chars@ == s@,
{
    let mut chars: Vec<char> = Vec::new();
    for c in it: s.chars()
        invariant
            chars@ == it.seq().take(it.index()),
            it.seq() == s@,
    {
        chars.push(c);
    }
    chars
}

/// Whether `pattern` occurs in `text` at position `at`.
pub fn matches_at(text: &Vec<char>, pattern: &Vec<char>, at: usize) -> (found: bool)
    requires
        at + pattern.len() <= text.len(),
    ensures
        found == occurs_at(text@, pattern@, at as int),
{
    let mut k: usize = 0;
    while k < pattern.len()
        invariant
            k <= pattern.len(),
            at + pattern.len() <= text.len(),
            forall|j: int| 0 <= j < k ==> text@[at + j] == pattern@[j],
        decreases pattern.len() - k,
    {
        if text[at + k] != pattern[k] {
            proof {
                let run = text@.subrange(at as int, at + pattern.len());
                assert(run[k as int] == text@[at + k]);
            }
            return false;
        }
        k += 1;
    }
    assert(text@.subrange(at as int, at + pattern.len()) =~= pattern@);
    true
}

/// Whether `pattern` occurs somewhere in `text`.
pub fn contains(text: &Vec<char>, pattern: &Vec<char>) -> (found: bool)
    ensures
        found == is_substring(text@, pattern@),
{
    if pattern.len() > text.len() {
        return false;
    }
    let last: usize = text.len() - pattern.len();
    let mut at: usize = 0;
    loop
        invariant
            at <= last,
            last == text.len() - pattern.len(),
            pattern.len() <= text.len(),
            forall|i: int| 0 <= i < at ==> !occurs_at(text@, pattern@, i),
        decreases last - at,
    {
        if matches_at(text, pattern, at) {
            return true;
        }
        if at == last {
            return false;
        }
        at += 1;
    }
}

/// Every text occurs in itself.
pub proof fn lemma_substring_of_itself(text: Seq<char>)
    ensures
        is_substring(text, text),
{
    assert(text.subrange(0, text.len() as int) =~= text);
    assert(occurs_at(text, text, 0));
}

/// What occurs in a part of a text occurs in the text: if `pattern` occurs in
/// `inner` and `inner` occurs in `outer`, then `pattern` occurs in `outer`.
pub proof fn lemma_substring_of_substring(outer: Seq<char>, inner: Seq<char>, pattern: Seq<char>)
    requires
        is_substring(inner, pattern),
        is_substring(outer, inner),
    ensures
        is_substring(outer, pattern),
{
    let i = choose|i: int| occurs_at(inner, pattern, i);
    let o = choose|o: int| occurs_at(outer, inner, o);
    let run = outer.subrange(o, o + inner.len());
    assert(outer.subrange(o + i, o + i + pattern.len()) =~= run.subrange(i, i + pattern.len()));
    assert(occurs_at(outer, pattern, o + i));
}

} // verus!
