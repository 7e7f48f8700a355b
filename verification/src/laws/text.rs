//! What holds of the text helpers.

use crate::utils::text::{contains, is_whitespace, occurs_at, trim_end, trim_start, trimmed};
use vstd::prelude::*;

verus! {

/// What the leading whitespace of a text is: the longest run of
/// whitespace that it begins with, and nothing else is taken away.
pub proof fn law_trim_start_drops_leading_whitespace(s: Seq<char>) -> (from: int)
    ensures
        0 <= from <= s.len(),
        trim_start(s) == s.subrange(from, s.len() as int),
        forall|i: int| 0 <= i < from ==> is_whitespace(#[trigger] s[i]),
        from < s.len() ==> !is_whitespace(s[from]),
    decreases s.len(),
{
    if s.len() > 0 && is_whitespace(s.first()) {
        let rest = s.drop_first();
        let from = law_trim_start_drops_leading_whitespace(rest);
        assert(rest.subrange(from, rest.len() as int) =~= s.subrange(from + 1, s.len() as int));
        assert forall|i: int| 0 <= i < from + 1 implies is_whitespace(#[trigger] s[i]) by {
            if i > 0 {
                assert(s[i] == rest[i - 1]);
            }
        }
        from + 1
    } else {
        assert(s.subrange(0, s.len() as int) =~= s);
        0
    }
}

/// What the trailing whitespace of a text is: the longest run of
/// whitespace that it ends with, and nothing else is taken away.
pub proof fn law_trim_end_drops_trailing_whitespace(s: Seq<char>) -> (to: int)
    ensures
        0 <= to <= s.len(),
        trim_end(s) == s.subrange(0, to),
        forall|i: int| to <= i < s.len() ==> is_whitespace(#[trigger] s[i]),
        0 < to ==> !is_whitespace(s[to - 1]),
    decreases s.len(),
{
    if s.len() > 0 && is_whitespace(s.last()) {
        let rest = s.drop_last();
        let to = law_trim_end_drops_trailing_whitespace(rest);
        assert(rest.subrange(0, to) =~= s.subrange(0, to));
        assert forall|i: int| to <= i < s.len() implies is_whitespace(#[trigger] s[i]) by {
            if i < rest.len() {
                assert(s[i] == rest[i]);
            }
        }
        to
    } else {
        assert(s.subrange(0, s.len() as int) =~= s);
        s.len() as int
    }
}

/// A trimmed text is the part of the text between its first and its last
/// character that is not whitespace, both included: all that is taken
/// away is whitespace, and what stays neither begins nor ends with any.
pub proof fn law_trimmed_is_the_core(s: Seq<char>) -> (bounds: (int, int))
    ensures
        0 <= bounds.0 <= bounds.1 <= s.len(),
        trimmed(s) == s.subrange(bounds.0, bounds.1),
        forall|i: int| 0 <= i < bounds.0 ==> is_whitespace(#[trigger] s[i]),
        forall|i: int| bounds.1 <= i < s.len() ==> is_whitespace(#[trigger] s[i]),
        bounds.0 < bounds.1 ==> !is_whitespace(s[bounds.0]) && !is_whitespace(s[bounds.1 - 1]),
        trimmed(s).len() > 0 ==> !is_whitespace(trimmed(s).first()) && !is_whitespace(
            trimmed(s).last(),
        ),
        trimmed(trimmed(s)) == trimmed(s),
{
    let from = law_trim_start_drops_leading_whitespace(s);
    let tail = trim_start(s);
    let to = law_trim_end_drops_trailing_whitespace(tail);
    assert(tail.subrange(0, to) =~= s.subrange(from, from + to));
    assert forall|i: int| from + to <= i < s.len() implies is_whitespace(#[trigger] s[i]) by {
        assert(s[i] == tail[i - from]);
    }
    if to > 0 {
        assert(tail[to - 1] == s[from + to - 1]);
        assert(tail[0] == s[from]);
    }
    let core = trimmed(s);
    let again = law_trim_start_drops_leading_whitespace(core);
    assert(again == 0);
    assert(core.subrange(0, core.len() as int) =~= core);
    let end = law_trim_end_drops_trailing_whitespace(core);
    assert(end == core.len());
    (from, from + to)
}

/// Every text holds the empty text and itself; and a text that holds
/// another is at least as long.
pub proof fn law_contains_is_substring(haystack: Seq<char>, needle: Seq<char>)
    ensures
        contains(haystack, Seq::empty()),
        contains(haystack, haystack),
        contains(haystack, needle) ==> needle.len() <= haystack.len(),
        contains(haystack, needle) <==> exists|before: Seq<char>, after: Seq<char>|
            haystack == before + needle + after,
{
    assert(occurs_at(haystack, Seq::empty(), 0)) by {
        assert(haystack.subrange(0, 0) =~= Seq::<char>::empty());
    }
    assert(occurs_at(haystack, haystack, 0)) by {
        assert(haystack.subrange(0, haystack.len() as int) =~= haystack);
    }
    if contains(haystack, needle) {
        let at = choose|at: int| occurs_at(haystack, needle, at);
        let before = haystack.subrange(0, at);
        let after = haystack.subrange(at + needle.len(), haystack.len() as int);
        assert(haystack =~= before + needle + after);
    }
    if exists|before: Seq<char>, after: Seq<char>| haystack == before + needle + after {
        let (before, after) = choose|before: Seq<char>, after: Seq<char>|
            haystack == before + needle + after;
        assert(haystack.subrange(before.len() as int, (before.len() + needle.len()) as int)
            =~= needle);
        assert(occurs_at(haystack, needle, before.len() as int));
    }
}

} // verus!
