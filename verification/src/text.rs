//! Sequences of characters: searching, trimming and splitting them.
//!
//! The specification functions speak of `Seq<char>`, the view of a string. The
//! executable functions work on slices of characters and are proved against
//! them.

use vstd::prelude::*;

verus! {

/// Whether `pattern` stands in `s` at index `i`.
pub open spec fn occurs_at(s: Seq<char>, pattern: Seq<char>, i: int) -> bool {
    &&& 0 <= i
    &&& i + pattern.len() <= s.len()
    &&& s.subrange(i, i + pattern.len()) =~= pattern
}

/// Whether `pattern` stands somewhere in `s`.
pub open spec fn contains_pattern(s: Seq<char>, pattern: Seq<char>) -> bool {
    exists|i: int| occurs_at(s, pattern, i)
}

/// Whether `pattern` stands in `s` at index `i` and at no index before it.
pub open spec fn is_first_occurrence(s: Seq<char>, pattern: Seq<char>, i: int) -> bool {
    &&& occurs_at(s, pattern, i)
    &&& forall|j: int| 0 <= j < i ==> !occurs_at(s, pattern, j)
}

/// The least index at which `pattern` stands in `s`, if it stands in it at all.
pub open spec fn first_occurrence(s: Seq<char>, pattern: Seq<char>) -> Option<int> {
    if contains_pattern(s, pattern) {
        Some(choose|i: int| is_first_occurrence(s, pattern, i))
    } else {
        None
    }
}

/// `s` without the characters equal to `c` that it begins with.
pub open spec fn trim_start(s: Seq<char>, c: char) -> Seq<char>
    decreases s.len(),
{
    if s.len() > 0 && s[0] == c {
        trim_start(s.drop_first(), c)
    } else {
        s
    }
}

/// `s` without `suffix` at its end, once; `s` itself where it does not end with it.
pub open spec fn strip_suffix(s: Seq<char>, suffix: Seq<char>) -> Seq<char> {
    if suffix.is_suffix_of(s) {
        s.take(s.len() - suffix.len())
    } else {
        s
    }
}

/// The part of `s` behind the last `c`; `s` itself where it holds no `c`.
pub open spec fn after_last(s: Seq<char>, c: char) -> Seq<char> {
    match s.index_of_last(c) {
        Some(i) => s.skip(i + 1),
        None => s,
    }
}

/// Among the indices at which a pattern stands there is a least one.
proof fn lemma_least_occurrence(s: Seq<char>, pattern: Seq<char>, i: int)
    requires
        occurs_at(s, pattern, i),
    ensures
        exists|k: int| is_first_occurrence(s, pattern, k),
    decreases i,
{
    if exists|j: int| 0 <= j < i && occurs_at(s, pattern, j) {
        let j = choose|j: int| 0 <= j < i && occurs_at(s, pattern, j);
        lemma_least_occurrence(s, pattern, j);
    } else {
        assert(is_first_occurrence(s, pattern, i));
    }
}

/// What `first_occurrence` returns is the first occurrence, and `None` means
/// that there is none.
pub proof fn lemma_first_occurrence(s: Seq<char>, pattern: Seq<char>)
    ensures
        match first_occurrence(s, pattern) {
            Some(i) => is_first_occurrence(s, pattern, i),
            None => forall|i: int| !occurs_at(s, pattern, i),
        },
{
    if contains_pattern(s, pattern) {
        let i = choose|i: int| occurs_at(s, pattern, i);
        lemma_least_occurrence(s, pattern, i);
    }
}

/// A first occurrence is the one that `first_occurrence` returns.
pub proof fn lemma_first_occurrence_is(s: Seq<char>, pattern: Seq<char>, i: int)
    requires
        is_first_occurrence(s, pattern, i),
    ensures
        first_occurrence(s, pattern) == Some(i),
{
    lemma_first_occurrence(s, pattern);
    let k = first_occurrence(s, pattern).unwrap();
    if k < i {
        assert(!occurs_at(s, pattern, k));
    }
    if i < k {
        assert(!occurs_at(s, pattern, i));
    }
}

/// The first index of a character is the one before which it does not occur.
pub proof fn lemma_index_of_first_is(s: Seq<char>, c: char, i: int)
    requires
        0 <= i < s.len(),
        s[i] == c,
        forall|j: int| 0 <= j < i ==> s[j] != c,
    ensures
        s.index_of_first(c) == Some(i),
{
    s.index_of_first_ensures(c);
    assert(s.contains(c));
    let k = s.index_of_first(c).unwrap();
    if k < i {
        assert(s[k] != c);
    }
    if i < k {
        assert(s[i] != c);
    }
}

/// The last index of a character is the one behind which it does not occur.
pub proof fn lemma_index_of_last_is(s: Seq<char>, c: char, i: int)
    requires
        0 <= i < s.len(),
        s[i] == c,
        forall|j: int| i < j < s.len() ==> s[j] != c,
    ensures
        s.index_of_last(c) == Some(i),
{
    s.index_of_last_ensures(c);
    assert(s.contains(c));
    let k = s.index_of_last(c).unwrap();
    if k < i {
        assert(s[i] != c);
    }
    if i < k {
        assert(s[k] != c);
    }
}

/// Trimming takes away exactly the run of `c` at the start.
pub proof fn lemma_trim_start_is(s: Seq<char>, c: char, n: int)
    requires
        0 <= n <= s.len(),
        forall|j: int| 0 <= j < n ==> s[j] == c,
        n == s.len() || s[n] != c,
    ensures
        trim_start(s, c) == s.skip(n),
    decreases n,
{
    if n == 0 {
        assert(s.skip(0) =~= s);
    } else {
        let rest = s.drop_first();
        assert forall|j: int| 0 <= j < n - 1 implies rest[j] == c by {
            assert(rest[j] == s[j + 1]);
        }
        lemma_trim_start_is(rest, c, n - 1);
        assert(rest.skip(n - 1) =~= s.skip(n));
    }
}

/// What is left after trimming does not begin with `c`, and is `s` where `s`
/// does not begin with `c`.
pub proof fn lemma_trim_start_ensures(s: Seq<char>, c: char)
    ensures
        trim_start(s, c).len() <= s.len(),
        trim_start(s, c).len() > 0 ==> trim_start(s, c)[0] != c,
        (s.len() == 0 || s[0] != c) ==> trim_start(s, c) == s,
    decreases s.len(),
{
    if s.len() > 0 && s[0] == c {
        lemma_trim_start_ensures(s.drop_first(), c);
    }
}

/// The characters of `s`, in order.
pub(crate) fn chars_of(s: &str) -> (chars: Vec<char>)
    ensures
        chars@ == s@,
{
    let mut chars: Vec<char> = Vec::new();
    for c in it: s.chars()
        invariant
            it.seq() == s@,
            chars@ == s@.take(it.index() as int),
    {
        chars.push(c);
    }
    chars
}

/// Whether `pattern` stands in `s` at index `at`.
pub(crate) fn matches_at(s: &[char], pattern: &[char], at: usize) -> (found: bool)
    ensures
        found == occurs_at(s@, pattern@, at as int),
{
    if pattern.len() > s.len() || at > s.len() - pattern.len() {
        return false;
    }
    let mut k: usize = 0;
    while k < pattern.len()
        invariant
            k <= pattern.len(),
            at + pattern.len() <= s.len(),
            forall|j: int| 0 <= j < k ==> s@[at + j] == pattern@[j],
        decreases pattern.len() - k,
    {
        if s[at + k] != pattern[k] {
            assert(s@.subrange(at as int, at + pattern@.len())[k as int] != pattern@[k as int]);
            return false;
        }
        k += 1;
    }
    true
}

/// The least index at which `pattern` stands in `s`.
pub(crate) fn find(s: &[char], pattern: &[char]) -> (at: Option<usize>)
    ensures
        match at {
            Some(i) => first_occurrence(s@, pattern@) == Some(i as int),
            None => first_occurrence(s@, pattern@) is None,
        },
{
    let mut i: usize = 0;
    while i < s.len()
        invariant
            i <= s.len(),
            forall|j: int| 0 <= j < i ==> !occurs_at(s@, pattern@, j),
        decreases s.len() - i,
    {
        if matches_at(s, pattern, i) {
            proof {
                lemma_first_occurrence_is(s@, pattern@, i as int);
            }
            return Some(i);
        }
        i += 1;
    }
    if matches_at(s, pattern, i) {
        proof {
            lemma_first_occurrence_is(s@, pattern@, i as int);
        }
        Some(i)
    } else {
        assert forall|j: int| !occurs_at(s@, pattern@, j) by {}
        None
    }
}

/// The index of the first `c` in `s`.
pub(crate) fn index_of(s: &[char], c: char) -> (at: Option<usize>)
    ensures
        match at {
            Some(i) => s@.index_of_first(c) == Some(i as int),
            None => s@.index_of_first(c) is None,
        },
{
    let mut i: usize = 0;
    while i < s.len()
        invariant
            i <= s.len(),
            forall|j: int| 0 <= j < i ==> s@[j] != c,
        decreases s.len() - i,
    {
        if s[i] == c {
            proof {
                lemma_index_of_first_is(s@, c, i as int);
            }
            return Some(i);
        }
        i += 1;
    }
    proof {
        s@.index_of_first_ensures(c);
    }
    None
}

/// The index of the last `c` in `s`.
pub(crate) fn last_index_of(s: &[char], c: char) -> (at: Option<usize>)
    ensures
        match at {
            Some(i) => s@.index_of_last(c) == Some(i as int),
            None => s@.index_of_last(c) is None,
        },
{
    let mut i: usize = s.len();
    while i > 0
        invariant
            i <= s.len(),
            forall|j: int| i <= j < s.len() ==> s@[j] != c,
        decreases i,
    {
        i -= 1;
        if s[i] == c {
            proof {
                lemma_index_of_last_is(s@, c, i as int);
            }
            return Some(i);
        }
    }
    proof {
        s@.index_of_last_ensures(c);
    }
    None
}

/// How many characters equal to `c` stand at the start of `s`.
pub(crate) fn leading(s: &[char], c: char) -> (n: usize)
    ensures
        n <= s.len(),
        trim_start(s@, c) == s@.skip(n as int),
{
    let mut n: usize = 0;
    while n < s.len() && s[n] == c
        invariant
            n <= s.len(),
            forall|j: int| 0 <= j < n ==> s@[j] == c,
        decreases s.len() - n,
    {
        n += 1;
    }
    proof {
        lemma_trim_start_is(s@, c, n as int);
    }
    n
}

/// Whether `s` ends with `suffix`.
pub(crate) fn ends_with(s: &[char], suffix: &[char]) -> (found: bool)
    ensures
        found == suffix@.is_suffix_of(s@),
{
    if suffix.len() > s.len() {
        return false;
    }
    matches_at(s, suffix, s.len() - suffix.len())
}

} // verus!
