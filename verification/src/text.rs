//! Character-level string utilities: equality, scanning, trimming and
//! slicing, each with an exact contract over the string's view.

use vstd::prelude::*;
use vstd::string::StrSliceExecFns;
use vstd::string::StringExecFns;

verus! {

/// ASCII whitespace, the characters the line trimmer strips.
pub open spec fn is_space(c: char) -> bool {
    c == ' ' || c == '\t' || c == '\n' || c == '\r'
}

fn space_at(s: &str, i: usize) -> (r: bool)
    requires
        i < s@.len(),
    ensures
        r == is_space(s@[i as int]),
{
    let c = s.get_char(i);
    c == ' ' || c == '\t' || c == '\n' || c == '\r'
}

/// Character-wise string equality.
pub fn str_eq(a: &str, b: &str) -> (r: bool)
    ensures
        r == (a@ == b@),
{
    let alen = a.unicode_len();
    let blen = b.unicode_len();
    if alen != blen {
        return false;
    }
    let mut i: usize = 0;
    while i < alen
        invariant
            alen == a@.len(),
            alen == b@.len(),
            i <= alen,
            forall|j: int| 0 <= j < i ==> a@[j] == b@[j],
        decreases alen - i,
    {
        if a.get_char(i) != b.get_char(i) {
            return false;
        }
        i += 1;
    }
    assert(a@ =~= b@);
    true
}

/// The first position of `c` in `s` at or after `from`, if any.
pub open spec fn spec_find_char(s: Seq<char>, c: char, from: int) -> Option<int>
    decreases s.len() - from,
{
    if from < 0 || from >= s.len() {
        None
    } else if s[from] == c {
        Some(from)
    } else {
        spec_find_char(s, c, from + 1)
    }
}

/// Where `spec_find_char` answers, the answer is the first occurrence.
pub proof fn lemma_find_char_props(s: Seq<char>, c: char, from: int)
    requires
        0 <= from <= s.len(),
    ensures
        match spec_find_char(s, c, from) {
            Some(i) => from <= i < s.len() && s[i] == c && (forall|j: int|
                from <= j < i ==> s[j] != c),
            None => forall|j: int| from <= j < s.len() ==> s[j] != c,
        },
    decreases s.len() - from,
{
    if from < s.len() && s[from] != c {
        lemma_find_char_props(s, c, from + 1);
    }
}

/// Find the first occurrence of `c` in `s`.
pub fn find_char(s: &str, c: char) -> (r: Option<usize>)
    ensures
        r matches Some(i) ==> 0 <= i < s@.len(),
        r == match spec_find_char(s@, c, 0) {
            Some(i) => Some(i as usize),
            None => None::<usize>,
        },
{
    let n = s.unicode_len();
    let mut i: usize = 0;
    while i < n
        invariant
            n == s@.len(),
            i <= n,
            spec_find_char(s@, c, 0) == spec_find_char(s@, c, i as int),
        decreases n - i,
    {
        if s.get_char(i) == c {
            return Some(i);
        }
        i += 1;
    }
    None
}

/// Index of the first non-whitespace character at or after `from`
/// (`s.len()` if there is none).
pub open spec fn spec_trim_lo(s: Seq<char>, from: int) -> int
    decreases s.len() - from,
{
    if from < 0 || from >= s.len() {
        s.len() as int
    } else if is_space(s[from]) {
        spec_trim_lo(s, from + 1)
    } else {
        from
    }
}

/// Index just past the last non-whitespace character before `until`
/// (0 if there is none).
pub open spec fn spec_trim_hi(s: Seq<char>, until: int) -> int
    decreases until,
{
    if until <= 0 || until > s.len() {
        0
    } else if is_space(s[until - 1]) {
        spec_trim_hi(s, until - 1)
    } else {
        until
    }
}

/// The view of `s` with ASCII whitespace stripped from both ends.
pub open spec fn spec_trim(s: Seq<char>) -> Seq<char> {
    let lo = spec_trim_lo(s, 0);
    let hi = spec_trim_hi(s, s.len() as int);
    if lo <= hi {
        s.subrange(lo, hi)
    } else {
        Seq::empty()
    }
}

proof fn lemma_trim_hi_bound(s: Seq<char>, until: int)
    requires
        0 <= until <= s.len(),
    ensures
        0 <= spec_trim_hi(s, until) <= until,
    decreases until,
{
    if until > 0 && is_space(s[until - 1]) {
        lemma_trim_hi_bound(s, until - 1);
    }
}

/// Strip ASCII whitespace from both ends of `s`.
pub fn trim(s: &str) -> (r: &str)
    ensures
        r@ == spec_trim(s@),
{
    let n = s.unicode_len();
    let mut lo: usize = 0;
    while lo < n && space_at(s, lo)
        invariant
            n == s@.len(),
            lo <= n,
            spec_trim_lo(s@, 0) == spec_trim_lo(s@, lo as int),
        decreases n - lo,
    {
        lo += 1;
    }
    assert(spec_trim_lo(s@, lo as int) == lo);
    let mut hi: usize = n;
    while hi > lo && space_at(s, hi - 1)
        invariant
            n == s@.len(),
            lo <= hi <= n,
            spec_trim_lo(s@, 0) == lo,
            spec_trim_hi(s@, n as int) == spec_trim_hi(s@, hi as int),
        decreases hi,
    {
        hi -= 1;
    }
    proof {
        lemma_trim_hi_bound(s@, hi as int);
        if hi > lo {
            assert(spec_trim_hi(s@, hi as int) == hi as int);
        }
        assert(spec_trim(s@) =~= s@.subrange(lo as int, hi as int));
    }
    s.substring_char(lo, hi)
}

/// Copy a substring out as an owned `String`.
pub fn substring_to_string(s: &str, from: usize, to: usize) -> (r: String)
    requires
        from <= to <= s@.len(),
    ensures
        r@ == s@.subrange(from as int, to as int),
{
    String::from_str(s.substring_char(from, to))
}

/// Copy a `&str` into an owned `String`.
pub fn to_owned_string(s: &str) -> (r: String)
    ensures
        r@ == s@,
{
    String::from_str(s)
}

} // verus!
