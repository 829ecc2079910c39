//! Searching and trimming over sequences of scalar values, and the string
//! operations built on them.

use vstd::prelude::*;
use vstd::std_specs::iter::IteratorSpec;
use vstd::string::StrSliceExecFns;

verus! {

/// Whether `c` carries the Unicode `White_Space` property.
pub open spec fn is_whitespace(c: char) -> bool {
    ||| '\u{9}' <= c <= '\u{D}'
    ||| c == ' '
    ||| c == '\u{85}'
    ||| c == '\u{A0}'
    ||| c == '\u{1680}'
    ||| '\u{2000}' <= c <= '\u{200A}'
    ||| c == '\u{2028}'
    ||| c == '\u{2029}'
    ||| c == '\u{202F}'
    ||| c == '\u{205F}'
    ||| c == '\u{3000}'
}

/// Whether `c` is one of the six ASCII scalars that are whitespace: tab, line
/// feed, vertical tab, form feed, carriage return and space.
pub open spec fn is_ascii_whitespace(c: char) -> bool {
    '\u{9}' <= c <= '\u{D}' || c == ' '
}

/// Whether `s` neither begins nor ends with an ASCII whitespace scalar.
pub open spec fn no_surrounding_ascii_whitespace(s: Seq<char>) -> bool {
    s.len() > 0 ==> !is_ascii_whitespace(s[0]) && !is_ascii_whitespace(s.last())
}

/// `s` without its longest prefix of whitespace.
pub open spec fn trimmed_start(s: Seq<char>) -> Seq<char>
    decreases s.len(),
{
    if s.len() > 0 && is_whitespace(s[0]) {
        trimmed_start(s.drop_first())
    } else {
        s
    }
}

/// `s` without its longest suffix of whitespace.
pub open spec fn trimmed_end(s: Seq<char>) -> Seq<char>
    decreases s.len(),
{
    if s.len() > 0 && is_whitespace(s.last()) {
        trimmed_end(s.drop_last())
    } else {
        s
    }
}

/// `s` without the whitespace that surrounds it.
pub open spec fn trimmed(s: Seq<char>) -> Seq<char> {
    trimmed_end(trimmed_start(s))
}

/// Index of the first scalar at or after `from` that equals `c`; `s.len()`
/// when there is none.
pub open spec fn find_char(s: Seq<char>, c: char, from: int) -> int
    decreases s.len() - from,
{
    if from < 0 || from >= s.len() {
        s.len() as int
    } else if s[from] == c {
        from
    } else {
        find_char(s, c, from + 1)
    }
}

/// Index of the last scalar before `end` that equals `c`; `-1` when there is
/// none.
pub open spec fn rfind_char(s: Seq<char>, c: char, end: int) -> int
    decreases end,
{
    if end <= 0 || end > s.len() {
        -1
    } else if s[end - 1] == c {
        end - 1
    } else {
        rfind_char(s, c, end - 1)
    }
}

/// `find_char` is the one index `k` at or after `from` such that `c` does not
/// occur in `[from, k)` and occurs at `k` unless `k` is the length.
pub proof fn lemma_find_char_is(s: Seq<char>, c: char, from: int, k: int)
    requires
        0 <= from <= k <= s.len(),
        forall|j: int| from <= j < k ==> s[j] != c,
        k < s.len() ==> s[k] == c,
    ensures
        find_char(s, c, from) == k,
    decreases k - from,
{
    if from < k {
        lemma_find_char_is(s, c, from + 1, k);
    }
}

/// What `find_char` returns: an index in `[from, s.len()]` before which `c`
/// does not occur and at which it does, unless it is the length.
pub proof fn lemma_find_char_props(s: Seq<char>, c: char, from: int)
    requires
        0 <= from <= s.len(),
    ensures
        from <= find_char(s, c, from) <= s.len(),
        forall|j: int| from <= j < find_char(s, c, from) ==> s[j] != c,
        find_char(s, c, from) < s.len() ==> s[find_char(s, c, from)] == c,
    decreases s.len() - from,
{
    if from < s.len() && s[from] != c {
        lemma_find_char_props(s, c, from + 1);
    }
}

/// What `rfind_char` returns: an index in `[-1, end)` after which `c` does not
/// occur before `end`, and at which it does, unless it is `-1`.
pub proof fn lemma_rfind_char_props(s: Seq<char>, c: char, end: int)
    requires
        0 <= end <= s.len(),
    ensures
        -1 <= rfind_char(s, c, end) < end,
        forall|j: int| rfind_char(s, c, end) < j < end ==> s[j] != c,
        rfind_char(s, c, end) >= 0 ==> s[rfind_char(s, c, end)] == c,
    decreases end,
{
    if end > 0 && s[end - 1] != c {
        lemma_rfind_char_props(s, c, end - 1);
    }
}

/// Trimming the start leaves the suffix that begins at the first scalar that
/// is not whitespace.
pub proof fn lemma_trimmed_start_is_suffix(s: Seq<char>, a: int)
    requires
        0 <= a <= s.len(),
        forall|j: int| 0 <= j < a ==> is_whitespace(s[j]),
        a < s.len() ==> !is_whitespace(s[a]),
    ensures
        trimmed_start(s) == s.subrange(a, s.len() as int),
    decreases a,
{
    if a == 0 {
        assert(s.subrange(0, s.len() as int) =~= s);
    } else {
        let rest = s.drop_first();
        assert forall|j: int| 0 <= j < a - 1 implies is_whitespace(rest[j]) by {
            assert(rest[j] == s[j + 1]);
        }
        lemma_trimmed_start_is_suffix(rest, a - 1);
        assert(rest.subrange(a - 1, rest.len() as int) =~= s.subrange(a, s.len() as int));
    }
}

/// Trimming the end leaves the prefix that stops after the last scalar that
/// is not whitespace.
pub proof fn lemma_trimmed_end_is_prefix(s: Seq<char>, b: int)
    requires
        0 <= b <= s.len(),
        forall|j: int| b <= j < s.len() ==> is_whitespace(s[j]),
        b > 0 ==> !is_whitespace(s[b - 1]),
    ensures
        trimmed_end(s) == s.subrange(0, b),
    decreases s.len() - b,
{
    if b == s.len() {
        assert(s.subrange(0, b) =~= s);
    } else {
        let rest = s.drop_last();
        lemma_trimmed_end_is_prefix(rest, b);
        assert(rest.subrange(0, b) =~= s.subrange(0, b));
    }
}

/// Trimming leaves the stretch between the first and the last scalar that are
/// not whitespace, and nothing where every scalar is whitespace.
pub proof fn lemma_trimmed_is_subrange(s: Seq<char>, a: int, b: int)
    requires
        0 <= a <= b <= s.len(),
        forall|j: int| 0 <= j < a ==> is_whitespace(s[j]),
        forall|j: int| b <= j < s.len() ==> is_whitespace(s[j]),
        a < b ==> !is_whitespace(s[a]) && !is_whitespace(s[b - 1]),
    ensures
        trimmed(s) == s.subrange(a, b),
{
    if a < b {
        lemma_trimmed_start_is_suffix(s, a);
        let tail = s.subrange(a, s.len() as int);
        lemma_trimmed_end_is_prefix(tail, b - a);
        assert(tail.subrange(0, b - a) =~= s.subrange(a, b));
    } else {
        // Every scalar is whitespace: the start alone consumes the sequence.
        lemma_trimmed_start_is_suffix(s, s.len() as int);
        assert(s.subrange(s.len() as int, s.len() as int) =~= Seq::<char>::empty());
        assert(s.subrange(a, b) =~= Seq::<char>::empty());
    }
}

/// What is left after trimming neither begins nor ends with whitespace.
pub proof fn lemma_trimmed_has_no_surrounding_whitespace(s: Seq<char>)
    ensures
        trimmed(s).len() > 0 ==> !is_whitespace(trimmed(s)[0]) && !is_whitespace(
            trimmed(s).last(),
        ),
{
    lemma_trimmed_start_keeps_head(s);
    lemma_trimmed_end_keeps_head(trimmed_start(s));
    lemma_trimmed_end_props(trimmed_start(s));
}

/// Trimming the start yields nothing or a sequence whose first scalar is not
/// whitespace.
pub proof fn lemma_trimmed_start_keeps_head(s: Seq<char>)
    ensures
        trimmed_start(s).len() > 0 ==> !is_whitespace(trimmed_start(s)[0]),
    decreases s.len(),
{
    if s.len() > 0 && is_whitespace(s[0]) {
        lemma_trimmed_start_keeps_head(s.drop_first());
    }
}

/// Trimming the end yields a prefix, and so keeps the first scalar where
/// anything is left.
pub proof fn lemma_trimmed_end_keeps_head(s: Seq<char>)
    ensures
        trimmed_end(s).len() <= s.len(),
        trimmed_end(s).len() > 0 ==> trimmed_end(s)[0] == s[0],
    decreases s.len(),
{
    if s.len() > 0 && is_whitespace(s.last()) {
        lemma_trimmed_end_keeps_head(s.drop_last());
    }
}

/// Trimming the end yields nothing or a sequence whose last scalar is not
/// whitespace.
pub proof fn lemma_trimmed_end_props(s: Seq<char>)
    ensures
        trimmed_end(s).len() > 0 ==> !is_whitespace(trimmed_end(s).last()),
    decreases s.len(),
{
    if s.len() > 0 && is_whitespace(s.last()) {
        lemma_trimmed_end_props(s.drop_last());
    }
}

/// Tells whether `c` is whitespace.
pub fn char_is_whitespace(c: char) -> (b: bool)
    ensures
        b == is_whitespace(c),
{
    ('\u{9}' <= c && c <= '\u{D}') || c == ' ' || c == '\u{85}' || c == '\u{A0}' || c
        == '\u{1680}' || ('\u{2000}' <= c && c <= '\u{200A}') || c == '\u{2028}' || c
        == '\u{2029}' || c == '\u{202F}' || c == '\u{205F}' || c == '\u{3000}'
}

/// The part of `s` between its first and its last scalar that are not
/// whitespace.
pub fn trim(s: &str) -> (r: &str)
    ensures
        r@ == trimmed(s@),
{
    let n: usize = s.unicode_len();
    let mut start: usize = 0;
    let mut end: usize = 0;
    let mut i: usize = 0;
    for c in it: s.chars()
        invariant
            n == s@.len(),
            it.seq() == s@,
            i == it.index(),
            start <= end <= i,
            forall|j: int| 0 <= j < start ==> is_whitespace(s@[j]),
            forall|j: int| end <= j < i ==> is_whitespace(s@[j]),
            start < end ==> !is_whitespace(s@[start as int]) && !is_whitespace(s@[end - 1]),
            start == end ==> start == i,
    {
        if char_is_whitespace(c) {
            if start == i {
                start = i + 1;
                end = i + 1;
            }
        } else {
            end = i + 1;
        }
        i = i + 1;
    }
    proof {
        lemma_trimmed_is_subrange(s@, start as int, end as int);
    }
    s.substring_char(start, end)
}

/// Tells whether `s` begins with the scalar `c`.
pub fn starts_with_char(s: &str, c: char) -> (b: bool)
    ensures
        b == (s@.len() > 0 && s@[0] == c),
{
    let mut scalars = s.chars();
    match scalars.next() {
        Some(first) => first == c,
        None => false,
    }
}

/// Tells whether `a` and `b` hold the same scalars.
pub fn str_eq(a: &str, b: &str) -> (same: bool)
    ensures
        same == (a@ == b@),
{
    let mut others = b.chars();
    let ghost mut k: int = 0;
    for x in it: a.chars()
        invariant
            it.seq() == a@,
            k == it.index(),
            k <= b@.len(),
            others.remaining() == b@.skip(k),
            forall|j: int| 0 <= j < k ==> a@[j] == b@[j],
    {
        match others.next() {
            Some(y) => {
                if x != y {
                    return false;
                }
            },
            None => {
                return false;
            },
        }
        proof {
            k = k + 1;
        }
    }
    match others.next() {
        Some(_) => false,
        None => {
            assert(a@ =~= b@);
            true
        },
    }
}

/// What follows `prefix` in `s`, where `s` begins with it.
pub fn strip_prefix<'a>(s: &'a str, prefix: &str) -> (r: Option<&'a str>)
    ensures
        match r {
            Some(rest) => prefix@.is_prefix_of(s@) && rest@ == s@.skip(prefix@.len() as int),
            None => !prefix@.is_prefix_of(s@),
        },
{
    let n: usize = s.unicode_len();
    let mut scalars = s.chars();
    let mut k: usize = 0;
    for p in it: prefix.chars()
        invariant
            n == s@.len(),
            it.seq() == prefix@,
            k == it.index(),
            k <= n,
            scalars.remaining() == s@.skip(k as int),
            forall|j: int| 0 <= j < k ==> s@[j] == prefix@[j],
    {
        match scalars.next() {
            Some(c) => {
                if c != p {
                    return None;
                }
            },
            None => {
                return None;
            },
        }
        k = k + 1;
    }
    Some(s.substring_char(k, n))
}

} // verus!
