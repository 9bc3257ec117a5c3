//! Character-level operations on strings.

use vstd::prelude::*;
use vstd::string::*;

verus! {

/// Whether two strings hold the same characters.
pub fn str_eq(a: &str, b: &str) -> (r: bool)
    ensures
        r == (a@ == b@),
{
    let n = a.unicode_len();
    if n != b.unicode_len() {
        return false;
    }
    let mut i: usize = 0;
    while i < n
        invariant
            n == a@.len(),
            n == b@.len(),
            i <= n,
            forall|j: int| 0 <= j < i ==> a@[j] == b@[j],
        decreases n - i,
    {
        if a.get_char(i) != b.get_char(i) {
            return false;
        }
        i = i + 1;
    }
    assert(a@ =~= b@);
    true
}

/// The view of an optional string.
pub open spec fn opt_view(o: Option<String>) -> Option<Seq<char>> {
    match o {
        Some(s) => Some(s@),
        None => None,
    }
}

/// `s` without every leading `c`.
pub open spec fn trim_start(s: Seq<char>, c: char) -> Seq<char>
    decreases s.len(),
{
    if s.len() > 0 && s[0] == c {
        trim_start(s.drop_first(), c)
    } else {
        s
    }
}

/// `s` without every trailing `c`.
pub open spec fn trim_end(s: Seq<char>, c: char) -> Seq<char>
    decreases s.len(),
{
    if s.len() > 0 && s.last() == c {
        trim_end(s.drop_last(), c)
    } else {
        s
    }
}

proof fn lemma_trim_start(s: Seq<char>, c: char, k: int)
    requires
        0 <= k <= s.len(),
        forall|j: int| 0 <= j < k ==> s[j] == c,
        k == s.len() || s[k] != c,
    ensures
        trim_start(s, c) == s.subrange(k, s.len() as int),
    decreases k,
{
    if k == 0 {
        assert(s.subrange(0, s.len() as int) =~= s);
    } else {
        lemma_trim_start(s.drop_first(), c, k - 1);
        assert(s.drop_first().subrange(k - 1, s.len() - 1) =~= s.subrange(k, s.len() as int));
    }
}

proof fn lemma_trim_end(s: Seq<char>, c: char, k: int)
    requires
        0 <= k <= s.len(),
        forall|j: int| k <= j < s.len() ==> s[j] == c,
        k == 0 || s[k - 1] != c,
    ensures
        trim_end(s, c) == s.subrange(0, k),
    decreases s.len() - k,
{
    if k == s.len() {
        assert(s.subrange(0, k) =~= s);
    } else {
        lemma_trim_end(s.drop_last(), c, k);
        assert(s.drop_last().subrange(0, k) =~= s.subrange(0, k));
    }
}

proof fn lemma_trim_start_shape(s: Seq<char>, c: char)
    ensures
        trim_start(s, c).len() == 0 || trim_start(s, c)[0] != c,
    decreases s.len(),
{
    if s.len() > 0 && s[0] == c {
        lemma_trim_start_shape(s.drop_first(), c);
    }
}

proof fn lemma_trim_end_shape(s: Seq<char>, c: char)
    ensures
        trim_end(s, c).len() <= s.len(),
        trim_end(s, c) == s.subrange(0, trim_end(s, c).len() as int),
        trim_end(s, c).len() == 0 || trim_end(s, c).last() != c,
    decreases s.len(),
{
    if s.len() > 0 && s.last() == c {
        lemma_trim_end_shape(s.drop_last(), c);
        let t = trim_end(s.drop_last(), c);
        assert(s.drop_last().subrange(0, t.len() as int) =~= s.subrange(0, t.len() as int));
    } else {
        assert(s.subrange(0, s.len() as int) =~= s);
    }
}

/// After the trimming, the text neither starts with `open` nor ends with
/// `close`, and it is a piece of the original text.
pub proof fn lemma_trim_both_shape(s: Seq<char>, open: char, close: char)
    ensures
        trim_end(trim_start(s, open), close).len() == 0 || (trim_end(trim_start(s, open), close)[0] != open
            && trim_end(trim_start(s, open), close).last() != close),
        trim_end(trim_start(s, open), close).len() <= s.len(),
{
    let t = trim_start(s, open);
    lemma_trim_start_shape(s, open);
    lemma_trim_end_shape(t, close);
    lemma_trim_start_len(s, open);
    let u = trim_end(t, close);
    if u.len() > 0 {
        assert(u[0] == t[0]);
    }
}

proof fn lemma_trim_start_len(s: Seq<char>, c: char)
    ensures
        trim_start(s, c).len() <= s.len(),
    decreases s.len(),
{
    if s.len() > 0 && s[0] == c {
        lemma_trim_start_len(s.drop_first(), c);
    }
}

/// `s` without every leading `open` and then every trailing `close`, as
/// `s.trim_start_matches(open).trim_end_matches(close)` gives it.
pub fn trim_both(s: &str, open: char, close: char) -> (r: String)
    ensures
        r@ == trim_end(trim_start(s@, open), close),
{
    let n = s.unicode_len();
    let mut from: usize = 0;
    while from < n && s.get_char(from) == open
        invariant
            n == s@.len(),
            from <= n,
            forall|j: int| 0 <= j < from ==> s@[j] == open,
        decreases n - from,
    {
        from = from + 1;
    }
    proof {
        lemma_trim_start(s@, open, from as int);
    }
    let ghost rest = s@.subrange(from as int, n as int);
    let mut to: usize = n;
    while to > from && s.get_char(to - 1) == close
        invariant
            n == s@.len(),
            from <= to <= n,
            rest == s@.subrange(from as int, n as int),
            forall|j: int| to <= j < n ==> s@[j] == close,
        decreases to,
    {
        to = to - 1;
    }
    proof {
        assert forall|j: int| to - from <= j < rest.len() implies rest[j] == close by {
            assert(rest[j] == s@[j + from]);
        }
        if to > from {
            assert(rest[to - from - 1] == s@[to - 1]);
        }
        lemma_trim_end(rest, close, to - from);
        assert(rest.subrange(0, to - from) =~= s@.subrange(from as int, to as int));
    }
    s.substring_char(from, to).to_owned()
}

} // verus!
