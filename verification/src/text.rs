//! Character-sequence utilities shared by the detector, the resolver and the
//! address parser: first occurrence of a separator, splitting, prefix and
//! suffix tests.

use vstd::prelude::*;

verus! {

/// True when `c` occurs somewhere in `s`.
pub open spec fn has_char(s: Seq<char>, c: char) -> bool {
    exists|i: int| 0 <= i < s.len() && s[i] == c
}

/// Index of the first occurrence of `c` in `s`, or `s.len()` when `c` does
/// not occur.
pub open spec fn first_index(s: Seq<char>, c: char) -> nat
    decreases s.len(),
{
    if s.len() == 0 {
        0
    } else if s[0] == c {
        0
    } else {
        1 + first_index(s.subrange(1, s.len() as int), c)
    }
}

pub proof fn lemma_first_index(s: Seq<char>, c: char)
    ensures
        first_index(s, c) <= s.len(),
        first_index(s, c) < s.len() ==> s[first_index(s, c) as int] == c,
        forall|j: int| 0 <= j < first_index(s, c) ==> s[j] != c,
    decreases s.len(),
{
    if s.len() == 0 {
    } else if s[0] == c {
    } else {
        let t = s.subrange(1, s.len() as int);
        lemma_first_index(t, c);
        assert forall|j: int| 0 <= j < first_index(s, c) implies s[j] != c by {
            if j > 0 {
                assert(t[j - 1] != c);
            }
        }
    }
}

pub proof fn lemma_first_index_is(s: Seq<char>, c: char, i: int)
    requires
        0 <= i <= s.len(),
        i < s.len() ==> s[i] == c,
        forall|j: int| 0 <= j < i ==> s[j] != c,
    ensures
        first_index(s, c) == i,
    decreases s.len(),
{
    if s.len() == 0 {
    } else if s[0] == c {
        assert(i == 0);
    } else {
        let t = s.subrange(1, s.len() as int);
        assert(i >= 1);
        assert forall|j: int| 0 <= j < i - 1 implies t[j] != c by {
            assert(t[j] == s[j + 1]);
        }
        assert(i - 1 < t.len() ==> t[i - 1] == s[i]);
        lemma_first_index_is(t, c, i - 1);
    }
}

/// The pieces of `s` between occurrences of `c`; always at least one piece.
pub open spec fn split_on(s: Seq<char>, c: char) -> Seq<Seq<char>>
    decreases s.len(),
{
    let i = first_index(s, c);
    if i >= s.len() {
        seq![s]
    } else {
        seq![s.subrange(0, i as int)] + split_on(s.subrange(i + 1 as int, s.len() as int), c)
    }
}

/// Finds the first occurrence of `c` in `s` at or after position `from`.
pub fn find_char_from(s: &str, c: char, from: usize) -> (r: Option<usize>)
    requires
        from <= s@.len(),
    ensures
        match r {
            Some(i) => from <= i < s@.len() && s@[i as int] == c && (forall|j: int|
                from <= j < i ==> s@[j] != c),
            None => forall|j: int| from <= j < s@.len() ==> s@[j] != c,
        },
{
    let n = s.unicode_len();
    let mut i: usize = from;
    while i < n
        invariant
            from <= i <= n,
            n == s@.len(),
            forall|j: int| from <= j < i ==> s@[j] != c,
        decreases n - i,
    {
        if s.get_char(i) == c {
            return Some(i);
        }
        i = i + 1;
    }
    None
}

/// True when `c` occurs in `s`.
pub fn contains_char(s: &str, c: char) -> (r: bool)
    ensures
        r == has_char(s@, c),
{
    let found = find_char_from(s, c, 0);
    match found {
        Some(i) => {
            assert(has_char(s@, c)) by {
                assert(0 <= i < s@.len() && s@[i as int] == c);
            }
            true
        },
        None => {
            assert(!has_char(s@, c));
            false
        },
    }
}

/// Splits `s` on `c`; the pieces follow `split_on` exactly.
pub fn split_str(s: &str, c: char) -> (r: Vec<String>)
    ensures
        r@.len() == split_on(s@, c).len(),
        forall|k: int| 0 <= k < r@.len() ==> #[trigger] r@[k]@ == split_on(s@, c)[k],
{
    let n = s.unicode_len();
    let mut r: Vec<String> = Vec::new();
    let mut start: usize = 0;
    proof {
        assert(s@.subrange(0, n as int) =~= s@);
        assert(r.deep_view() =~= Seq::<Seq<char>>::empty());
        assert(r.deep_view() + split_on(s@, c) =~= split_on(s@, c));
    }
    loop
        invariant_except_break
            start <= n,
            n == s@.len(),
            split_on(s@, c) == r.deep_view() + split_on(s@.subrange(start as int, n as int), c),
        ensures
            split_on(s@, c) == r.deep_view(),
        decreases n - start,
    {
        let ghost rest = s@.subrange(start as int, n as int);
        let found = find_char_from(s, c, start);
        match found {
            Some(j) => {
                proof {
                    assert forall|jj: int| 0 <= jj < j - start implies rest[jj] != c by {
                        assert(rest[jj] == s@[start + jj]);
                    }
                    assert(rest[j - start] == c);
                    lemma_first_index_is(rest, c, j - start);
                }
                let piece = s.substring_char(start, j);
                let ghost prev_acc = r.deep_view();
                r.push(piece.to_owned());
                proof {
                    assert(r.deep_view() =~= prev_acc.push(s@.subrange(start as int, j as int)));
                    assert(r.deep_view().subrange(0, r.deep_view().len() - 1) =~= prev_acc);
                    hint_split_append(s@, c, r.deep_view(), start as int, j as int, n as int);
                }
                start = j + 1;
            },
            None => {
                proof {
                    assert forall|jj: int| 0 <= jj < rest.len() implies rest[jj] != c by {
                        assert(rest[jj] == s@[start + jj]);
                    }
                    lemma_first_index_is(rest, c, rest.len() as int);
                    assert(split_on(rest, c) == seq![rest]);
                }
                let piece = s.substring_char(start, n);
                let ghost prev_acc = r.deep_view();
                r.push(piece.to_owned());
                proof {
                    assert(r.deep_view() =~= prev_acc.push(rest));
                    assert(prev_acc + seq![rest] =~= prev_acc.push(rest));
                    assert(split_on(s@, c) == r.deep_view());
                }
                break ;
            },
        }
    }
    proof {
        assert forall|k: int| 0 <= k < r@.len() implies #[trigger] r@[k]@ == split_on(s@, c)[k] by {
            assert(r.deep_view()[k] == r@[k].deep_view());
        }
    }
    r
}

proof fn hint_split_append(s: Seq<char>, c: char, acc: Seq<Seq<char>>, start: int, j: int, n: int)
    requires
        n == s.len(),
        0 <= start <= j < n,
        first_index(s.subrange(start, n), c) == j - start,
        acc.len() >= 1,
        split_on(s, c) == acc.subrange(0, acc.len() - 1) + split_on(s.subrange(start, n), c),
        acc[acc.len() - 1] == s.subrange(start, j),
    ensures
        split_on(s, c) == acc + split_on(s.subrange(j + 1, n), c),
{
    let rest = s.subrange(start, n);
    assert(rest.subrange(0, j - start) =~= s.subrange(start, j));
    assert(rest.subrange(j - start + 1, rest.len() as int) =~= s.subrange(j + 1, n));
    assert(split_on(rest, c) == seq![s.subrange(start, j)] + split_on(s.subrange(j + 1, n), c));
    assert(acc.subrange(0, acc.len() - 1) + (seq![s.subrange(start, j)] + split_on(
        s.subrange(j + 1, n),
        c,
    )) =~= acc + split_on(s.subrange(j + 1, n), c));
}

/// Splits `s` at the first occurrence of `c` into the part before and the
/// part after, or `None` when `c` does not occur. Mirrors how an environment
/// entry `NAME=value` is cut at its first equals sign.
pub fn split_once_char(s: &str, c: char) -> (r: Option<(String, String)>)
    ensures
        has_char(s@, c) ==> (r matches Some(kv) && kv.0@ == s@.subrange(
            0,
            first_index(s@, c) as int,
        ) && kv.1@ == s@.subrange(first_index(s@, c) + 1 as int, s@.len() as int)),
        !has_char(s@, c) ==> r is None,
{
    let n = s.unicode_len();
    let found = find_char_from(s, c, 0);
    match found {
        Some(i) => {
            proof {
                lemma_first_index_is(s@, c, i as int);
                assert(has_char(s@, c)) by {
                    assert(0 <= i < s@.len() && s@[i as int] == c);
                }
            }
            let before = s.substring_char(0, i).to_owned();
            let after = s.substring_char(i + 1, n).to_owned();
            Some((before, after))
        },
        None => {
            assert(!has_char(s@, c));
            None
        },
    }
}

/// Horizontal whitespace, as trimmed from the ends of a configuration
/// line; a carriage return left by a Windows line ending counts too.
pub open spec fn is_blank(c: char) -> bool {
    c == ' ' || c == '\t' || c == '\r'
}

/// Number of blank characters at the start of `s`.
pub open spec fn trim_start_idx(s: Seq<char>) -> nat
    decreases s.len(),
{
    if s.len() == 0 {
        0
    } else if is_blank(s[0]) {
        1 + trim_start_idx(s.subrange(1, s.len() as int))
    } else {
        0
    }
}

/// Position just after the last non-blank character of `s`.
pub open spec fn trim_end_idx(s: Seq<char>) -> nat
    decreases s.len(),
{
    if s.len() == 0 {
        0
    } else if is_blank(s[s.len() - 1]) {
        trim_end_idx(s.subrange(0, s.len() - 1))
    } else {
        s.len()
    }
}

/// `s` without leading and trailing blanks.
pub open spec fn trimmed(s: Seq<char>) -> Seq<char> {
    if trim_start_idx(s) < trim_end_idx(s) {
        s.subrange(trim_start_idx(s) as int, trim_end_idx(s) as int)
    } else {
        Seq::empty()
    }
}

pub proof fn lemma_trim_start_is(s: Seq<char>, i: int)
    requires
        0 <= i <= s.len(),
        forall|j: int| 0 <= j < i ==> is_blank(s[j]),
        i < s.len() ==> !is_blank(s[i]),
    ensures
        trim_start_idx(s) == i,
    decreases s.len(),
{
    if s.len() == 0 {
    } else if is_blank(s[0]) {
        let t = s.subrange(1, s.len() as int);
        assert(i >= 1);
        assert forall|j: int| 0 <= j < i - 1 implies is_blank(t[j]) by {
            assert(t[j] == s[j + 1]);
        }
        assert(i - 1 < t.len() ==> t[i - 1] == s[i]);
        lemma_trim_start_is(t, i - 1);
    } else {
        assert(i == 0);
    }
}

pub proof fn lemma_trim_end_is(s: Seq<char>, i: int)
    requires
        0 <= i <= s.len(),
        forall|j: int| i <= j < s.len() ==> is_blank(s[j]),
        i > 0 ==> !is_blank(s[i - 1]),
    ensures
        trim_end_idx(s) == i,
    decreases s.len(),
{
    if s.len() == 0 {
    } else if is_blank(s[s.len() - 1]) {
        let t = s.subrange(0, s.len() - 1);
        assert(i < s.len());
        assert forall|j: int| i <= j < t.len() implies is_blank(t[j]) by {
            assert(t[j] == s[j]);
        }
        assert(i > 0 ==> t[i - 1] == s[i - 1]);
        lemma_trim_end_is(t, i);
    } else {
        assert(i == s.len());
    }
}

/// Checks a character for horizontal whitespace.
pub fn is_blank_char(c: char) -> (r: bool)
    ensures
        r == is_blank(c),
{
    c == ' ' || c == '\t' || c == '\r'
}

/// Removes leading and trailing blanks, as `trimmed` says.
pub fn trim_str(s: &str) -> (r: String)
    ensures
        r@ == trimmed(s@),
{
    let n = s.unicode_len();
    let mut a: usize = 0;
    while a < n && is_blank_char(s.get_char(a))
        invariant
            a <= n,
            n == s@.len(),
            forall|j: int| 0 <= j < a ==> is_blank(s@[j]),
        decreases n - a,
    {
        a = a + 1;
    }
    proof {
        lemma_trim_start_is(s@, a as int);
    }
    if a == n {
        proof {
            lemma_trim_end_is(s@, 0);
        }
        return String::new();
    }
    let mut b: usize = n;
    while b > a && is_blank_char(s.get_char(b - 1))
        invariant
            a <= b <= n,
            n == s@.len(),
            !is_blank(s@[a as int]),
            forall|j: int| b <= j < n ==> is_blank(s@[j]),
        decreases b,
    {
        b = b - 1;
    }
    proof {
        if b == a {
            assert(is_blank(s@[a as int]));
        }
        assert(b > a);
        lemma_trim_end_is(s@, b as int);
    }
    s.substring_char(a, b).to_owned()
}

/// Joining a path onto a base directory: an absolute path replaces the
/// base, a relative one is appended after a slash.
pub open spec fn path_join_spec(base: Seq<char>, rel: Seq<char>) -> Seq<char> {
    if rel.len() > 0 && rel[0] == '/' {
        rel
    } else {
        base + seq!['/'] + rel
    }
}

/// Joins a path onto a base directory as `path_join_spec` says.
pub fn path_join(base: &str, rel: &str) -> (r: String)
    ensures
        r@ == path_join_spec(base@, rel@),
{
    if rel.unicode_len() > 0 && rel.get_char(0) == '/' {
        rel.to_owned()
    } else {
        let mut s = base.to_owned();
        s.append("/");
        s.append(rel);
        proof {
            reveal_strlit("/");
            assert("/"@ =~= seq!['/']);
            assert(s@ =~= base@ + seq!['/'] + rel@);
        }
        s
    }
}

/// True when `p` is a prefix of `s`.
pub open spec fn starts_with_seq(s: Seq<char>, p: Seq<char>) -> bool {
    p.len() <= s.len() && s.subrange(0, p.len() as int) == p
}

/// True when `p` is a suffix of `s`.
pub open spec fn ends_with_seq(s: Seq<char>, p: Seq<char>) -> bool {
    p.len() <= s.len() && s.subrange(s.len() - p.len(), s.len() as int) == p
}

pub fn str_starts_with(s: &str, p: &str) -> (r: bool)
    ensures
        r == starts_with_seq(s@, p@),
{
    let sn = s.unicode_len();
    let pn = p.unicode_len();
    if pn > sn {
        return false;
    }
    let mut i: usize = 0;
    while i < pn
        invariant
            i <= pn <= sn,
            sn == s@.len(),
            pn == p@.len(),
            forall|j: int| 0 <= j < i ==> s@[j] == p@[j],
        decreases pn - i,
    {
        if s.get_char(i) != p.get_char(i) {
            proof {
                assert(s@.subrange(0, p@.len() as int)[i as int] == s@[i as int]);
            }
            return false;
        }
        i = i + 1;
    }
    proof {
        assert(s@.subrange(0, p@.len() as int) =~= p@);
    }
    true
}

pub fn str_ends_with(s: &str, p: &str) -> (r: bool)
    ensures
        r == ends_with_seq(s@, p@),
{
    let sn = s.unicode_len();
    let pn = p.unicode_len();
    if pn > sn {
        return false;
    }
    let off = sn - pn;
    let mut i: usize = 0;
    while i < pn
        invariant
            i <= pn <= sn,
            off == sn - pn,
            sn == s@.len(),
            pn == p@.len(),
            forall|j: int| 0 <= j < i ==> s@[off + j] == p@[j],
        decreases pn - i,
    {
        if s.get_char(off + i) != p.get_char(i) {
            proof {
                assert(s@.subrange(s@.len() - p@.len(), s@.len() as int)[i as int] == s@[off + i]);
            }
            return false;
        }
        i = i + 1;
    }
    proof {
        assert(s@.subrange(s@.len() - p@.len(), s@.len() as int) =~= p@);
    }
    true
}

} // verus!
