//! Verified character-level string helpers shared by the whole crate.

use vstd::prelude::*;

verus! {

use vstd::string::StrSliceExecFns;

/// Character-for-character equality of two string slices.
pub fn str_eq(a: &str, b: &str) -> (r: bool)
    ensures
        r == (a@ == b@),
{
    let na = a.unicode_len();
    let nb = b.unicode_len();
    if na != nb {
        return false;
    }
    let mut i: usize = 0;
    while i < na
        invariant
            na == a@.len(),
            na == b@.len(),
            i <= na,
            forall|j: int| 0 <= j < i ==> a@[j] == b@[j],
        decreases na - i,
    {
        if a.get_char(i) != b.get_char(i) {
            return false;
        }
        i = i + 1;
    }
    proof {
        assert(a@ =~= b@);
    }
    true
}

/// `a` read case-insensitively matches the character `b` of a lowercase
/// keyword: either exactly, or `a` is the ASCII uppercase of `b`.
pub open spec fn ci_eq_char(a: char, b: char) -> bool {
    a == b || (65 <= a as int <= 90 && a as int + 32 == b as int)
}

/// `s` matches the all-lowercase ASCII keyword `k` up to ASCII case.
pub open spec fn ci_eq(s: Seq<char>, k: Seq<char>) -> bool {
    s.len() == k.len() && forall|i: int| 0 <= i < s.len() ==> ci_eq_char(s[i], k[i])
}

/// Case-insensitive comparison of `s` against a lowercase ASCII keyword.
pub fn eq_ignore_case(s: &str, k: &str) -> (r: bool)
    ensures
        r == ci_eq(s@, k@),
{
    let ns = s.unicode_len();
    let nk = k.unicode_len();
    if ns != nk {
        return false;
    }
    let mut i: usize = 0;
    while i < ns
        invariant
            ns == s@.len(),
            ns == k@.len(),
            i <= ns,
            forall|j: int| 0 <= j < i ==> ci_eq_char(s@[j], k@[j]),
        decreases ns - i,
    {
        let a: u32 = s.get_char(i) as u32;
        let b: u32 = k.get_char(i) as u32;
        if !(a == b || (65 <= a && a <= 90 && a + 32 == b)) {
            return false;
        }
        i = i + 1;
    }
    true
}

/// Clone a vector of strings; string cloning is exact, so the copy has
/// the very same view.
pub fn clone_string_vec(v: &Vec<String>) -> (r: Vec<String>)
    ensures
        r@ == v@,
{
    let r = v.clone();
    proof {
        assert forall|i: int| 0 <= i < v@.len() implies r@[i] == v@[i] by {
            assert(vstd::pervasive::cloned::<String>(v@[i], r@[i]));
        }
        assert(r@ =~= v@);
    }
    r
}

/// ASCII whitespace, the characters stripped when testing for blank
/// content.
pub open spec fn is_space(c: char) -> bool {
    c as int == 32 || 9 <= c as int <= 13
}

/// Nothing but whitespace (or nothing at all).
pub open spec fn is_blank(s: Seq<char>) -> bool {
    forall|i: int| 0 <= i < s.len() ==> is_space(s[i])
}

/// Does the string trim away to nothing?
pub fn is_blank_str(s: &str) -> (r: bool)
    ensures
        r == is_blank(s@),
{
    let n = s.unicode_len();
    let mut i: usize = 0;
    while i < n
        invariant
            n == s@.len(),
            i <= n,
            forall|j: int| 0 <= j < i ==> is_space(s@[j]),
        decreases n - i,
    {
        let c: u32 = s.get_char(i) as u32;
        if !(c == 32 || (9 <= c && c <= 13)) {
            return false;
        }
        i = i + 1;
    }
    true
}

/// `s` starts with `p`.
pub open spec fn has_prefix(s: Seq<char>, p: Seq<char>) -> bool {
    s.len() >= p.len() && s.take(p.len() as int) == p
}

/// Prefix test over characters.
pub fn str_has_prefix(s: &str, p: &str) -> (r: bool)
    ensures
        r == has_prefix(s@, p@),
{
    let ns = s.unicode_len();
    let np = p.unicode_len();
    if ns < np {
        proof {
            assert(!has_prefix(s@, p@));
        }
        return false;
    }
    let mut i: usize = 0;
    while i < np
        invariant
            ns == s@.len(),
            np == p@.len(),
            np <= ns,
            i <= np,
            forall|j: int| 0 <= j < i ==> s@[j] == p@[j],
        decreases np - i,
    {
        if s.get_char(i) != p.get_char(i) {
            proof {
                assert(s@.take(np as int)[i as int] != p@[i as int]);
            }
            return false;
        }
        i = i + 1;
    }
    proof {
        assert(s@.take(np as int) =~= p@);
    }
    true
}

/// The index of the first occurrence of `c` in `s`, or -1.
pub open spec fn spec_first_index(s: Seq<char>, c: char) -> int
    decreases s.len(),
{
    if s.len() == 0 {
        -1
    } else if s[0] == c {
        0
    } else {
        let r = spec_first_index(s.drop_first(), c);
        if r == -1 {
            -1
        } else {
            r + 1
        }
    }
}

/// The index of the last occurrence of `c` in `s`, or -1.
pub open spec fn spec_last_index(s: Seq<char>, c: char) -> int
    decreases s.len(),
{
    if s.len() == 0 {
        -1
    } else if s.last() == c {
        s.len() - 1
    } else {
        spec_last_index(s.drop_last(), c)
    }
}

/// Characterisation: `spec_first_index` really is the first hit.
pub proof fn lemma_first_index_char(s: Seq<char>, c: char)
    ensures
        spec_first_index(s, c) == -1 ==> forall|i: int| 0 <= i < s.len() ==> s[i] != c,
        spec_first_index(s, c) != -1 ==> 0 <= spec_first_index(s, c) < s.len() && s[spec_first_index(
            s,
            c,
        )] == c && forall|i: int| 0 <= i < spec_first_index(s, c) ==> s[i] != c,
    decreases s.len(),
{
    if s.len() > 0 && s[0] != c {
        let d = s.drop_first();
        lemma_first_index_char(d, c);
        let r = spec_first_index(d, c);
        if r == -1 {
            assert forall|i: int| 0 <= i < s.len() implies s[i] != c by {
                if i > 0 {
                    assert(d[i - 1] == s[i]);
                    assert(d[i - 1] != c);
                }
            }
        } else {
            assert(s[r + 1] == d[r]);
            assert forall|i: int| 0 <= i < r + 1 implies s[i] != c by {
                if i > 0 {
                    assert(d[i - 1] == s[i]);
                    assert(d[i - 1] != c);
                }
            }
        }
    }
}

/// Characterisation: `spec_last_index` really is the last hit.
pub proof fn lemma_last_index_char(s: Seq<char>, c: char)
    ensures
        spec_last_index(s, c) == -1 ==> forall|i: int| 0 <= i < s.len() ==> s[i] != c,
        spec_last_index(s, c) != -1 ==> 0 <= spec_last_index(s, c) < s.len() && s[spec_last_index(
            s,
            c,
        )] == c && forall|i: int| spec_last_index(s, c) < i < s.len() ==> s[i] != c,
    decreases s.len(),
{
    if s.len() > 0 && s.last() != c {
        let d = s.drop_last();
        lemma_last_index_char(d, c);
        let r = spec_last_index(d, c);
        if r == -1 {
            assert forall|i: int| 0 <= i < s.len() implies s[i] != c by {
                if i < s.len() - 1 {
                    assert(d[i] == s[i]);
                    assert(d[i] != c);
                }
            }
        } else {
            assert(s[r] == d[r]);
            assert forall|i: int| r < i < s.len() implies s[i] != c by {
                if i < s.len() - 1 {
                    assert(d[i] == s[i]);
                    assert(d[i] != c);
                }
            }
        }
    }
}

/// Find the first occurrence of an ASCII character, if any.
pub fn find_first(s: &str, c: char) -> (r: Option<usize>)
    ensures
        match r {
            Some(i) => i == spec_first_index(s@, c),
            None => spec_first_index(s@, c) == -1,
        },
{
    let n = s.unicode_len();
    let mut i: usize = 0;
    while i < n
        invariant
            n == s@.len(),
            i <= n,
            forall|j: int| 0 <= j < i ==> s@[j] != c,
        decreases n - i,
    {
        if s.get_char(i) == c {
            proof {
                lemma_first_index_char(s@, c);
            }
            return Some(i);
        }
        i = i + 1;
    }
    proof {
        lemma_first_index_char(s@, c);
    }
    None
}

/// Find the last occurrence of an ASCII character, if any.
pub fn find_last(s: &str, c: char) -> (r: Option<usize>)
    ensures
        match r {
            Some(i) => i == spec_last_index(s@, c),
            None => spec_last_index(s@, c) == -1,
        },
{
    let n = s.unicode_len();
    let mut i: usize = n;
    while i > 0
        invariant
            n == s@.len(),
            i <= n,
            forall|j: int| i <= j < n ==> s@[j] != c,
        decreases i,
    {
        i = i - 1;
        if s.get_char(i) == c {
            proof {
                lemma_last_index_char(s@, c);
            }
            return Some(i);
        }
    }
    proof {
        lemma_last_index_char(s@, c);
    }
    None
}

/// `s` with leading and trailing ASCII whitespace removed: the span
/// from the first non-whitespace character through the last one.
pub open spec fn spec_trim(s: Seq<char>) -> Seq<char> {
    if is_blank(s) {
        Seq::empty()
    } else {
        let a = choose|a: int| 0 <= a < s.len() && !is_space(s[a]) && forall|i: int|
            0 <= i < a ==> is_space(s[i]);
        let b = choose|b: int| 0 <= b < s.len() && !is_space(s[b]) && forall|i: int|
            b < i < s.len() ==> is_space(s[i]);
        s.subrange(a, b + 1)
    }
}

/// Whitespace test for one character.
pub fn is_space_char(c: char) -> (r: bool)
    ensures
        r == is_space(c),
{
    let code: u32 = c as u32;
    code == 32 || (9 <= code && code <= 13)
}

/// Trim ASCII whitespace from both ends.
pub fn trim_str(s: &str) -> (r: String)
    ensures
        r@ == spec_trim(s@),
{
    let n = s.unicode_len();
    let mut start: usize = 0;
    while start < n && is_space_char(s.get_char(start))
        invariant
            n == s@.len(),
            start <= n,
            forall|j: int| 0 <= j < start ==> is_space(s@[j]),
        decreases n - start,
    {
        start = start + 1;
    }
    if start == n {
        proof {
            assert(is_blank(s@));
        }
        return String::new();
    }
    let mut end: usize = n;
    while end > start && is_space_char(s.get_char(end - 1))
        invariant
            n == s@.len(),
            start <= end <= n,
            forall|j: int| end <= j < n ==> is_space(s@[j]),
            end > start ==> !is_space(s@[start as int]),
        decreases end,
    {
        end = end - 1;
    }
    proof {
        assert(!is_space(s@[start as int]));
        assert(!is_space(s@[end - 1]));
        assert(!is_blank(s@));
        let a = choose|a: int| 0 <= a < s@.len() && !is_space(s@[a]) && forall|i: int|
            0 <= i < a ==> is_space(s@[i]);
        let b = choose|b: int| 0 <= b < s@.len() && !is_space(s@[b]) && forall|i: int|
            b < i < s@.len() ==> is_space(s@[i]);
        assert(a == start as int);
        assert(b == end - 1);
    }
    s.substring_char(start, end).to_owned()
}

} // verus!
