//! Case-insensitive text matching for the process search filter.
//!
//! Case folding is ASCII-only: `'A'..='Z'` compare equal to their
//! lowercase counterparts, every other character only to itself.

use vstd::prelude::*;

verus! {

/// Code point of `c` after folding ASCII uppercase to lowercase.
pub open spec fn fold_code(c: char) -> int {
    if 65 <= c as int && c as int <= 90 {
        c as int + 32
    } else {
        c as int
    }
}

/// Two characters are equal up to ASCII case.
pub open spec fn chars_ieq(a: char, b: char) -> bool {
    fold_code(a) == fold_code(b)
}

/// Two character sequences are equal up to ASCII case.
pub open spec fn seq_ieq(a: Seq<char>, b: Seq<char>) -> bool {
    a.len() == b.len() && forall|i: int| 0 <= i < a.len() ==> chars_ieq(a[i], b[i])
}

/// `needle` occurs in `hay` at position `k`, up to ASCII case.
pub open spec fn match_at(hay: Seq<char>, needle: Seq<char>, k: int) -> bool {
    0 <= k && k + needle.len() <= hay.len() && seq_ieq(
        hay.subrange(k, k + needle.len() as int),
        needle,
    )
}

/// `needle` occurs somewhere in `hay`, up to ASCII case.
/// An empty needle occurs in every string.
pub open spec fn contains_ci_spec(hay: Seq<char>, needle: Seq<char>) -> bool {
    exists|k: int| match_at(hay, needle, k)
}

/// Compares two characters up to ASCII case.
pub fn chars_eq_ci(a: char, b: char) -> (r: bool)
    ensures
        r == chars_ieq(a, b),
{
    let ca = a as u32;
    let cb = b as u32;
    let fa: u32 = if 65 <= ca && ca <= 90 {
        ca + 32
    } else {
        ca
    };
    let fb: u32 = if 65 <= cb && cb <= 90 {
        cb + 32
    } else {
        cb
    };
    fa == fb
}

/// ASCII-case-insensitive substring test: does `needle` occur in `hay`?
pub fn contains_ci(hay: &str, needle: &str) -> (r: bool)
    ensures
        r == contains_ci_spec(hay@, needle@),
{
    let hay_len = hay.unicode_len();
    let needle_len = needle.unicode_len();
    if needle_len > hay_len {
        assert(forall|k: int| !match_at(hay@, needle@, k));
        return false;
    }
    let mut i: usize = 0;
    loop
        invariant
            hay_len == hay@.len(),
            needle_len == needle@.len(),
            needle_len <= hay_len,
            i <= hay_len - needle_len + 1,
            forall|k: int| 0 <= k < i ==> !match_at(hay@, needle@, k),
        ensures
            contains_ci_spec(hay@, needle@) == (exists|k: int| match_at(hay@, needle@, k)),
        decreases hay_len - needle_len + 1 - i,
    {
        if i > hay_len - needle_len {
            assert(forall|k: int| match_at(hay@, needle@, k) ==> 0 <= k < i);
            return false;
        }
        let mut j: usize = 0;
        let mut ok = true;
        while ok && j < needle_len
            invariant
                hay_len == hay@.len(),
                needle_len == needle@.len(),
                i + needle_len <= hay_len,
                j <= needle_len,
                ok ==> forall|m: int| 0 <= m < j ==> chars_ieq(hay@[i + m], needle@[m]),
                !ok ==> !match_at(hay@, needle@, i as int),
            decreases needle_len - j, (if ok { 1int } else { 0int }),
        {
            let hc = hay.get_char(i + j);
            let nc = needle.get_char(j);
            if chars_eq_ci(hc, nc) {
                j = j + 1;
            } else {
                proof {
                    let s = hay@.subrange(i as int, i + needle@.len() as int);
                    assert(s[j as int] == hay@[i + j]);
                }
                ok = false;
            }
        }
        if ok {
            proof {
                let s = hay@.subrange(i as int, i + needle@.len() as int);
                assert(forall|m: int| 0 <= m < needle@.len() ==> s[m] == hay@[i + m]);
                assert(match_at(hay@, needle@, i as int));
            }
            return true;
        }
        i = i + 1;
    }
}

/// Exact equality of two strings, compared character by character.
pub fn str_eq(a: &str, b: &str) -> (r: bool)
    ensures
        r == (a@ == b@),
{
    let a_len = a.unicode_len();
    let b_len = b.unicode_len();
    if a_len != b_len {
        return false;
    }
    let mut i: usize = 0;
    while i < a_len
        invariant
            a_len == a@.len(),
            b_len == b@.len(),
            a_len == b_len,
            i <= a_len,
            forall|m: int| 0 <= m < i ==> a@[m] == b@[m],
        decreases a_len - i,
    {
        if a.get_char(i) != b.get_char(i) {
            return false;
        }
        i = i + 1;
    }
    proof {
        assert(a@ =~= b@);
    }
    true
}

/// ASCII-case-insensitive equality of two strings.
pub fn eq_ignore_case(a: &str, b: &str) -> (r: bool)
    ensures
        r == seq_ieq(a@, b@),
{
    let a_len = a.unicode_len();
    let b_len = b.unicode_len();
    if a_len != b_len {
        return false;
    }
    let mut i: usize = 0;
    while i < a_len
        invariant
            a_len == a@.len(),
            b_len == b@.len(),
            a_len == b_len,
            i <= a_len,
            forall|m: int| 0 <= m < i ==> chars_ieq(a@[m], b@[m]),
        decreases a_len - i,
    {
        if !chars_eq_ci(a.get_char(i), b.get_char(i)) {
            return false;
        }
        i = i + 1;
    }
    true
}

} // verus!
