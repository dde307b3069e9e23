//! Small verified helpers on strings.

use vstd::prelude::*;

verus! {

/// Whether two string slices hold the same characters.
pub fn same_text(a: &str, b: &str) -> (r: bool)
    ensures
        r == (a@ == b@),
{
    let x = String::from_str(a);
    let y = String::from_str(b);
    x == y
}


/// Unicode's White_Space property, the whitespace that `str::trim` removes.
pub open spec fn is_white_space(c: char) -> bool {
    ||| ('\u{9}' <= c <= '\u{d}')
    ||| c == ' '
    ||| c == '\u{85}'
    ||| c == '\u{a0}'
    ||| c == '\u{1680}'
    ||| ('\u{2000}' <= c <= '\u{200a}')
    ||| c == '\u{2028}'
    ||| c == '\u{2029}'
    ||| c == '\u{202f}'
    ||| c == '\u{205f}'
    ||| c == '\u{3000}'
}

/// `r` is `s` without its leading and trailing whitespace.
pub open spec fn is_trim_of(s: Seq<char>, r: Seq<char>) -> bool {
    exists|i: int, j: int|
        #![trigger s.subrange(i, j)]
        0 <= i <= j <= s.len() && r == s.subrange(i, j) && (forall|k: int|
            0 <= k < i ==> is_white_space(#[trigger] s[k])) && (forall|k: int|
            j <= k < s.len() ==> is_white_space(#[trigger] s[k])) && (i < j ==> !is_white_space(
            s[i],
        ) && !is_white_space(s[j - 1]))
}

/// Whether a character has Unicode's White_Space property.
pub fn is_white_space_char(c: char) -> (r: bool)
    ensures
        r == is_white_space(c),
{
    ('\u{9}' <= c && c <= '\u{d}') || c == ' ' || c == '\u{85}' || c == '\u{a0}' || c == '\u{1680}'
        || ('\u{2000}' <= c && c <= '\u{200a}') || c == '\u{2028}' || c == '\u{2029}' || c
        == '\u{202f}' || c == '\u{205f}' || c == '\u{3000}'
}

/// The text without leading and trailing whitespace.
pub fn trimmed(s: &str) -> (r: String)
    ensures
        is_trim_of(s@, r@),
{
    let n: usize = s.unicode_len();
    let mut i: usize = 0;
    while i < n && is_white_space_char(s.get_char(i))
        invariant
            n == s@.len(),
            i <= n,
            forall|k: int| 0 <= k < i ==> is_white_space(#[trigger] s@[k]),
        decreases n - i,
    {
        i = i + 1;
    }
    let mut j: usize = n;
    while j > i && is_white_space_char(s.get_char(j - 1))
        invariant
            n == s@.len(),
            i <= j <= n,
            forall|k: int| j <= k < n ==> is_white_space(#[trigger] s@[k]),
            i < n ==> !is_white_space(s@[i as int]),
            i < n ==> j > i,
        decreases j - i,
    {
        j = j - 1;
    }
    let r = String::from_str(s.substring_char(i, j));
    proof {
        if i < j {
            assert(!is_white_space(s@[j - 1]));
        }
        assert(0 <= i <= j <= s@.len() && r@ == s@.subrange(i as int, j as int));
    }
    r
}

/// Whether `s` ends with `suffix`.
pub fn ends_with_text(s: &str, suffix: &str) -> (r: bool)
    ensures
        r == (suffix@.len() <= s@.len() && s@.subrange(s@.len() - suffix@.len(), s@.len() as int)
            == suffix@),
{
    let n: usize = s.unicode_len();
    let m: usize = suffix.unicode_len();
    if m > n {
        return false;
    }
    let mut k: usize = 0;
    while k < m
        invariant
            n == s@.len(),
            m == suffix@.len(),
            m <= n,
            k <= m,
            forall|q: int| 0 <= q < k ==> s@[n - m + q] == suffix@[q],
        decreases m - k,
    {
        if s.get_char(n - m + k) != suffix.get_char(k) {
            assert(s@.subrange(n - m, n as int)[k as int] != suffix@[k as int]);
            return false;
        }
        k = k + 1;
    }
    assert(s@.subrange(n - m, n as int) =~= suffix@);
    true
}

} // verus!
