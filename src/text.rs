//! Character-level text operations: white space, trimming, searching.

use vstd::prelude::*;
use vstd::string::StrSliceExecFns;
use vstd::string::StringExecFns;

verus! {

/// Whether a character outside ASCII has the Unicode `White_Space` property.
pub uninterp spec fn unicode_white_space(c: char) -> bool;

/// Unicode `White_Space`; within ASCII: space and tab through carriage return.
pub open spec fn is_white_space(c: char) -> bool {
    if (c as u32) < 128 {
        c == ' ' || ('\t' <= c && c <= '\r')
    } else {
        unicode_white_space(c)
    }
}

/// Relies on char::is_whitespace: true exactly for the characters with the
/// Unicode `White_Space` property, which in ASCII are U+0009 to U+000D and
/// U+0020.
#[verifier::external_body]
fn char_is_white_space(c: char) -> (r: bool)
    ensures
        (c as u32) < 128 ==> r == (c == ' ' || ('\t' <= c && c <= '\r')),
        (c as u32) >= 128 ==> r == unicode_white_space(c),
{
    c.is_whitespace()
}

/// `s` without its trailing white space.
pub open spec fn trimmed_end(s: Seq<char>) -> Seq<char>
    decreases s.len(),
{
    if s.len() > 0 && is_white_space(s.last()) {
        trimmed_end(s.drop_last())
    } else {
        s
    }
}

/// `s` without its leading white space.
pub open spec fn trimmed_start(s: Seq<char>) -> Seq<char>
    decreases s.len(),
{
    if s.len() > 0 && is_white_space(s[0]) {
        trimmed_start(s.drop_first())
    } else {
        s
    }
}

/// `s` without leading or trailing white space.
pub open spec fn trimmed(s: Seq<char>) -> Seq<char> {
    trimmed_start(trimmed_end(s))
}

proof fn lemma_trimmed_end_prefix(s: Seq<char>, n: int)
    requires
        0 <= n <= s.len(),
        forall|j: int| n <= j < s.len() ==> is_white_space(s[j]),
    ensures
        trimmed_end(s) == trimmed_end(s.subrange(0, n)),
    decreases s.len() - n,
{
    if n < s.len() {
        assert(s.drop_last() =~= s.subrange(0, s.len() - 1));
        lemma_trimmed_end_prefix(s.drop_last(), n);
        assert(s.drop_last().subrange(0, n) =~= s.subrange(0, n));
    } else {
        assert(s.subrange(0, n) =~= s);
    }
}

pub proof fn lemma_trimmed_start_suffix(s: Seq<char>, n: int)
    requires
        0 <= n <= s.len(),
        forall|j: int| 0 <= j < n ==> is_white_space(s[j]),
    ensures
        trimmed_start(s) == trimmed_start(s.subrange(n, s.len() as int)),
    decreases n,
{
    if n > 0 {
        lemma_trimmed_start_suffix(s.drop_first(), n - 1);
        assert(s.drop_first().subrange(n - 1, s.len() - 1) =~= s.subrange(n, s.len() as int));
    } else {
        assert(s.subrange(0, s.len() as int) =~= s);
    }
}

/// Number of characters of `s` left after dropping trailing white space.
fn end_without_white_space(s: &str) -> (n: usize)
    ensures
        n <= s@.len(),
        trimmed_end(s@) == s@.subrange(0, n as int),
{
    let mut n = s.unicode_len();
    while n > 0 && char_is_white_space(s.get_char(n - 1))
        invariant
            n <= s@.len(),
            forall|j: int| n <= j < s@.len() ==> is_white_space(s@[j]),
        decreases n,
    {
        n -= 1;
    }
    proof {
        lemma_trimmed_end_prefix(s@, n as int);
        let p = s@.subrange(0, n as int);
        if n > 0 {
            assert(p.last() == s@[n - 1]);
        }
    }
    n
}

/// `s` without its trailing white space.
pub fn trim_end(s: &str) -> (r: String)
    ensures
        r@ == trimmed_end(s@),
{
    let n = end_without_white_space(s);
    String::from_str(s.substring_char(0, n))
}

/// `s` without leading or trailing white space.
pub fn trim(s: &str) -> (r: String)
    ensures
        r@ == trimmed(s@),
{
    let n = end_without_white_space(s);
    let mut k: usize = 0;
    while k < n && char_is_white_space(s.get_char(k))
        invariant
            k <= n <= s@.len(),
            forall|j: int| 0 <= j < k ==> is_white_space(s@[j]),
        decreases n - k,
    {
        k += 1;
    }
    proof {
        let p = s@.subrange(0, n as int);
        lemma_trimmed_start_suffix(p, k as int);
        let q = p.subrange(k as int, n as int);
        assert(q =~= s@.subrange(k as int, n as int));
        if k < n {
            assert(q[0] == s@[k as int]);
        }
    }
    String::from_str(s.substring_char(k, n))
}

/// Whether `pat` occurs in `s` at position `i`.
pub open spec fn occurs_at(s: Seq<char>, pat: Seq<char>, i: int) -> bool {
    0 <= i && i + pat.len() <= s.len() && s.subrange(i, i + pat.len()) == pat
}

/// Whether `pat` occurs anywhere in `s`.
pub open spec fn occurs_in(s: Seq<char>, pat: Seq<char>) -> bool {
    exists|i: int| occurs_at(s, pat, i)
}

/// The leading run of characters of `s` up to its first white space.
pub open spec fn leading_word(s: Seq<char>) -> Seq<char>
    decreases s.len(),
{
    if s.len() == 0 || is_white_space(s[0]) {
        Seq::empty()
    } else {
        seq![s[0]] + leading_word(s.drop_first())
    }
}

/// The first white-space-separated word of `s`, empty where there is none.
pub open spec fn first_word_of(s: Seq<char>) -> Seq<char> {
    leading_word(trimmed_start(s))
}

proof fn lemma_leading_word(s: Seq<char>, k: int, j: int)
    requires
        0 <= k <= j <= s.len(),
        forall|i: int| k <= i < j ==> !is_white_space(s[i]),
        j == s.len() || is_white_space(s[j]),
    ensures
        leading_word(s.subrange(k, s.len() as int)) == s.subrange(k, j),
    decreases j - k,
{
    let t = s.subrange(k, s.len() as int);
    if k < j {
        lemma_leading_word(s, k + 1, j);
        assert(t.drop_first() =~= s.subrange(k + 1, s.len() as int));
        assert(seq![s[k]] + s.subrange(k + 1, j) =~= s.subrange(k, j));
    } else {
        if j < s.len() {
            assert(t[0] == s[j]);
        }
        assert(s.subrange(k, j) =~= Seq::<char>::empty());
    }
}

/// The first white-space-separated word of `s`, empty where there is none.
pub fn first_word(s: &str) -> (r: String)
    ensures
        r@ == first_word_of(s@),
{
    let n = s.unicode_len();
    let mut k: usize = 0;
    while k < n && char_is_white_space(s.get_char(k))
        invariant
            n == s@.len(),
            k <= n,
            forall|i: int| 0 <= i < k ==> is_white_space(s@[i]),
        decreases n - k,
    {
        k += 1;
    }
    let mut j: usize = k;
    while j < n && !char_is_white_space(s.get_char(j))
        invariant
            n == s@.len(),
            k <= j <= n,
            forall|i: int| k <= i < j ==> !is_white_space(s@[i]),
        decreases n - j,
    {
        j += 1;
    }
    proof {
        lemma_trimmed_start_suffix(s@, k as int);
        let t = s@.subrange(k as int, n as int);
        if k < n {
            assert(t[0] == s@[k as int]);
        }
        lemma_leading_word(s@, k as int, j as int);
    }
    String::from_str(s.substring_char(k, j))
}

/// What stands between two texts occurs in their concatenation.
pub proof fn lemma_occurs_in_middle(a: Seq<char>, b: Seq<char>, c: Seq<char>)
    ensures
        occurs_in(a + b + c, b),
{
    assert((a + b + c).subrange(a.len() as int, (a.len() + b.len()) as int) =~= b);
    assert(occurs_at(a + b + c, b, a.len() as int));
}

/// Whether `pat` occurs in `s` at position `i`.
fn matches_at(s: &str, pat: &str, i: usize) -> (r: bool)
    requires
        i + pat@.len() <= s@.len(),
    ensures
        r == occurs_at(s@, pat@, i as int),
{
    let _n = s.unicode_len();
    let m = pat.unicode_len();
    let mut j: usize = 0;
    while j < m
        invariant
            m == pat@.len(),
            i + m <= s@.len(),
            _n == s@.len(),
            j <= m,
            forall|k: int| 0 <= k < j ==> s@[i + k] == pat@[k],
        decreases m - j,
    {
        if s.get_char(i + j) != pat.get_char(j) {
            assert(s@.subrange(i as int, i + m)[j as int] != pat@[j as int]);
            return false;
        }
        j += 1;
    }
    assert(s@.subrange(i as int, i + m) =~= pat@);
    true
}

/// Whether `pat` occurs anywhere in `s`.
pub fn contains_text(s: &str, pat: &str) -> (r: bool)
    ensures
        r == occurs_in(s@, pat@),
{
    let n = s.unicode_len();
    let m = pat.unicode_len();
    if m > n {
        return false;
    }
    let mut i: usize = 0;
    while i <= n - m
        invariant
            n == s@.len(),
            m == pat@.len(),
            m <= n,
            i <= n - m + 1,
            forall|k: int| 0 <= k < i ==> !occurs_at(s@, pat@, k),
        decreases n - m + 1 - i,
    {
        if matches_at(s, pat, i) {
            return true;
        }
        if i == n - m {
            return false;
        }
        i += 1;
    }
    false
}

/// Whether `s` begins with `pat`.
pub fn starts_with_text(s: &str, pat: &str) -> (r: bool)
    ensures
        r == occurs_at(s@, pat@, 0),
{
    if pat.unicode_len() > s.unicode_len() {
        return false;
    }
    matches_at(s, pat, 0)
}

} // verus!
