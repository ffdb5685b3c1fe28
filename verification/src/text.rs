//! Character classes and the lexicographic order on character sequences.
//!
//! Strings are modelled by their view, a `Seq<char>`. Characters compare by
//! code point, which is also how `str` orders its values.

use vstd::prelude::*;

verus! {

/// True for the ASCII letters `A`..=`Z` and `a`..=`z`.
pub open spec fn is_letter(c: char) -> bool {
    ('A' <= c && c <= 'Z') || ('a' <= c && c <= 'z')
}

/// True for the ASCII digits `0`..=`9`.
pub open spec fn is_digit(c: char) -> bool {
    '0' <= c && c <= '9'
}

/// Number of leading positions, counted from `i`, at which `a` and `b` hold
/// the same character, plus `i`: the first index at or after `i` where the two
/// differ or one of them ends.
pub open spec fn common_prefix_end(a: Seq<char>, b: Seq<char>, i: int) -> int
    decreases a.len() - i,
{
    if 0 <= i && i < a.len() && i < b.len() && a[i] == b[i] {
        common_prefix_end(a, b, i + 1)
    } else {
        i
    }
}

/// Lexicographic comparison of two character sequences: `-1` where `a` sorts
/// before `b`, `0` where they are equal, `1` where `a` sorts after `b`.
///
/// The first position where the two differ decides; a proper prefix sorts
/// before the longer sequence.
pub open spec fn lex_sign(a: Seq<char>, b: Seq<char>) -> int {
    let k = common_prefix_end(a, b, 0);
    if k >= a.len() && k >= b.len() {
        0
    } else if k >= a.len() {
        -1
    } else if k >= b.len() {
        1
    } else if a[k] < b[k] {
        -1
    } else {
        1
    }
}

/// What [`common_prefix_end`] returns: an index `k` with `i <= k`, within both
/// sequences, up to which they agree and at which they stop agreeing.
pub proof fn lemma_common_prefix_end(a: Seq<char>, b: Seq<char>, i: int)
    requires
        0 <= i,
        i <= a.len(),
        i <= b.len(),
    ensures
        i <= common_prefix_end(a, b, i),
        common_prefix_end(a, b, i) <= a.len(),
        common_prefix_end(a, b, i) <= b.len(),
        forall|j: int| i <= j < common_prefix_end(a, b, i) ==> a[j] == b[j],
        ({
            let k = common_prefix_end(a, b, i);
            k < a.len() && k < b.len() ==> a[k] != b[k]
        }),
    decreases a.len() - i,
{
    if i < a.len() && i < b.len() && a[i] == b[i] {
        lemma_common_prefix_end(a, b, i + 1);
    }
}

/// Any index `k` at which two sequences stop agreeing, after agreeing on all
/// of `i..k`, is the one that [`common_prefix_end`] returns.
pub proof fn lemma_common_prefix_end_unique(a: Seq<char>, b: Seq<char>, i: int, k: int)
    requires
        0 <= i <= k,
        k <= a.len(),
        k <= b.len(),
        forall|j: int| i <= j < k ==> a[j] == b[j],
        k < a.len() && k < b.len() ==> a[k] != b[k],
    ensures
        common_prefix_end(a, b, i) == k,
    decreases k - i,
{
    if i < k {
        lemma_common_prefix_end_unique(a, b, i + 1, k);
    }
}

/// Swapping the arguments of [`lex_sign`] negates the result.
pub proof fn lemma_lex_sign_antisymmetric(a: Seq<char>, b: Seq<char>)
    ensures
        lex_sign(b, a) == -lex_sign(a, b),
{
    let k = common_prefix_end(a, b, 0);
    lemma_common_prefix_end(a, b, 0);
    lemma_common_prefix_end_unique(b, a, 0, k);
}

/// [`lex_sign`] is `0` exactly on equal sequences.
pub proof fn lemma_lex_sign_zero(a: Seq<char>, b: Seq<char>)
    ensures
        lex_sign(a, b) == 0 <==> a == b,
{
    lemma_common_prefix_end(a, b, 0);
    if lex_sign(a, b) == 0 {
        assert(a =~= b);
    }
    if a == b {
        lemma_common_prefix_end_unique(a, b, 0, a.len() as int);
    }
}

/// The lexicographic order is transitive: from `a <= b` and `b <= c` follows
/// `a <= c`, and the conclusion is strict where either premise is.
pub proof fn lemma_lex_sign_transitive(a: Seq<char>, b: Seq<char>, c: Seq<char>)
    requires
        lex_sign(a, b) <= 0,
        lex_sign(b, c) <= 0,
    ensures
        lex_sign(a, c) <= 0,
        lex_sign(a, b) < 0 || lex_sign(b, c) < 0 ==> lex_sign(a, c) < 0,
{
    let k1 = common_prefix_end(a, b, 0);
    let k2 = common_prefix_end(b, c, 0);
    lemma_common_prefix_end(a, b, 0);
    lemma_common_prefix_end(b, c, 0);
    lemma_common_prefix_end(a, c, 0);
    let k = if k1 <= k2 {
        k1
    } else {
        k2
    };
    if k < a.len() && k < c.len() && a[k] == c[k] {
        // Then `a`, `b` and `c` agree at `k` as well, which contradicts the
        // choice of `k` as the first place where one of the pairs stops.
        assert(k < b.len());
        assert(false);
    }
    lemma_common_prefix_end_unique(a, c, 0, k);
}

/// The characters of a string, in order.
pub fn chars_of(s: &str) -> (r: Vec<char>)
    ensures
        r@ == s@,
{
    let n: usize = s.unicode_len();
    let mut out: Vec<char> = Vec::new();
    let mut i: usize = 0;
    while i < n
        invariant
            n == s@.len(),
            i <= n,
            out@ == s@.subrange(0, i as int),
        decreases n - i,
    {
        let c = s.get_char(i);
        out.push(c);
        assert(out@ =~= s@.subrange(0, i + 1));
        i = i + 1;
    }
    assert(out@ =~= s@);
    out
}

/// Lexicographic comparison of two strings by code point: `-1`, `0` or `1` as
/// [`lex_sign`] says.
pub fn compare_text(a: &[char], b: &[char]) -> (r: i8)
    ensures
        r == lex_sign(a@, b@),
{
    let mut i: usize = 0;
    while i < a.len() && i < b.len() && a[i] == b[i]
        invariant
            i <= a@.len(),
            i <= b@.len(),
            common_prefix_end(a@, b@, 0) == common_prefix_end(a@, b@, i as int),
        decreases a@.len() - i,
    {
        i = i + 1;
    }
    if i >= a.len() && i >= b.len() {
        0
    } else if i >= a.len() {
        -1
    } else if i >= b.len() {
        1
    } else if a[i] < b[i] {
        -1
    } else {
        1
    }
}

/// True where `text` begins with `prefix`.
pub fn has_prefix(text: &[char], prefix: &[char]) -> (r: bool)
    ensures
        r == prefix@.is_prefix_of(text@),
{
    if prefix.len() > text.len() {
        return false;
    }
    let mut i: usize = 0;
    while i < prefix.len()
        invariant
            i <= prefix@.len(),
            prefix@.len() <= text@.len(),
            forall|j: int| 0 <= j < i ==> prefix@[j] == text@[j],
        decreases prefix@.len() - i,
    {
        if prefix[i] != text[i] {
            assert(text@.subrange(0, prefix@.len() as int)[i as int] != prefix@[i as int]);
            return false;
        }
        i = i + 1;
    }
    assert(prefix@ =~= text@.subrange(0, prefix@.len() as int));
    true
}

/// True where the two hold the same characters.
pub fn same_text(a: &[char], b: &[char]) -> (r: bool)
    ensures
        r == (a@ == b@),
{
    let r = a.len() == b.len() && has_prefix(a, b);
    proof {
        if r {
            assert(a@.subrange(0, b@.len() as int) =~= a@);
        }
        if a@ == b@ {
            assert(a@.subrange(0, b@.len() as int) =~= a@);
        }
    }
    r
}

} // verus!
