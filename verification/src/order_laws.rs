//! Laws of the natural order: it is a strict weak ordering, so a sort by it is
//! well defined.

use crate::natural::{
    digit_run_end, key_letters, key_sign, letter_run_end, natural_key, natural_sign,
};
use crate::text::{
    common_prefix_end, is_digit, is_letter, lemma_common_prefix_end,
    lemma_common_prefix_end_unique, lemma_lex_sign_antisymmetric, lemma_lex_sign_transitive,
    lemma_lex_sign_zero, lex_sign,
};
use vstd::prelude::*;

verus! {

/// What [`letter_run_end`] returns: the end of a run of letters that starts
/// at `i` and cannot be extended.
pub proof fn lemma_letter_run_end(s: Seq<char>, i: int)
    requires
        0 <= i <= s.len(),
    ensures
        i <= letter_run_end(s, i) <= s.len(),
        forall|j: int| i <= j < letter_run_end(s, i) ==> is_letter(#[trigger] s[j]),
        letter_run_end(s, i) < s.len() ==> !is_letter(s[letter_run_end(s, i)]),
    decreases s.len() - i,
{
    if i < s.len() && is_letter(s[i]) {
        lemma_letter_run_end(s, i + 1);
    }
}

/// A run of letters on `i..e` that `s[e]` does not extend ends at `e`.
pub proof fn lemma_letter_run_end_unique(s: Seq<char>, i: int, e: int)
    requires
        0 <= i <= e <= s.len(),
        forall|j: int| i <= j < e ==> is_letter(#[trigger] s[j]),
        e < s.len() ==> !is_letter(s[e]),
    ensures
        letter_run_end(s, i) == e,
    decreases e - i,
{
    if i < e {
        assert(is_letter(s[i]));
        lemma_letter_run_end_unique(s, i + 1, e);
    }
}

/// [`digit_run_end`] never moves backwards and stays within the sequence.
pub proof fn lemma_digit_run_end(s: Seq<char>, i: int)
    requires
        0 <= i <= s.len(),
    ensures
        i <= digit_run_end(s, i) <= s.len(),
        forall|j: int| i <= j < digit_run_end(s, i) ==> is_digit(#[trigger] s[j]),
        digit_run_end(s, i) < s.len() ==> !is_digit(s[digit_run_end(s, i)]),
    decreases s.len() - i,
{
    if i < s.len() && is_digit(s[i]) {
        lemma_digit_run_end(s, i + 1);
    }
}

/// The shape of a title with a key: with `e` the end of its leading letters,
/// the title has a key exactly where a digit stands at `e`, and the key's
/// letters are the first `e` characters.
pub proof fn lemma_key_shape(s: Seq<char>)
    ensures
        0 <= letter_run_end(s, 0) <= s.len(),
        forall|j: int| 0 <= j < letter_run_end(s, 0) ==> is_letter(#[trigger] s[j]),
        natural_key(s) is Some <==> (letter_run_end(s, 0) < s.len() && is_digit(
            s[letter_run_end(s, 0)],
        )),
        key_letters(s).len() == letter_run_end(s, 0),
{
    let e = letter_run_end(s, 0);
    lemma_letter_run_end(s, 0);
    lemma_digit_run_end(s, e);
    if e < s.len() && is_digit(s[e]) {
        lemma_digit_run_end(s, e + 1);
    }
}

/// A title that begins with `e` letters and then a digit has a key, and its
/// letters end at `e`.
pub proof fn lemma_key_from_shape(s: Seq<char>, e: int)
    requires
        0 <= e < s.len(),
        forall|j: int| 0 <= j < e ==> is_letter(#[trigger] s[j]),
        is_digit(s[e]),
    ensures
        letter_run_end(s, 0) == e,
        natural_key(s) is Some,
{
    lemma_letter_run_end_unique(s, 0, e);
    lemma_key_shape(s);
}

/// Where `a` and `b` agree up to `k`, and at `k` either `a` ends while `b`
/// goes on or `a` holds the smaller character, `a` sorts before `b`.
pub proof fn lemma_lex_less(a: Seq<char>, b: Seq<char>, k: int)
    requires
        0 <= k <= a.len(),
        k < b.len(),
        forall|j: int| 0 <= j < k ==> a[j] == b[j],
        k == a.len() || a[k] < b[k],
    ensures
        lex_sign(a, b) == -1,
{
    lemma_common_prefix_end_unique(a, b, 0, k);
}

/// Where `a` sorts before `b`, the first place `k` at which they stop
/// agreeing is one where `a` ends or holds the smaller character.
pub proof fn lemma_lex_less_witness(a: Seq<char>, b: Seq<char>)
    requires
        lex_sign(a, b) < 0,
    ensures
        0 <= common_prefix_end(a, b, 0) <= a.len(),
        common_prefix_end(a, b, 0) < b.len(),
        forall|j: int| 0 <= j < common_prefix_end(a, b, 0) ==> a[j] == b[j],
        ({
            let k = common_prefix_end(a, b, 0);
            k == a.len() || a[k] < b[k]
        }),
{
    lemma_common_prefix_end(a, b, 0);
}

/// Swapping the two titles negates [`natural_sign`]. So no title sorts before
/// itself, and of two titles at most one sorts before the other.
pub proof fn lemma_natural_sign_antisymmetric(a: Seq<char>, b: Seq<char>)
    ensures
        natural_sign(b, a) == -natural_sign(a, b),
{
    lemma_lex_sign_antisymmetric(a, b);
    match (natural_key(a), natural_key(b)) {
        (Some(ka), Some(kb)) => {
            lemma_lex_sign_antisymmetric(ka.0, kb.0);
        },
        _ => {},
    }
}

/// Where two titles with keys differ in their letters, the titles compare as
/// the letters do.
pub proof fn lemma_letters_decide(a: Seq<char>, b: Seq<char>)
    requires
        natural_key(a) is Some,
        natural_key(b) is Some,
        lex_sign(key_letters(a), key_letters(b)) != 0,
    ensures
        lex_sign(a, b) == lex_sign(key_letters(a), key_letters(b)),
{
    let pa = key_letters(a);
    let pb = key_letters(b);
    let ea = letter_run_end(a, 0);
    let eb = letter_run_end(b, 0);
    lemma_key_shape(a);
    lemma_key_shape(b);
    let k = common_prefix_end(pa, pb, 0);
    lemma_common_prefix_end(pa, pb, 0);
    assert(pa.len() == ea && pb.len() == eb);
    assert forall|j: int| 0 <= j < k implies a[j] == b[j] by {
        assert(a[j] == pa[j]);
        assert(b[j] == pb[j]);
    }
    if k < ea && k < eb {
        assert(a[k] == pa[k]);
        assert(b[k] == pb[k]);
        lemma_common_prefix_end_unique(a, b, 0, k);
    } else if k >= ea {
        // `a` has its first digit where `b` still has a letter.
        assert(k == ea);
        assert(k < eb);
        assert(b[k] == pb[k]);
        assert(is_letter(b[k]));
        assert(is_digit(a[k]));
        lemma_lex_less(a, b, k);
    } else {
        assert(k == eb);
        assert(a[k] == pa[k]);
        assert(is_letter(a[k]));
        assert(is_digit(b[k]));
        lemma_lex_less(b, a, k);
        lemma_lex_sign_antisymmetric(b, a);
    }
}

/// Two titles with keys and equal letters agree on the letters, and each has
/// a digit where the letters end.
proof fn lemma_same_letters(a: Seq<char>, b: Seq<char>)
    requires
        natural_key(a) is Some,
        natural_key(b) is Some,
        lex_sign(key_letters(a), key_letters(b)) == 0,
    ensures
        letter_run_end(a, 0) == letter_run_end(b, 0),
        0 <= letter_run_end(a, 0) < a.len(),
        letter_run_end(a, 0) < b.len(),
        forall|j: int| 0 <= j < letter_run_end(a, 0) ==> a[j] == b[j] && is_letter(a[j]),
        is_digit(a[letter_run_end(a, 0)]),
        is_digit(b[letter_run_end(a, 0)]),
{
    let pa = key_letters(a);
    let pb = key_letters(b);
    lemma_key_shape(a);
    lemma_key_shape(b);
    lemma_lex_sign_zero(pa, pb);
    assert(pa.len() == letter_run_end(a, 0));
    assert(pb.len() == letter_run_end(b, 0));
    assert forall|j: int| 0 <= j < letter_run_end(a, 0) implies a[j] == b[j] && is_letter(
        a[j],
    ) by {
        assert(a[j] == pa[j]);
        assert(b[j] == pb[j]);
    }
}

/// Two titles with keys and equal letters, and a title without a key that
/// sorts after the second: it sorts after the first as well.
proof fn lemma_keyed_keyed_plain(a: Seq<char>, b: Seq<char>, c: Seq<char>)
    requires
        natural_key(a) is Some,
        natural_key(b) is Some,
        natural_key(c) is None,
        lex_sign(key_letters(a), key_letters(b)) == 0,
        lex_sign(b, c) < 0,
    ensures
        lex_sign(a, c) == -1,
{
    lemma_same_letters(a, b);
    let e = letter_run_end(a, 0);
    let k = common_prefix_end(b, c, 0);
    lemma_lex_less_witness(b, c);
    if k < e {
        lemma_lex_less(a, c, k);
    } else {
        assert(c.len() > e);
        assert forall|j: int| 0 <= j < e implies is_letter(#[trigger] c[j]) by {
            assert(b[j] == c[j]);
        }
        if is_digit(c[e]) {
            lemma_key_from_shape(c, e);
        }
        assert(k == e);
        lemma_lex_less(a, c, e);
    }
}

/// A title without a key that sorts before the first of two titles with
/// keys and equal letters: it sorts before the second as well.
proof fn lemma_plain_keyed_keyed(a: Seq<char>, b: Seq<char>, c: Seq<char>)
    requires
        natural_key(a) is None,
        natural_key(b) is Some,
        natural_key(c) is Some,
        lex_sign(key_letters(b), key_letters(c)) == 0,
        lex_sign(a, b) < 0,
    ensures
        lex_sign(a, c) == -1,
{
    lemma_same_letters(b, c);
    let e = letter_run_end(b, 0);
    let k = common_prefix_end(a, b, 0);
    lemma_lex_less_witness(a, b);
    if k < e {
        lemma_lex_less(a, c, k);
    } else if a.len() == e {
        lemma_lex_less(a, c, e);
    } else {
        assert forall|j: int| 0 <= j < e implies is_letter(#[trigger] a[j]) by {
            assert(a[j] == b[j]);
        }
        if is_digit(a[e]) {
            lemma_key_from_shape(a, e);
        }
        assert(k == e);
        lemma_lex_less(a, c, e);
    }
}

/// The order by keys is transitive.
proof fn lemma_key_sign_transitive(
    a: (Seq<char>, Seq<char>),
    b: (Seq<char>, Seq<char>),
    c: (Seq<char>, Seq<char>),
)
    requires
        key_sign(a, b) <= 0,
        key_sign(b, c) <= 0,
    ensures
        key_sign(a, c) <= 0,
        key_sign(a, b) < 0 || key_sign(b, c) < 0 ==> key_sign(a, c) < 0,
{
    lemma_lex_sign_transitive(a.0, b.0, c.0);
}

/// The natural order is transitive: where `a` does not sort after `b`, nor
/// `b` after `c`, `a` does not sort after `c`; and where `a` sorts before
/// `b`, or `b` before `c`, `a` sorts before `c`.
///
/// With [`lemma_natural_sign_antisymmetric`] this makes the order a strict
/// weak ordering: "sorts before" is irreflexive and transitive, and "neither
/// sorts before the other" is an equivalence.
pub proof fn lemma_natural_sign_transitive(a: Seq<char>, b: Seq<char>, c: Seq<char>)
    requires
        natural_sign(a, b) <= 0,
        natural_sign(b, c) <= 0,
    ensures
        natural_sign(a, c) <= 0,
        natural_sign(a, b) < 0 || natural_sign(b, c) < 0 ==> natural_sign(a, c) < 0,
{
    lemma_lex_sign_zero(a, b);
    lemma_lex_sign_zero(b, c);
    lemma_lex_sign_zero(a, c);
    match (natural_key(a), natural_key(b), natural_key(c)) {
        (Some(ka), Some(kb), Some(kc)) => {
            lemma_key_sign_transitive(ka, kb, kc);
        },
        (Some(ka), Some(kb), None) => {
            if lex_sign(ka.0, kb.0) != 0 {
                lemma_letters_decide(a, b);
                lemma_lex_sign_transitive(a, b, c);
            } else {
                lemma_keyed_keyed_plain(a, b, c);
            }
        },
        (None, Some(kb), Some(kc)) => {
            if lex_sign(kb.0, kc.0) != 0 {
                lemma_letters_decide(b, c);
                lemma_lex_sign_transitive(a, b, c);
            } else {
                lemma_plain_keyed_keyed(a, b, c);
            }
        },
        (Some(ka), None, Some(kc)) => {
            lemma_lex_sign_transitive(a, b, c);
            if lex_sign(ka.0, kc.0) != 0 {
                lemma_letters_decide(a, c);
            } else {
                // Then `b` would sort after `c` as it sorts after `a`.
                lemma_lex_sign_antisymmetric(kc.0, ka.0);
                lemma_keyed_keyed_plain(c, a, b);
                lemma_lex_sign_antisymmetric(c, b);
            }
        },
        _ => {
            lemma_lex_sign_transitive(a, b, c);
        },
    }
}

} // verus!
