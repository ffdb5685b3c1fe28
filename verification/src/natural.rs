//! Natural ordering of titles: a leading run of letters, then a number that
//! compares by value, so that `track9` sorts before `track10`. The number may
//! be as long as it likes.

use crate::text::{chars_of, compare_text, is_digit, is_letter, lex_sign};
use vstd::prelude::*;

verus! {

/// First index at or after `i` at which `s` holds no ASCII letter (its length
/// where letters run to the end).
pub open spec fn letter_run_end(s: Seq<char>, i: int) -> int
    decreases s.len() - i,
{
    if 0 <= i && i < s.len() && is_letter(s[i]) {
        letter_run_end(s, i + 1)
    } else {
        i
    }
}

/// First index at or after `i` at which `s` holds no ASCII digit (its length
/// where digits run to the end).
pub open spec fn digit_run_end(s: Seq<char>, i: int) -> int
    decreases s.len() - i,
{
    if 0 <= i && i < s.len() && is_digit(s[i]) {
        digit_run_end(s, i + 1)
    } else {
        i
    }
}

/// The leading letters of a title: its longest run of ASCII letters from the
/// start, possibly empty.
pub open spec fn key_letters(title: Seq<char>) -> Seq<char> {
    title.subrange(0, letter_run_end(title, 0))
}

/// The digits of a title: the longest run of ASCII digits that follows its
/// leading letters at once, possibly empty.
pub open spec fn key_digits(title: Seq<char>) -> Seq<char> {
    title.subrange(letter_run_end(title, 0), digit_run_end(title, letter_run_end(title, 0)))
}

/// The key by which a title is ordered naturally: its leading letters and the
/// digits that follow them. `None` where no digit follows the letters.
pub open spec fn natural_key(title: Seq<char>) -> Option<(Seq<char>, Seq<char>)> {
    if digit_run_end(title, letter_run_end(title, 0)) > letter_run_end(title, 0) {
        Some((key_letters(title), key_digits(title)))
    } else {
        None
    }
}

/// The value of a digit: `'7'` is 7. A character that is no ASCII digit
/// counts as 0.
pub open spec fn digit_value(c: char) -> nat {
    if is_digit(c) {
        (c as nat - '0' as nat) as nat
    } else {
        0
    }
}

/// The number that a sequence of ASCII digits writes in base ten; 0 for the
/// empty sequence.
pub open spec fn decimal_value(digits: Seq<char>) -> nat
    decreases digits.len(),
{
    if digits.len() == 0 {
        0
    } else {
        10 * decimal_value(digits.drop_last()) + digit_value(digits.last())
    }
}

/// True where every character of `s` is an ASCII digit.
pub open spec fn all_digits(s: Seq<char>) -> bool {
    forall|i: int| 0 <= i < s.len() ==> is_digit(#[trigger] s[i])
}

/// Ten to the power of `n`.
pub open spec fn pow10(n: nat) -> nat
    decreases n,
{
    if n == 0 {
        1
    } else {
        10 * pow10((n - 1) as nat)
    }
}

/// `-1`, `0` or `1` as `x` is below, equal to or above `y`.
pub open spec fn int_sign(x: int, y: int) -> int {
    if x < y {
        -1
    } else if x > y {
        1
    } else {
        0
    }
}

/// Comparison of two titles by their keys: by the letters first and, where
/// these are equal, by the numbers that the digits write, however large.
pub open spec fn key_sign(a: (Seq<char>, Seq<char>), b: (Seq<char>, Seq<char>)) -> int {
    if lex_sign(a.0, b.0) != 0 {
        lex_sign(a.0, b.0)
    } else {
        int_sign(decimal_value(a.1) as int, decimal_value(b.1) as int)
    }
}

/// The natural order of two titles as `-1`, `0` or `1`.
///
/// Where both titles have a key, the keys decide. Where either has none, the
/// titles compare lexicographically as they stand.
pub open spec fn natural_sign(a: Seq<char>, b: Seq<char>) -> int {
    match (natural_key(a), natural_key(b)) {
        (Some(ka), Some(kb)) => key_sign(ka, kb),
        _ => lex_sign(a, b),
    }
}

/// The pattern that splits a title into its key: at the start of the text, as
/// many ASCII letters as there are, then one ASCII digit or more.
pub fn key_pattern() -> (r: &'static str)
    ensures
        r@ == "^([A-Za-z]*)([0-9]+)"@,
{
    "^([A-Za-z]*)([0-9]+)"
}

/// Matches `title` against the key pattern with the regex crate
/// (`Regex::new`, then `Regex::captures`) and hands out the text of the two
/// groups.
///
/// Trusted: for this one pattern, that the match exists exactly where a digit
/// follows the leading letters, and that the greedy groups then hold the
/// longest run of letters and the longest run of digits after it, which is
/// what [`natural_key`] says.
#[verifier::external_body]
fn capture_key(pattern: &str, title: &str) -> (r: Option<(String, String)>)
    requires
        pattern@ == "^([A-Za-z]*)([0-9]+)"@,
    ensures
        match r {
            Some(k) => natural_key(title@) == Some((k.0@, k.1@)),
            None => natural_key(title@) is None,
        },
{
    let re = regex::Regex::new(pattern).ok()?;
    let caps = re.captures(title)?;
    Some((caps.get(1)?.as_str().to_string(), caps.get(2)?.as_str().to_string()))
}

/// The digits of a key are ASCII digits, all of them.
pub proof fn lemma_key_digits(title: Seq<char>)
    ensures
        all_digits(key_digits(title)),
{
    crate::order_laws::lemma_letter_run_end(title, 0);
    crate::order_laws::lemma_digit_run_end(title, letter_run_end(title, 0));
    let from = letter_run_end(title, 0);
    assert forall|i: int| 0 <= i < key_digits(title).len() implies is_digit(
        #[trigger] key_digits(title)[i],
    ) by {
        assert(key_digits(title)[i] == title[from + i]);
    }
}

/// A zero in front does not change the number that digits write.
pub proof fn lemma_leading_zero(digits: Seq<char>)
    requires
        digits.len() >= 1,
        digits[0] == '0',
    ensures
        decimal_value(digits) == decimal_value(digits.skip(1)),
    decreases digits.len(),
{
    if digits.len() == 1 {
        assert(decimal_value(digits.drop_last()) == 0);
        assert(decimal_value(digits.skip(1)) == 0);
    } else {
        let front = digits.drop_last();
        lemma_leading_zero(front);
        assert(digits.skip(1).drop_last() =~= front.skip(1));
        assert(digits.skip(1).last() == digits.last());
    }
}

/// Zeros in front do not change the number that digits write.
pub proof fn lemma_leading_zeros(digits: Seq<char>, zeros: int)
    requires
        0 <= zeros <= digits.len(),
        forall|i: int| 0 <= i < zeros ==> digits[i] == '0',
    ensures
        decimal_value(digits) == decimal_value(digits.skip(zeros)),
    decreases zeros,
{
    if zeros == 0 {
        assert(digits.skip(0) =~= digits);
    } else {
        lemma_leading_zeros(digits, zeros - 1);
        let rest = digits.skip(zeros - 1);
        assert(rest[0] == digits[zeros - 1]);
        lemma_leading_zero(rest);
        assert(rest.skip(1) =~= digits.skip(zeros));
    }
}

/// `n` digits write a number below ten to the power of `n`.
pub proof fn lemma_value_below_power(digits: Seq<char>)
    requires
        all_digits(digits),
    ensures
        decimal_value(digits) < pow10(digits.len()),
    decreases digits.len(),
{
    if digits.len() > 0 {
        let front = digits.drop_last();
        assert(all_digits(front)) by {
            assert forall|i: int| 0 <= i < front.len() implies is_digit(#[trigger] front[i]) by {
                assert(front[i] == digits[i]);
            }
        }
        lemma_value_below_power(front);
        assert(is_digit(digits[digits.len() - 1]));
        assert(digit_value(digits.last()) <= 9);
    }
}

/// `n` digits of which the first is no zero write a number of at least ten
/// to the power of `n - 1`.
pub proof fn lemma_value_at_least_power(digits: Seq<char>)
    requires
        all_digits(digits),
        digits.len() >= 1,
        digits[0] != '0',
    ensures
        decimal_value(digits) >= pow10((digits.len() - 1) as nat),
    decreases digits.len(),
{
    let front = digits.drop_last();
    if digits.len() == 1 {
        assert(decimal_value(front) == 0);
        assert(is_digit(digits[0]));
        assert(digit_value(digits.last()) >= 1);
    } else {
        assert(all_digits(front)) by {
            assert forall|i: int| 0 <= i < front.len() implies is_digit(#[trigger] front[i]) by {
                assert(front[i] == digits[i]);
            }
        }
        assert(front[0] == digits[0]);
        lemma_value_at_least_power(front);
    }
}

/// A larger power of ten is a larger number.
pub proof fn lemma_power_grows(m: nat, n: nat)
    requires
        m <= n,
    ensures
        1 <= pow10(m) <= pow10(n),
    decreases n,
{
    if m < n {
        lemma_power_grows(m, (n - 1) as nat);
    } else if n > 0 {
        lemma_power_grows((m - 1) as nat, (n - 1) as nat);
    }
}

/// Of two digit runs without a zero in front, the longer writes the larger
/// number.
pub proof fn lemma_longer_is_larger(short: Seq<char>, long: Seq<char>)
    requires
        all_digits(short),
        all_digits(long),
        short.len() < long.len(),
        long[0] != '0',
    ensures
        decimal_value(short) < decimal_value(long),
{
    lemma_value_below_power(short);
    lemma_value_at_least_power(long);
    lemma_power_grows(short.len(), (long.len() - 1) as nat);
}

/// The number of zeros in front of `digits`.
fn leading_zeros(digits: &[char]) -> (zeros: usize)
    ensures
        zeros <= digits@.len(),
        forall|i: int| 0 <= i < zeros ==> digits@[i] == '0',
        zeros < digits@.len() ==> digits@[zeros as int] != '0',
{
    let mut zeros: usize = 0;
    while zeros < digits.len() && digits[zeros] == '0'
        invariant
            zeros <= digits@.len(),
            forall|i: int| 0 <= i < zeros ==> digits@[i] == '0',
        decreases digits@.len() - zeros,
    {
        zeros = zeros + 1;
    }
    zeros
}

/// Compares the numbers that two runs of ASCII digits write, however long
/// the runs are: `-1`, `0` or `1`.
///
/// Zeros in front are passed over. Of what is left the longer run writes the
/// larger number, and runs of one length compare digit by digit.
pub(crate) fn compare_numbers(a: &[char], b: &[char]) -> (r: i8)
    requires
        all_digits(a@),
        all_digits(b@),
    ensures
        r == int_sign(decimal_value(a@) as int, decimal_value(b@) as int),
{
    let a_zeros = leading_zeros(a);
    let b_zeros = leading_zeros(b);
    let a_len = a.len() - a_zeros;
    let b_len = b.len() - b_zeros;
    let ghost a_rest = a@.skip(a_zeros as int);
    let ghost b_rest = b@.skip(b_zeros as int);
    proof {
        lemma_leading_zeros(a@, a_zeros as int);
        lemma_leading_zeros(b@, b_zeros as int);
        assert(all_digits(a_rest)) by {
            assert forall|i: int| 0 <= i < a_rest.len() implies is_digit(#[trigger] a_rest[i]) by {
                assert(a_rest[i] == a@[a_zeros + i]);
            }
        }
        assert(all_digits(b_rest)) by {
            assert forall|i: int| 0 <= i < b_rest.len() implies is_digit(#[trigger] b_rest[i]) by {
                assert(b_rest[i] == b@[b_zeros + i]);
            }
        }
    }
    if a_len < b_len {
        proof {
            lemma_longer_is_larger(a_rest, b_rest);
        }
        return -1;
    }
    if a_len > b_len {
        proof {
            lemma_longer_is_larger(b_rest, a_rest);
        }
        return 1;
    }
    let mut sign: i8 = 0;
    let mut i: usize = 0;
    assert(decimal_value(a_rest.subrange(0, 0)) == 0);
    assert(decimal_value(b_rest.subrange(0, 0)) == 0);
    while i < a_len
        invariant
            i <= a_len,
            a_len == a_rest.len(),
            a_len == b_rest.len(),
            a_rest == a@.skip(a_zeros as int),
            b_rest == b@.skip(b_zeros as int),
            a_zeros + a_len == a@.len(),
            b_zeros + a_len == b@.len(),
            a@.len() <= usize::MAX,
            b@.len() <= usize::MAX,
            all_digits(a_rest),
            all_digits(b_rest),
            sign == int_sign(
                decimal_value(a_rest.subrange(0, i as int)) as int,
                decimal_value(b_rest.subrange(0, i as int)) as int,
            ),
        decreases a_len - i,
    {
        let x = a[a_zeros + i];
        let y = b[b_zeros + i];
        proof {
            let a_next = a_rest.subrange(0, i + 1);
            let b_next = b_rest.subrange(0, i + 1);
            assert(a_next.drop_last() =~= a_rest.subrange(0, i as int));
            assert(b_next.drop_last() =~= b_rest.subrange(0, i as int));
            assert(a_next.last() == x);
            assert(b_next.last() == y);
            assert(is_digit(a_rest[i as int]));
            assert(is_digit(b_rest[i as int]));
            assert(digit_value(x) <= 9 && digit_value(y) <= 9);
            assert(x < y <==> digit_value(x) < digit_value(y));
        }
        if sign == 0 {
            if x < y {
                sign = -1;
            } else if x > y {
                sign = 1;
            }
        }
        i = i + 1;
    }
    proof {
        assert(a_rest.subrange(0, a_len as int) =~= a_rest);
        assert(b_rest.subrange(0, a_len as int) =~= b_rest);
    }
    sign
}

/// Takes the key of a title: its leading letters and the digits that follow
/// them.
pub fn key_of(title: &str) -> (key: Option<(Vec<char>, Vec<char>)>)
    ensures
        match key {
            Some(k) => natural_key(title@) == Some((k.0@, k.1@)),
            None => natural_key(title@) is None,
        },
{
    match capture_key(key_pattern(), title) {
        Some(found) => {
            let letters = chars_of(found.0.as_str());
            let digits = chars_of(found.1.as_str());
            Some((letters, digits))
        },
        None => None,
    }
}

/// Compares two titles by their keys, taken beforehand, and by their
/// characters where either has no key.
pub(crate) fn compare_keyed(
    a: &[char],
    a_key: &Option<(Vec<char>, Vec<char>)>,
    b: &[char],
    b_key: &Option<(Vec<char>, Vec<char>)>,
) -> (r: i8)
    requires
        match a_key {
            Some(k) => natural_key(a@) == Some((k.0@, k.1@)),
            None => natural_key(a@) is None,
        },
        match b_key {
            Some(k) => natural_key(b@) == Some((k.0@, k.1@)),
            None => natural_key(b@) is None,
        },
    ensures
        r == natural_sign(a@, b@),
{
    match (a_key, b_key) {
        (Some(ka), Some(kb)) => {
            let by_letters = compare_text(ka.0.as_slice(), kb.0.as_slice());
            if by_letters != 0 {
                by_letters
            } else {
                proof {
                    lemma_key_digits(a@);
                    lemma_key_digits(b@);
                }
                compare_numbers(ka.1.as_slice(), kb.1.as_slice())
            }
        },
        _ => compare_text(a, b),
    }
}

/// Compares two titles in natural order: `-1`, `0` or `1` as [`natural_sign`]
/// says.
pub fn compare_titles(a: &str, b: &str) -> (r: i8)
    ensures
        r == natural_sign(a@, b@),
{
    let a_key = key_of(a);
    let b_key = key_of(b);
    compare_keyed(chars_of(a).as_slice(), &a_key, chars_of(b).as_slice(), &b_key)
}

} // verus!
