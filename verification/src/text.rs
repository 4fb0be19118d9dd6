//! Reading values out of the text of a form field or a path segment.

use vstd::prelude::*;
use vstd::string::*;
use vstd::utf8::{is_ascii_chars, is_ascii_chars_encode_utf8};

verus! {

/// The byte of `-` in ASCII.
const MINUS: u8 = 45;

/// The byte of `+` in ASCII.
const PLUS: u8 = 43;

/// The byte of `0` in ASCII.
const ZERO: u8 = 48;

/// The byte of `9` in ASCII.
const NINE: u8 = 57;

/// Whether `c` is one of the ten decimal digits.
pub open spec fn is_digit(c: char) -> bool {
    '0' <= c && c <= '9'
}

/// The number that the digit `c` stands for.
pub open spec fn digit_of(c: char) -> int {
    c as int - '0' as int
}

/// Whether every character of `s` is a decimal digit.
pub open spec fn all_digits(s: Seq<char>) -> bool {
    forall|i: int| 0 <= i < s.len() ==> is_digit(#[trigger] s[i])
}

/// The number written by the decimal digits `s`; leading zeros are allowed.
pub open spec fn digits_value(s: Seq<char>) -> int
    decreases s.len(),
{
    if s.len() == 0 {
        0
    } else {
        10 * digits_value(s.drop_last()) + digit_of(s.last())
    }
}

/// The number written by one or more decimal digits, or `None` for any other text.
pub open spec fn unsigned_value(s: Seq<char>) -> Option<int> {
    if s.len() > 0 && all_digits(s) {
        Some(digits_value(s))
    } else {
        None
    }
}

/// The integer written by `s`: an optional `+` or `-` followed by one or more
/// decimal digits and nothing else.
pub open spec fn integer_value(s: Seq<char>) -> Option<int> {
    if s.len() > 0 && s[0] == '-' {
        match unsigned_value(s.skip(1)) {
            Some(v) => Some(-v),
            None => None,
        }
    } else if s.len() > 0 && s[0] == '+' {
        unsigned_value(s.skip(1))
    } else {
        unsigned_value(s)
    }
}

/// The integer written by `s` if there is one and it fits in an `i64`.
pub open spec fn i64_value(s: Seq<char>) -> Option<i64> {
    match integer_value(s) {
        Some(v) => if i64::MIN <= v <= i64::MAX {
            Some(v as i64)
        } else {
            None
        },
        None => None,
    }
}

/// The truth value written by `s`: exactly `true` or `false`.
pub open spec fn bool_value(s: Seq<char>) -> Option<bool> {
    if s == "true"@ {
        Some(true)
    } else if s == "false"@ {
        Some(false)
    } else {
        None
    }
}

/// Digits never write a negative number, and a longer run of digits writes a
/// number at least as large as any of its prefixes.
pub proof fn lemma_digits_value_grows(s: Seq<char>, k: int)
    requires
        all_digits(s),
        0 <= k <= s.len(),
    ensures
        0 <= digits_value(s.take(k)) <= digits_value(s),
    decreases s.len() - k,
{
    lemma_digits_value_nonnegative(s.take(k));
    if k < s.len() {
        lemma_digits_value_grows(s, k + 1);
        assert(s.take(k + 1).drop_last() == s.take(k));
        assert(is_digit(s[k]));
    } else {
        assert(s.take(k) == s);
    }
}

proof fn lemma_digits_value_nonnegative(s: Seq<char>)
    requires
        all_digits(s),
    ensures
        0 <= digits_value(s),
    decreases s.len(),
{
    if s.len() > 0 {
        lemma_digits_value_nonnegative(s.drop_last());
        assert(is_digit(s.last()));
    }
}

/// Whether `text` is exactly the ASCII word `word`.
pub(crate) fn is_word(text: &str, word: &str) -> (same: bool)
    requires
        word.is_ascii(),
    ensures
        same == (text@ == word@),
{
    if !text.is_ascii() {
        return false;
    }
    proof {
        is_ascii_chars_encode_utf8(text@);
        is_ascii_chars_encode_utf8(word@);
    }
    let n: usize = word.as_bytes().len();
    if text.as_bytes().len() != n {
        return false;
    }
    let mut i: usize = 0;
    while i < n
        invariant
            text.is_ascii(),
            word.is_ascii(),
            n == word@.len(),
            n == text@.len(),
            i <= n,
            text@.take(i as int) == word@.take(i as int),
        decreases n - i,
    {
        if text.get_ascii(i) != word.get_ascii(i) {
            return false;
        }
        assert(text@.take(i + 1) == text@.take(i as int).push(text@[i as int]));
        assert(word@.take(i + 1) == word@.take(i as int).push(word@[i as int]));
        i = i + 1;
    }
    assert(text@ == text@.take(n as int));
    assert(word@ == word@.take(n as int));
    true
}

/// Reads a truth value: `true` or `false`, in exactly these letters.
pub fn parse_bool(text: &str) -> (value: Option<bool>)
    ensures
        value == bool_value(text@),
{
    proof {
        reveal_strlit("true");
        reveal_strlit("false");
    }
    if is_word(text, "true") {
        Some(true)
    } else if is_word(text, "false") {
        Some(false)
    } else {
        None
    }
}

/// Reads a decimal integer: an optional sign, one or more digits, nothing else,
/// and a value that an `i64` can hold.
pub fn parse_i64(text: &str) -> (value: Option<i64>)
    ensures
        value == i64_value(text@),
{
    if !text.is_ascii() {
        proof {
            lemma_not_ascii_is_no_integer(text@);
        }
        return None;
    }
    proof {
        is_ascii_chars_encode_utf8(text@);
    }
    let n: usize = text.as_bytes().len();
    if n == 0 {
        return None;
    }
    let first: u8 = text.get_ascii(0);
    let negative: bool = first == MINUS;
    let start: usize = if first == MINUS || first == PLUS {
        1
    } else {
        0
    };
    let ghost digits: Seq<char> = text@.skip(start as int);
    assert(integer_value(text@) == match unsigned_value(digits) {
        Some(v) => Some(if negative { -v } else { v }),
        None => None,
    }) by {
        assert(text@.skip(0) == text@);
    }
    if start == n {
        return None;
    }
    let limit: u64 = if negative {
        0x8000_0000_0000_0000
    } else {
        0x7fff_ffff_ffff_ffff
    };
    let mut total: u64 = 0;
    let mut i: usize = start;
    while i < n
        invariant
            text.is_ascii(),
            n == text@.len(),
            start <= i <= n,
            digits == text@.skip(start as int),
            all_digits(digits.take(i - start)),
            total == digits_value(digits.take(i - start)),
            total <= limit,
            limit == if negative {
                0x8000_0000_0000_0000u64
            } else {
                0x7fff_ffff_ffff_ffffu64
            },
            integer_value(text@) == (match unsigned_value(digits) {
                Some(v) => Some(if negative {
                    -v
                } else {
                    v
                }),
                None => None,
            }),
        decreases n - i,
    {
        let byte: u8 = text.get_ascii(i);
        let ghost c: char = text@[i as int];
        assert(digits[i - start] == c);
        if byte < ZERO || byte > NINE {
            assert(!is_digit(c));
            return None;
        }
        let digit: u64 = (byte - ZERO) as u64;
        assert(is_digit(c) && digit == digit_of(c));
        let ghost longer: Seq<char> = digits.take(i - start + 1);
        assert(longer.drop_last() == digits.take(i - start));
        assert(longer.last() == c);
        assert(all_digits(longer)) by {
            assert forall|j: int| 0 <= j < longer.len() implies is_digit(#[trigger] longer[j]) by {
                if j < i - start {
                    assert(longer[j] == digits.take(i - start)[j]);
                }
            }
        }
        if total > (limit - digit) / 10 {
            proof {
                assert(digits_value(longer) > limit);
                if all_digits(digits) {
                    lemma_digits_value_grows(digits, i - start + 1);
                }
            }
            return None;
        }
        total = total * 10 + digit;
        i = i + 1;
    }
    assert(digits.take(n - start) == digits);
    if negative {
        if total == 0x8000_0000_0000_0000 {
            Some(i64::MIN)
        } else {
            Some(-(total as i64))
        }
    } else {
        Some(total as i64)
    }
}

/// Text with a character outside ASCII holds something that is neither a sign
/// nor a digit, so it writes no integer.
proof fn lemma_not_ascii_is_no_integer(s: Seq<char>)
    requires
        !is_ascii_chars(s),
    ensures
        integer_value(s) is None,
{
    let i = choose|i: int| 0 <= i < s.len() && !('\0' <= #[trigger] s[i] <= '\u{7f}');
    assert(!is_digit(s[i]));
    if i == 0 {
        assert(s[0] != '-' && s[0] != '+');
    } else {
        assert(s.skip(1)[i - 1] == s[i]);
    }
}

} // verus!
