//! Reading a signed decimal number, as the attributes of a coverage report
//! hold them: an optional sign, then one or more digits, and nothing else.

use crate::text::chars_of;
use vstd::prelude::*;

verus! {

/// Whether `c` is one of the ten decimal digits.
pub open spec fn is_digit(c: char) -> bool {
    '0' <= c && c <= '9'
}

/// The value of a decimal digit.
pub open spec fn digit_value(c: char) -> int {
    c as int - '0' as int
}

/// Whether `s` holds decimal digits only.
pub open spec fn all_digits(s: Seq<char>) -> bool {
    forall|i: int| 0 <= i < s.len() ==> is_digit(#[trigger] s[i])
}

/// The number that the digits `s` write.
pub open spec fn digits_value(s: Seq<char>) -> int
    decreases s.len(),
{
    if s.len() == 0 {
        0
    } else {
        digits_value(s.drop_last()) * 10 + digit_value(s.last())
    }
}

/// Whether `s` begins with a sign.
pub open spec fn has_sign(s: Seq<char>) -> bool {
    s.len() > 0 && (s[0] == '-' || s[0] == '+')
}

/// What follows the sign of `s`, if it has one.
pub open spec fn unsigned_part(s: Seq<char>) -> Seq<char> {
    if has_sign(s) {
        s.subrange(1, s.len() as int)
    } else {
        s
    }
}

/// The number that `s` writes: `None` where `s` is not an optional sign
/// followed by at least one digit.
pub open spec fn decimal(s: Seq<char>) -> Option<int> {
    let digits = unsigned_part(s);
    if digits.len() > 0 && all_digits(digits) {
        if s[0] == '-' {
            Some(-digits_value(digits))
        } else {
            Some(digits_value(digits))
        }
    } else {
        None
    }
}

/// The number that `s` writes, where it is one and fits in 32 bits.
pub open spec fn decimal_i32(s: Seq<char>) -> Option<i32> {
    match decimal(s) {
        Some(value) => if i32::MIN <= value <= i32::MAX {
            Some(value as i32)
        } else {
            None
        },
        None => None,
    }
}

/// The value of digits is never negative, and a longer run of digits is
/// worth at least as much as any of its beginnings.
pub proof fn lemma_digits_grow(s: Seq<char>, n: int)
    requires
        all_digits(s),
        0 <= n <= s.len(),
    ensures
        0 <= digits_value(s.take(n)) <= digits_value(s),
    decreases s.len() - n,
{
    if n == s.len() {
        assert(s.take(n) == s);
        lemma_digits_not_negative(s);
    } else {
        lemma_digits_grow(s, n + 1);
        assert(s.take(n + 1).drop_last() == s.take(n));
        assert(is_digit(s[n]));
        lemma_digits_not_negative(s.take(n));
    }
}

/// The value of digits is never negative.
pub proof fn lemma_digits_not_negative(s: Seq<char>)
    requires
        all_digits(s),
    ensures
        0 <= digits_value(s),
    decreases s.len(),
{
    if s.len() > 0 {
        assert(is_digit(s[s.len() - 1]));
        lemma_digits_not_negative(s.drop_last());
    }
}

/// Reads a signed decimal number of 32 bits.
pub fn parse_i32(text: &str) -> (number: Option<i32>)
    ensures
        number == decimal_i32(text@),
{
    let chars = chars_of(text);
    let signed = chars.len() > 0 && (chars[0] == '-' || chars[0] == '+');
    let negative = chars.len() > 0 && chars[0] == '-';
    let start: usize = if signed {
        1
    } else {
        0
    };
    if chars.len() == start {
        return None;
    }
    let ghost digits = unsigned_part(chars@);
    assert(digits == chars@.subrange(start as int, chars.len() as int));
    let mut value: i64 = 0;
    let mut index: usize = start;
    while index < chars.len()
        invariant
            start <= index <= chars.len(),
            chars@ == text@,
            digits == unsigned_part(text@),
            digits == chars@.subrange(start as int, chars.len() as int),
            all_digits(digits.take(index - start)),
            value == digits_value(digits.take(index - start)),
            0 <= value <= 2147483648,
        decreases chars.len() - index,
    {
        let c = chars[index];
        proof {
            assert(digits[index - start] == c);
            assert(digits.take(index - start + 1).drop_last() == digits.take(index - start));
        }
        if c < '0' || c > '9' {
            assert(!is_digit(digits[index - start]));
            return None;
        }
        value = value * 10 + (c as i64 - '0' as i64);
        index += 1;
        if value > 2147483648 {
            proof {
                if all_digits(digits) {
                    lemma_digits_grow(digits, index - start);
                }
            }
            return None;
        }
    }
    assert(digits.take(index - start) == digits);
    if negative {
        Some((-value) as i32)
    } else if value > 2147483647 {
        None
    } else {
        Some(value as i32)
    }
}

} // verus!
