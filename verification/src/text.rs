//! Texts as sequences of characters: reading a `str` character by character.

use crate::scan::{first_where, lemma_first_where_is};
use vstd::prelude::*;

verus! {

/// The characters of `s`, in order.
pub fn chars_of(s: &str) -> (chars: Vec<char>)
    ensures
        chars@ == s@,
{
    let mut chars: Vec<char> = Vec::new();
    for c in it: s.chars()
        invariant
            chars@ == it.seq().take(it.index() as int),
            it.seq() == s@,
    {
        chars.push(c);
    }
    chars
}

/// Index of the first `wanted` in `text`; the length of `text` where it holds
/// none.
pub open spec fn position(text: Seq<char>, wanted: char) -> int {
    first_where(text, is_char(wanted)) as int
}

/// The property of being the character `wanted`.
pub open spec fn is_char(wanted: char) -> spec_fn(char) -> bool {
    |c: char| c == wanted
}

/// Index of the first `wanted` among `chars[from..to]`, counted in `chars`; `to`
/// where there is none.
pub fn find_char(chars: &Vec<char>, from: usize, to: usize, wanted: char) -> (at: usize)
    requires
        from <= to <= chars.len(),
    ensures
        from <= at <= to,
        at - from == position(chars@.subrange(from as int, to as int), wanted),
{
    let mut at = from;
    while at < to && chars[at] != wanted
        invariant
            from <= at <= to <= chars.len(),
            forall|j: int| from <= j < at ==> chars@[j] != wanted,
        decreases to - at,
    {
        at += 1;
    }
    proof {
        lemma_first_where_is(
            chars@.subrange(from as int, to as int),
            is_char(wanted),
            at - from,
        );
    }
    at
}

/// Whether `c` is one of the ten decimal digits.
pub open spec fn is_digit(c: char) -> bool {
    '0' <= c && c <= '9'
}

/// The number that the digit `c` stands for.
pub open spec fn digit_of(c: char) -> nat {
    if is_digit(c) {
        (c as u32 - '0' as u32) as nat
    } else {
        0
    }
}

/// Whether `text` holds decimal digits only.
pub open spec fn all_digits(text: Seq<char>) -> bool {
    forall|at: int| 0 <= at < text.len() ==> is_digit(#[trigger] text[at])
}

/// The number that `digits` are the decimal notation of.
pub open spec fn decimal(digits: Seq<char>) -> nat
    decreases digits.len(),
{
    if digits.len() == 0 {
        0
    } else {
        10 * decimal(digits.drop_last()) + digit_of(digits.last())
    }
}

/// `text` without the plus sign that it may begin with.
pub open spec fn without_plus(text: Seq<char>) -> Seq<char> {
    if text.len() > 0 && text[0] == '+' {
        text.skip(1)
    } else {
        text
    }
}

/// The number that `text` denotes: an optional plus sign, then at least one
/// decimal digit and nothing else, the number within 64 bits.
pub open spec fn parse_u64_spec(text: Seq<char>) -> Option<u64> {
    let digits = without_plus(text);
    if digits.len() > 0 && all_digits(digits) && decimal(digits) <= u64::MAX {
        Some(decimal(digits) as u64)
    } else {
        None
    }
}

/// More digits never make a smaller number.
pub proof fn lemma_decimal_grows(digits: Seq<char>, upto: int)
    requires
        0 <= upto <= digits.len(),
    ensures
        decimal(digits.take(upto)) <= decimal(digits),
    decreases digits.len() - upto,
{
    if upto == digits.len() {
        assert(digits.take(upto) =~= digits);
    } else {
        lemma_decimal_grows(digits.drop_last(), upto);
        assert(digits.drop_last().take(upto) =~= digits.take(upto));
    }
}

/// The number that `c` stands for, where it is a decimal digit.
pub fn digit(c: char) -> (value: Option<u64>)
    ensures
        match value {
            Some(value) => is_digit(c) && value == digit_of(c),
            None => !is_digit(c),
        },
{
    let code = c as u32;
    if 48 <= code && code <= 57 {
        Some((code - 48) as u64)
    } else {
        None
    }
}

/// Reads `text` as a number in decimal notation.
pub fn parse_u64(text: &str) -> (number: Option<u64>)
    ensures
        number == parse_u64_spec(text@),
{
    let chars = chars_of(text);
    let from: usize = if chars.len() > 0 && chars[0] == '+' {
        1
    } else {
        0
    };
    let ghost digits = without_plus(text@);
    if from == chars.len() {
        return None;
    }
    let mut value: u64 = 0;
    let mut at: usize = from;
    proof {
        assert(digits.take(0) =~= Seq::<char>::empty());
    }
    while at < chars.len()
        invariant
            chars@ == text@,
            digits == without_plus(text@),
            digits == chars@.skip(from as int),
            from <= at <= chars.len(),
            all_digits(digits.take(at - from)),
            value == decimal(digits.take(at - from)),
        decreases chars.len() - at,
    {
        let c = chars[at];
        let ghost seen = digits.take(at - from + 1);
        proof {
            assert(seen.drop_last() =~= digits.take(at - from));
            assert(seen.last() == c);
            lemma_decimal_grows(digits, at - from + 1);
        }
        let digit = match digit(c) {
            Some(digit) => digit,
            None => {
                proof {
                    assert(digits[at - from] == c);
                }
                return None;
            },
        };
        proof {
            assert forall|i: int| 0 <= i < seen.len() implies is_digit(#[trigger] seen[i]) by {
                if i < at - from {
                    assert(seen[i] == digits.take(at - from)[i]);
                }
            }
        }
        let tenfold = match value.checked_mul(10) {
            Some(tenfold) => tenfold,
            None => {
                return None;
            },
        };
        value = match tenfold.checked_add(digit) {
            Some(sum) => sum,
            None => {
                return None;
            },
        };
        at += 1;
    }
    proof {
        assert(digits.take(at - from) =~= digits);
    }
    Some(value)
}

} // verus!
