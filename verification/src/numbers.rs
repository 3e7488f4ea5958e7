//! Reading decimal numbers from text.

use vstd::prelude::*;
use crate::strings::concat2;

verus! {

/// Whether the character is one of the ten decimal digits.
pub open spec fn is_digit(c: char) -> bool {
    '0' <= c <= '9'
}

/// The value of a decimal digit.
pub open spec fn digit_value(c: char) -> nat {
    (c as u32 - '0' as u32) as nat
}

/// Whether every character is a decimal digit.
pub open spec fn all_digits(text: Seq<char>) -> bool {
    forall|i: int| 0 <= i < text.len() ==> is_digit(#[trigger] text[i])
}

/// The number that a sequence of decimal digits writes.
pub open spec fn decimal_value(digits: Seq<char>) -> nat
    decreases digits.len(),
{
    if digits.len() == 0 {
        0
    } else {
        decimal_value(digits.drop_last()) * 10 + digit_value(digits.last())
    }
}

/// The digits of a number text: the text itself, without a leading plus sign.
pub open spec fn digits_of(text: Seq<char>) -> Seq<char> {
    if text.len() > 0 && text[0] == '+' {
        text.subrange(1, text.len() as int)
    } else {
        text
    }
}

/// The number that a text writes, if it writes one of at most `max`: one or
/// more decimal digits, after at most one plus sign, and nothing else.
pub open spec fn parse_decimal_spec(text: Seq<char>, max: u64) -> Option<u64> {
    let digits = digits_of(text);
    if digits.len() > 0 && all_digits(digits) && decimal_value(digits) <= max {
        Some(decimal_value(digits) as u64)
    } else {
        None
    }
}

/// More digits never write a smaller number.
proof fn lemma_value_grows(digits: Seq<char>, upto: int)
    requires
        0 <= upto <= digits.len(),
    ensures
        decimal_value(digits.subrange(0, upto)) <= decimal_value(digits),
    decreases digits.len() - upto,
{
    if upto < digits.len() {
        lemma_value_grows(digits, upto + 1);
        assert(digits.subrange(0, upto + 1).drop_last() =~= digits.subrange(0, upto));
    } else {
        assert(digits.subrange(0, upto) =~= digits);
    }
}

/// Reads a decimal number of at most `max` from a text.
pub fn parse_decimal(text: &str, max: u64) -> (value: Option<u64>)
    ensures
        value == parse_decimal_spec(text@, max),
{
    let n = text.unicode_len();
    let start: usize = if n > 0 && text.get_char(0) == '+' {
        1
    } else {
        0
    };
    let ghost digits = digits_of(text@);
    assert(digits =~= text@.subrange(start as int, n as int));
    if start == n {
        return None;
    }
    let mut acc: u64 = 0;
    let mut i: usize = start;
    while i < n
        invariant
            start <= i <= n,
            n == text@.len(),
            digits == text@.subrange(start as int, n as int),
            digits == digits_of(text@),
            all_digits(digits.subrange(0, i - start)),
            acc == decimal_value(digits.subrange(0, i - start)),
            acc <= max,
        decreases n - i,
    {
        let c = text.get_char(i);
        let ghost prefix = digits.subrange(0, i - start);
        let ghost next = digits.subrange(0, i + 1 - start);
        proof {
            assert(next.drop_last() =~= prefix);
            assert(next.last() == c);
        }
        if !(c >= '0' && c <= '9') {
            proof {
                assert(digits[i - start] == c);
                assert(!all_digits(digits));
            }
            return None;
        }
        let d: u64 = (c as u32 - '0' as u32) as u64;
        proof {
            assert forall|k: int| 0 <= k < next.len() implies is_digit(#[trigger] next[k]) by {
                if k < prefix.len() {
                    assert(next[k] == prefix[k]);
                }
            }
        }
        let wide: u128 = acc as u128 * 10 + d as u128;
        if wide > max as u128 {
            proof {
                assert(decimal_value(next) == acc * 10 + d);
                lemma_value_grows(digits, i + 1 - start);
            }
            return None;
        }
        acc = wide as u64;
        i += 1;
    }
    proof {
        assert(digits.subrange(0, n - start) =~= digits);
    }
    Some(acc)
}

/// The character of a decimal digit.
pub open spec fn digit_char(digit: nat) -> char {
    if digit == 0 {
        '0'
    } else if digit == 1 {
        '1'
    } else if digit == 2 {
        '2'
    } else if digit == 3 {
        '3'
    } else if digit == 4 {
        '4'
    } else if digit == 5 {
        '5'
    } else if digit == 6 {
        '6'
    } else if digit == 7 {
        '7'
    } else if digit == 8 {
        '8'
    } else {
        '9'
    }
}

/// A number written in decimal digits, without leading zeros.
pub open spec fn decimal_text(n: nat) -> Seq<char>
    decreases n,
{
    if n < 10 {
        seq![digit_char(n)]
    } else {
        decimal_text(n / 10).push(digit_char(n % 10))
    }
}

/// The text of a decimal digit.
fn digit_text(digit: u64) -> (text: &'static str)
    requires
        digit < 10,
    ensures
        text@ == seq![digit_char(digit as nat)],
{
    proof {
        reveal_strlit("0");
        reveal_strlit("1");
        reveal_strlit("2");
        reveal_strlit("3");
        reveal_strlit("4");
        reveal_strlit("5");
        reveal_strlit("6");
        reveal_strlit("7");
        reveal_strlit("8");
        reveal_strlit("9");
    }
    let text = if digit == 0 {
        "0"
    } else if digit == 1 {
        "1"
    } else if digit == 2 {
        "2"
    } else if digit == 3 {
        "3"
    } else if digit == 4 {
        "4"
    } else if digit == 5 {
        "5"
    } else if digit == 6 {
        "6"
    } else if digit == 7 {
        "7"
    } else if digit == 8 {
        "8"
    } else {
        "9"
    };
    assert(text@ =~= seq![digit_char(digit as nat)]);
    text
}

/// The digits of `n` end with the digits that `tail` holds already, when
/// `rest` is what is left of `n` over them.
spec fn written(n: nat, rest: nat, tail: Seq<char>) -> bool {
    decimal_text(n) == (if rest > 0 {
        decimal_text(rest)
    } else {
        Seq::empty()
    }) + tail
}

/// Writes a number in decimal digits.
pub fn format_decimal(n: u64) -> (text: String)
    ensures
        text@ == decimal_text(n as nat),
{
    let mut out: String = digit_text(n % 10).to_owned();
    let mut rest: u64 = n / 10;
    proof {
        if n >= 10 {
            assert(decimal_text(n as nat) =~= decimal_text(rest as nat) + out@);
        } else {
            assert(decimal_text(n as nat) =~= Seq::<char>::empty() + out@);
        }
    }
    while rest > 0
        invariant
            written(n as nat, rest as nat, out@),
        decreases rest,
    {
        let digit = digit_text(rest % 10);
        let ghost tail = out@;
        out = concat2(digit, out.as_str());
        proof {
            let last = seq![digit_char((rest % 10) as nat)];
            if rest >= 10 {
                assert(decimal_text(rest as nat) =~= decimal_text((rest / 10) as nat) + last);
                assert(decimal_text(n as nat) =~= decimal_text((rest / 10) as nat) + (last + tail));
            } else {
                assert(decimal_text(rest as nat) =~= last);
                assert(decimal_text(n as nat) =~= Seq::<char>::empty() + (last + tail));
            }
        }
        rest = rest / 10;
    }
    assert(out@ =~= Seq::<char>::empty() + out@);
    out
}

/// What is written is read back: the decimal text of a number is made of
/// digits, and these write the number.
pub proof fn lemma_decimal_round_trip(n: nat, max: u64)
    requires
        n <= max,
    ensures
        all_digits(decimal_text(n)),
        decimal_value(decimal_text(n)) == n,
        parse_decimal_spec(decimal_text(n), max) == Some(n as u64),
    decreases n,
{
    let text = decimal_text(n);
    if n < 10 {
        assert(text.drop_last() =~= Seq::<char>::empty());
        assert(decimal_value(text.drop_last()) == 0);
        assert(digit_value(text.last()) == n);
    } else {
        lemma_decimal_round_trip(n / 10, max);
        assert(text.drop_last() =~= decimal_text(n / 10));
        assert(digit_value(text.last()) == n % 10);
        assert forall|i: int| 0 <= i < text.len() implies is_digit(#[trigger] text[i]) by {
            if i < text.len() - 1 {
                assert(text[i] == decimal_text(n / 10)[i]);
            }
        }
    }
    lemma_starts_with_digit(n);
    assert(digits_of(text) == text);
}

/// The decimal text of a number is not empty and starts with a digit.
proof fn lemma_starts_with_digit(n: nat)
    ensures
        decimal_text(n).len() > 0,
        is_digit(decimal_text(n)[0]),
    decreases n,
{
    if n >= 10 {
        lemma_starts_with_digit(n / 10);
    }
}

} // verus!
