use crate::error::BudgrError;
use vstd::prelude::*;
use vstd::string::*;

verus! {

/// `String::push` of std appends the given char at the end of the string and leaves the
/// chars before it as they were.
pub assume_specification[ String::push ](s: &mut String, ch: char)
    ensures
        final(s)@ == old(s)@.push(ch),
;

/// The text with `ch` put in front of the char at position `at`, counted in chars, and
/// at the end of the text where it has no such position.
pub fn insert_char(text: &String, at: usize, ch: char) -> (out: String)
    ensures
        out@ == text@.insert(if at <= text@.len() { at as int } else { text@.len() as int }, ch),
{
    let len: usize = text.as_str().unicode_len();
    let place: usize = if at <= len {
        at
    } else {
        len
    };
    let mut out = String::from_str(text.as_str().substring_char(0, place));
    out.push(ch);
    out.append(text.as_str().substring_char(place, len));
    out
}

/// The text without the char at position `at`, counted in chars, and the whole text where
/// it has no char there.
pub fn remove_char(text: &String, at: usize) -> (out: String)
    ensures
        out@ == if at < text@.len() {
            text@.remove(at as int)
        } else {
            text@
        },
{
    let len: usize = text.as_str().unicode_len();
    if at < len {
        let mut out = String::from_str(text.as_str().substring_char(0, at));
        out.append(text.as_str().substring_char(at + 1, len));
        out
    } else {
        text.clone()
    }
}

/// Whether `ch` occurs in the text.
pub fn contains_char(text: &str, ch: char) -> (found: bool)
    ensures
        found == text@.contains(ch),
{
    let mut found = false;
    for c in it: text.chars()
        invariant
            it.seq() == text@,
            found == exists|j: int| 0 <= j < it.index() && it.seq()[j] == ch,
    {
        if c == ch {
            found = true;
        }
    }
    found
}

/// Whether `c` is one of the ten decimal digits.
pub open spec fn is_digit(c: char) -> bool {
    '0' <= c <= '9'
}

/// The number that a decimal digit stands for.
pub open spec fn digit_of(c: char) -> int {
    c as int - '0' as int
}

/// The number that a run of decimal digits stands for, the most significant digit first.
pub open spec fn decimal_value(digits: Seq<char>) -> int
    decreases digits.len(),
{
    if digits.len() == 0 {
        0
    } else {
        10 * decimal_value(digits.drop_last()) + digit_of(digits.last())
    }
}

/// How many chars of `text` are its sign: one where it starts with `+` or `-`, else none.
pub open spec fn sign_len(text: Seq<char>) -> int {
    if text.len() > 0 && (text[0] == '-' || text[0] == '+') {
        1
    } else {
        0
    }
}

/// The cost that a text stands for: an optional sign, `+` or `-`, and after it one or more
/// decimal digits and nothing else, with a value that fits in `i64`.
pub open spec fn parsed_cost(text: Seq<char>) -> Option<i64> {
    let digits = text.skip(sign_len(text));
    let magnitude = decimal_value(digits);
    let value = if text.len() > 0 && text[0] == '-' {
        -magnitude
    } else {
        magnitude
    };
    if digits.len() > 0 && (forall|i: int| 0 <= i < digits.len() ==> is_digit(digits[i]))
        && i64::MIN <= value <= i64::MAX {
        Some(value as i64)
    } else {
        None
    }
}

proof fn lemma_decimal_value_nonnegative(digits: Seq<char>)
    requires
        forall|i: int| 0 <= i < digits.len() ==> is_digit(digits[i]),
    ensures
        0 <= decimal_value(digits),
    decreases digits.len(),
{
    if digits.len() > 0 {
        lemma_decimal_value_nonnegative(digits.drop_last());
    }
}

/// Reads a cost as `str::parse::<i64>` of std reads an integer.
pub fn parse_cost(text: &str) -> (r: Result<i64, BudgrError>)
    ensures
        r == match parsed_cost(text@) {
            Some(cost) => Ok::<i64, BudgrError>(cost),
            None => Err::<i64, BudgrError>(BudgrError::ParseFailure),
        },
{
    let mut first = true;
    let mut negative = false;
    let mut any_digit = false;
    let mut too_large = false;
    let mut magnitude: u64 = 0;
    let ghost start = sign_len(text@);
    for c in it: text.chars()
        invariant
            it.seq() == text@,
            start == sign_len(text@),
            first == (it.index() == 0),
            negative == (it.index() > 0 && text@[0] == '-'),
            any_digit == (it.index() > start),
            it.index() > 0 ==> it.index() >= start,
            forall|i: int| start <= i < it.index() ==> is_digit(text@[i]),
            magnitude <= 0x8000_0000_0000_0000,
            it.index() >= start ==> {
                let value = decimal_value(text@.subrange(start, it.index() as int));
                if too_large {
                    value > 0x8000_0000_0000_0000
                } else {
                    value == magnitude
                }
            },
            it.index() < start ==> magnitude == 0 && !too_large,
    {
        let ghost at = it.index() as int;
        if first && (c == '-' || c == '+') {
            negative = c == '-';
        } else if '0' <= c && c <= '9' {
            let digit: u64 = (c as u64) - ('0' as u64);
            proof {
                let longer = text@.subrange(start, at + 1);
                assert(longer.drop_last() =~= text@.subrange(start, at));
                lemma_decimal_value_nonnegative(text@.subrange(start, at));
            }
            any_digit = true;
            if !too_large {
                let next: u128 = (magnitude as u128) * 10 + (digit as u128);
                if next > 0x8000_0000_0000_0000 {
                    too_large = true;
                } else {
                    magnitude = next as u64;
                }
            }
        } else {
            assert(!is_digit(text@.skip(start)[at - start]));
            return Err(BudgrError::ParseFailure);
        }
        first = false;
    }
    if !any_digit || too_large {
        return Err(BudgrError::ParseFailure);
    }
    if negative {
        if magnitude == 0x8000_0000_0000_0000 {
            Ok(i64::MIN)
        } else {
            Ok(-(magnitude as i64))
        }
    } else if magnitude == 0x8000_0000_0000_0000 {
        Err(BudgrError::ParseFailure)
    } else {
        Ok(magnitude as i64)
    }
}

/// The char that stands for a digit from 0 to 9.
pub open spec fn digit_char(digit: int) -> char {
    seq!['0', '1', '2', '3', '4', '5', '6', '7', '8', '9'][digit]
}

/// The decimal digits of a number, the most significant first and without leading zeros.
pub open spec fn decimal_digits(n: nat) -> Seq<char>
    decreases n,
{
    if n < 10 {
        seq![digit_char(n as int)]
    } else {
        decimal_digits(n / 10).push(digit_char((n % 10) as int))
    }
}

/// A number written in decimal digits, with `-` in front of a negative one.
pub open spec fn decimal_text(n: int) -> Seq<char> {
    if n < 0 {
        seq!['-'] + decimal_digits((-n) as nat)
    } else {
        decimal_digits(n as nat)
    }
}

fn digit_to_char(digit: u128) -> (c: char)
    requires
        digit < 10,
    ensures
        c == digit_char(digit as int),
{
    if digit == 0 {
        '0'
    } else if digit == 1 {
        '1'
    } else if digit == 2 {
        '2'
    } else if digit == 3 {
        '3'
    } else if digit == 4 {
        '4'
    } else if digit == 5 {
        '5'
    } else if digit == 6 {
        '6'
    } else if digit == 7 {
        '7'
    } else if digit == 8 {
        '8'
    } else {
        '9'
    }
}

fn push_decimal_digits(text: &mut String, n: u128)
    ensures
        final(text)@ == old(text)@ + decimal_digits(n as nat),
    decreases n,
{
    if n >= 10 {
        push_decimal_digits(text, n / 10);
    }
    text.push(digit_to_char(n % 10));
}

/// Writes a number in decimal digits.
pub fn decimal(value: i128) -> (text: String)
    ensures
        text@ == decimal_text(value as int),
{
    let mut text = String::new();
    if value < 0 {
        text.push('-');
        let magnitude: u128 = ((-(value + 1)) as u128) + 1;
        push_decimal_digits(&mut text, magnitude);
    } else {
        push_decimal_digits(&mut text, value as u128);
    }
    text
}

/// The digits of a number are digits, and they stand for the number.
pub proof fn lemma_decimal_digits_value(n: nat)
    ensures
        decimal_digits(n).len() > 0,
        forall|i: int| 0 <= i < decimal_digits(n).len() ==> is_digit(decimal_digits(n)[i]),
        decimal_value(decimal_digits(n)) == n,
    decreases n,
{
    if n < 10 {
        assert(decimal_value(decimal_digits(n)) == n) by {
            reveal_with_fuel(decimal_value, 2);
        }
    } else {
        lemma_decimal_digits_value(n / 10);
        assert(decimal_digits(n).drop_last() =~= decimal_digits(n / 10));
    }
}

/// A cost that is written in decimal digits reads back as the same cost.
pub proof fn lemma_written_cost_reads_back(cost: i64)
    ensures
        parsed_cost(decimal_text(cost as int)) == Some(cost),
{
    let text = decimal_text(cost as int);
    if cost < 0 {
        let digits = decimal_digits((-cost) as nat);
        lemma_decimal_digits_value((-cost) as nat);
        assert(text.skip(1) =~= digits);
    } else {
        let digits = decimal_digits(cost as nat);
        lemma_decimal_digits_value(cost as nat);
        assert(text.skip(0) =~= digits);
    }
}

} // verus!
