//! Whole numbers in decimal notation: reading one from a text and writing one
//! out.

use vstd::prelude::*;
use vstd::string::*;

verus! {

/// Whether `c` is one of the ten decimal digits.
pub open spec fn is_digit(c: char) -> bool {
    '0' <= c <= '9'
}

/// The value of a decimal digit.
pub open spec fn digit_value(c: char) -> int {
    c as int - '0' as int
}

/// Whether every character of `text` is a decimal digit.
pub open spec fn all_digits(text: Seq<char>) -> bool {
    forall|i: int| 0 <= i < text.len() ==> is_digit(#[trigger] text[i])
}

/// The number that a row of digits denotes; zero for the empty row.
pub open spec fn digits_value(digits: Seq<char>) -> int
    decreases digits.len(),
{
    if digits.len() == 0 {
        0
    } else {
        digits_value(digits.drop_last()) * 10 + digit_value(digits.last())
    }
}

/// Whether `text` begins with a sign.
pub open spec fn has_sign(text: Seq<char>) -> bool {
    text.len() > 0 && (text[0] == '-' || text[0] == '+')
}

/// What is left of `text` without its sign, if it has one.
pub open spec fn unsigned_part(text: Seq<char>) -> Seq<char> {
    if has_sign(text) {
        text.subrange(1, text.len() as int)
    } else {
        text
    }
}

/// The number that `text` denotes, where it denotes one: an optional `+` or
/// `-`, then one or more decimal digits and nothing else.
pub open spec fn decimal_value(text: Seq<char>) -> Option<int> {
    let digits = unsigned_part(text);
    if digits.len() == 0 || !all_digits(digits) {
        None
    } else if text[0] == '-' {
        Some(-digits_value(digits))
    } else {
        Some(digits_value(digits))
    }
}

/// The 32-bit number that `text` denotes, where it denotes one that fits.
pub open spec fn parsed_i32(text: Seq<char>) -> Option<i32> {
    match decimal_value(text) {
        Some(value) => if i32::MIN <= value <= i32::MAX {
            Some(value as i32)
        } else {
            None
        },
        None => None,
    }
}

/// A number denoted by digits is not negative, and no smaller than the number
/// that any of its beginnings denotes.
proof fn lemma_digits_value_grows(digits: Seq<char>, k: int)
    requires
        all_digits(digits),
        0 <= k <= digits.len(),
    ensures
        0 <= digits_value(digits.take(k)) <= digits_value(digits),
    decreases digits.len() - k,
{
    if k == digits.len() {
        assert(digits.take(k) =~= digits);
        lemma_digits_value_not_negative(digits);
    } else {
        lemma_digits_value_grows(digits, k + 1);
        let longer = digits.take(k + 1);
        assert(longer.drop_last() =~= digits.take(k));
        assert(is_digit(digits[k]));
        assert(longer.last() == digits[k]);
        lemma_digits_value_not_negative(digits.take(k));
    }
}

proof fn lemma_digits_value_not_negative(digits: Seq<char>)
    requires
        all_digits(digits),
    ensures
        0 <= digits_value(digits),
    decreases digits.len(),
{
    if digits.len() > 0 {
        lemma_digits_value_not_negative(digits.drop_last());
        assert(is_digit(digits.last()));
    }
}

/// Reads a 32-bit number in decimal notation.
///
/// The text is an optional sign and one or more digits. It yields `None`
/// where it is empty, holds anything else, or denotes a number out of range.
pub fn parse_i32(text: &str) -> (number: Option<i32>)
    ensures
        number == parsed_i32(text@),
{
    if !text.is_ascii() {
        proof {
            let i = choose|i: int| 0 <= i < text@.len() && !('\0' <= #[trigger] text@[i] <= '\u{7f}');
            if i > 0 || !has_sign(text@) {
                let digits = unsigned_part(text@);
                let j = if has_sign(text@) { i - 1 } else { i };
                assert(!is_digit(digits[j]));
            }
        }
        return None;
    }
    let length = text.unicode_len();
    if length == 0 {
        return None;
    }
    let first = text.get_ascii(0);
    let negative = first == 45;
    let start: usize = if first == 45 || first == 43 { 1 } else { 0 };
    if start == length {
        return None;
    }
    let ghost digits = unsigned_part(text@);
    assert(digits =~= text@.subrange(start as int, length as int));
    let mut value: i64 = 0;
    let mut index: usize = start;
    while index < length
        invariant
            text.is_ascii(),
            length == text@.len(),
            start <= index <= length,
            start < length,
            digits == unsigned_part(text@),
            digits == text@.subrange(start as int, length as int),
            all_digits(digits.take(index - start)),
            value == digits_value(digits.take(index - start)),
            0 <= value <= 2147483648,
        decreases length - index,
    {
        let byte = text.get_ascii(index);
        let ghost shorter = digits.take(index - start);
        let ghost longer = digits.take(index - start + 1);
        proof {
            assert(longer.drop_last() =~= shorter);
            assert(longer.last() == text@[index as int]);
            assert('\0' <= text@[index as int] <= '\u{7f}');
        }
        if byte < 48 || byte > 57 {
            assert(!is_digit(digits[index - start]));
            return None;
        }
        assert(is_digit(text@[index as int]));
        assert forall|i: int| 0 <= i < longer.len() implies is_digit(#[trigger] longer[i]) by {
            if i < shorter.len() {
                assert(longer[i] == shorter[i]);
            }
        }
        let digit: i64 = (byte - 48) as i64;
        assert(digit == digit_value(text@[index as int]));
        value = value * 10 + digit;
        index = index + 1;
        if value > 2147483648 {
            proof {
                if all_digits(digits) {
                    lemma_digits_value_grows(digits, index - start);
                }
            }
            return None;
        }
    }
    assert(digits.take(index - start) =~= digits);
    if negative {
        Some((-value) as i32)
    } else if value <= 2147483647 {
        Some(value as i32)
    } else {
        None
    }
}

/// The character of the digit `d`.
pub open spec fn digit_char(d: int) -> char
    recommends
        0 <= d <= 9,
{
    (d + 48) as u8 as char
}

/// The digits of a number that is not negative, the most significant first,
/// without leading zeros.
pub open spec fn natural_text(n: int) -> Seq<char>
    recommends
        0 <= n,
    decreases n,
{
    if n < 10 {
        seq![digit_char(n)]
    } else {
        natural_text(n / 10).push(digit_char(n % 10))
    }
}

/// A number in decimal notation: its digits, after a `-` where it is negative.
pub open spec fn decimal_text(n: int) -> Seq<char> {
    if n < 0 {
        seq!['-'] + natural_text(-n)
    } else {
        natural_text(n)
    }
}

fn digit_str(d: u8) -> (text: &'static str)
    requires
        d <= 9,
    ensures
        text@ == seq![digit_char(d as int)],
{
    proof {
        reveal_strlit("0");
        reveal_strlit("1");
        reveal_strlit("2");
        reveal_strlit("3");
        reveal_strlit("4");
        reveal_strlit("5");
        reveal_strlit("6");
        reveal_strlit("7");
        reveal_strlit("8");
        reveal_strlit("9");
    }
    let text = if d == 0 {
        "0"
    } else if d == 1 {
        "1"
    } else if d == 2 {
        "2"
    } else if d == 3 {
        "3"
    } else if d == 4 {
        "4"
    } else if d == 5 {
        "5"
    } else if d == 6 {
        "6"
    } else if d == 7 {
        "7"
    } else if d == 8 {
        "8"
    } else {
        "9"
    };
    assert(text@ =~= seq![digit_char(d as int)]);
    text
}

fn natural_string(n: u32) -> (text: String)
    ensures
        text@ == natural_text(n as int),
    decreases n,
{
    if n < 10 {
        digit_str(n as u8).to_owned()
    } else {
        let mut text = natural_string(n / 10);
        text.append(digit_str((n % 10) as u8));
        assert(text@ =~= natural_text(n as int));
        text
    }
}

/// Writes a 32-bit number in decimal notation.
pub fn decimal_string(number: i32) -> (text: String)
    ensures
        text@ == decimal_text(number as int),
{
    if number < 0 {
        proof {
            reveal_strlit("-");
        }
        let magnitude: u32 = (-(number as i64)) as u32;
        let mut text = "-".to_owned();
        text.append(natural_string(magnitude).as_str());
        assert(text@ =~= decimal_text(number as int));
        text
    } else {
        natural_string(number as u32)
    }
}

/// The digits of a number are digits, at least one of them, and denote it.
pub proof fn lemma_natural_text_denotes(n: int)
    requires
        0 <= n,
    ensures
        natural_text(n).len() > 0,
        all_digits(natural_text(n)),
        digits_value(natural_text(n)) == n,
    decreases n,
{
    let text = natural_text(n);
    if n < 10 {
        assert(text.drop_last() =~= Seq::<char>::empty());
        assert(digits_value(text.drop_last()) == 0);
        assert(is_digit(digit_char(n)) && digit_value(digit_char(n)) == n);
    } else {
        lemma_natural_text_denotes(n / 10);
        let front = natural_text(n / 10);
        assert(text.drop_last() =~= front);
        assert(is_digit(digit_char(n % 10)) && digit_value(digit_char(n % 10)) == n % 10);
        assert forall|i: int| 0 <= i < text.len() implies is_digit(#[trigger] text[i]) by {
            if i < front.len() {
                assert(text[i] == front[i]);
            }
        }
    }
}

/// Reading what was written gives the number back: the decimal notation of
/// any 32-bit number denotes that number.
pub proof fn lemma_parse_inverts_decimal_string(number: i32)
    ensures
        parsed_i32(decimal_text(number as int)) == Some(number),
{
    let n = number as int;
    let text = decimal_text(n);
    if n < 0 {
        lemma_natural_text_denotes(-n);
        assert(unsigned_part(text) =~= natural_text(-n));
    } else {
        lemma_natural_text_denotes(n);
        assert(is_digit(text[0]));
        assert(unsigned_part(text) =~= text);
    }
}

} // verus!
