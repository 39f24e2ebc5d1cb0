//! Small verified helpers on strings: comparison and decimal numbers.

use vstd::prelude::*;
use vstd::std_specs::iter::IteratorSpec;
use vstd::string::StringExecFns;

verus! {

/// Whether two string slices hold the same characters.
pub fn same_text(a: &str, b: &str) -> (same: bool)
    ensures
        same == (a@ == b@),
{
    let mut left = a.chars();
    let mut right = b.chars();
    let ghost mut done: int = 0;
    loop
        invariant
            0 <= done <= a@.len(),
            done <= b@.len(),
            left.remaining() == a@.skip(done),
            right.remaining() == b@.skip(done),
            a@.take(done) == b@.take(done),
        decreases a@.len() - done,
    {
        let x = left.next();
        let y = right.next();
        match (x, y) {
            (Some(c), Some(d)) => {
                if c != d {
                    return false;
                }
                proof {
                    done = done + 1;
                }
            },
            (None, None) => {
                assert(a@.take(done) == a@ && b@.take(done) == b@);
                return true;
            },
            _ => {
                return false;
            },
        }
    }
}

/// Whether a character is one of the ten decimal digits.
pub open spec fn is_digit(c: char) -> bool {
    '0' <= c <= '9'
}

/// The number that a decimal digit stands for.
pub open spec fn digit_value(c: char) -> nat
    recommends
        is_digit(c),
{
    (c as u32 - '0' as u32) as nat
}

/// The decimal digit that stands for a number below ten.
pub open spec fn digit_char(d: nat) -> char
    recommends
        d < 10,
{
    (d + '0' as u32) as char
}

/// Whether every character is a decimal digit.
pub open spec fn all_digits(s: Seq<char>) -> bool {
    forall|i: int| 0 <= i < s.len() ==> is_digit(#[trigger] s[i])
}

/// The number that a row of decimal digits stands for.
pub open spec fn digits_value(s: Seq<char>) -> nat
    decreases s.len(),
{
    if s.len() == 0 {
        0
    } else {
        digits_value(s.drop_last()) * 10 + digit_value(s.last())
    }
}

/// A number in decimal digits, without leading zeros.
pub open spec fn decimal(n: nat) -> Seq<char>
    decreases n,
{
    if n < 10 {
        seq![digit_char(n)]
    } else {
        decimal(n / 10).push(digit_char(n % 10))
    }
}

/// A whole number in decimal digits, with a minus sign where it is negative.
pub open spec fn signed_decimal(i: int) -> Seq<char> {
    if i < 0 {
        seq!['-'] + decimal((-i) as nat)
    } else {
        decimal(i as nat)
    }
}

/// What a text reads as an unsigned 64-bit number: an optional plus sign
/// and then at least one decimal digit and nothing else, the number fitting
/// into 64 bits.
pub open spec fn read_u64(s: Seq<char>) -> Option<u64> {
    let digits = if s.len() > 0 && s[0] == '+' {
        s.skip(1)
    } else {
        s
    };
    if digits.len() > 0 && all_digits(digits) && digits_value(digits) <= u64::MAX {
        Some(digits_value(digits) as u64)
    } else {
        None
    }
}

/// A longer row of digits stands for no smaller number than its beginning.
proof fn lemma_digits_value_grows(s: Seq<char>, n: int)
    requires
        0 <= n <= s.len(),
    ensures
        digits_value(s.take(n)) <= digits_value(s),
    decreases s.len() - n,
{
    if n < s.len() {
        lemma_digits_value_grows(s, n + 1);
        assert(s.take(n + 1).drop_last() == s.take(n));
    } else {
        assert(s.take(n) == s);
    }
}

/// Reads an unsigned 64-bit number from a text.
pub fn parse_u64(text: &str) -> (number: Option<u64>)
    ensures
        number == read_u64(text@),
{
    let mut chars = text.chars();
    let ghost mut digits = text@;
    let ghost mut done: int = 0;
    let mut value: u64 = 0;
    let mut first = true;
    let mut any = false;
    loop
        invariant
            0 <= done <= digits.len(),
            chars.remaining() == digits.skip(done),
            first ==> done == 0 && digits == text@ && !any,
            !first ==> digits == if text@.len() > 0 && text@[0] == '+' {
                text@.skip(1)
            } else {
                text@
            },
            all_digits(digits.take(done)),
            value == digits_value(digits.take(done)),
            any == (done > 0),
        decreases digits.len() - done, first as int,
    {
        match chars.next() {
            None => {
                proof {
                    assert(digits.take(done) == digits);
                }
                return if any {
                    Some(value)
                } else {
                    None
                };
            },
            Some(c) => {
                if first && c == '+' {
                    first = false;
                    proof {
                        digits = text@.skip(1);
                        assert(digits.take(0) == Seq::<char>::empty());
                    }
                } else {
                    first = false;
                    if !('0' <= c && c <= '9') {
                        assert(!all_digits(digits)) by {
                            assert(!is_digit(digits[done]));
                        }
                        return None;
                    }
                    let d: u64 = (c as u32 - '0' as u32) as u64;
                    proof {
                        assert(digits.take(done + 1).drop_last() == digits.take(done));
                        assert(digits.take(done + 1).last() == c);
                        lemma_digits_value_grows(digits, done + 1);
                    }
                    if value > (u64::MAX - d) / 10 {
                        return None;
                    }
                    value = value * 10 + d;
                    any = true;
                    proof {
                        done = done + 1;
                    }
                }
            },
        }
    }
}

/// The text of one decimal digit.
fn digit_text(d: u64) -> (text: &'static str)
    requires
        d < 10,
    ensures
        text@ == seq![digit_char(d as nat)],
{
    proof {
        reveal_strlit("0");
        reveal_strlit("1");
        reveal_strlit("2");
        reveal_strlit("3");
        reveal_strlit("4");
        reveal_strlit("5");
        reveal_strlit("6");
        reveal_strlit("7");
        reveal_strlit("8");
        reveal_strlit("9");
    }
    let text = if d == 0 {
        "0"
    } else if d == 1 {
        "1"
    } else if d == 2 {
        "2"
    } else if d == 3 {
        "3"
    } else if d == 4 {
        "4"
    } else if d == 5 {
        "5"
    } else if d == 6 {
        "6"
    } else if d == 7 {
        "7"
    } else if d == 8 {
        "8"
    } else {
        "9"
    };
    assert(text@ =~= seq![digit_char(d as nat)]);
    text
}

/// Writes a number in decimal digits.
pub fn u64_to_string(n: u64) -> (text: String)
    ensures
        text@ == decimal(n as nat),
    decreases n,
{
    if n < 10 {
        digit_text(n).to_owned()
    } else {
        let mut text = u64_to_string(n / 10);
        text.append(digit_text(n % 10));
        text
    }
}

/// Writes a whole number in decimal digits, with a minus sign where it is
/// negative.
pub fn i32_to_string(i: i32) -> (text: String)
    ensures
        text@ == signed_decimal(i as int),
{
    if i < 0 {
        let size: u64 = (-(i as i64)) as u64;
        let mut text = "-".to_owned();
        proof {
            reveal_strlit("-");
            assert("-"@ =~= seq!['-']);
        }
        text.append(u64_to_string(size).as_str());
        text
    } else {
        u64_to_string(i as u64)
    }
}

/// The text of a truth value: `true` or `false`.
pub open spec fn bool_text(b: bool) -> Seq<char> {
    if b {
        "true"@
    } else {
        "false"@
    }
}

/// Writes a truth value as `true` or `false`.
pub fn bool_to_str(b: bool) -> (text: &'static str)
    ensures
        text@ == bool_text(b),
{
    if b {
        "true"
    } else {
        "false"
    }
}

} // verus!
