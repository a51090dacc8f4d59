//! Decimal integers: what a line of input means as an `i32`, and how an
//! `i32` is written back out. Both directions are specified over `Seq<char>`
//! and proved against those specifications.

use vstd::prelude::*;
use vstd::string::*;

verus! {

/// An ASCII decimal digit.
pub open spec fn is_ascii_digit(c: char) -> bool {
    48 <= c as int && c as int <= 57
}

/// The numeric value of an ASCII decimal digit.
pub open spec fn digit_value(c: char) -> int {
    c as int - 48
}

/// Every character of `s` is an ASCII decimal digit.
pub open spec fn all_digits(s: Seq<char>) -> bool {
    forall|i: int| 0 <= i < s.len() ==> is_ascii_digit(#[trigger] s[i])
}

/// The value of a string of decimal digits, most significant first.
pub open spec fn digits_value(s: Seq<char>) -> int
    decreases s.len(),
{
    if s.len() == 0 {
        0
    } else {
        10 * digits_value(s.drop_last()) + digit_value(s.last())
    }
}

/// The digits of an integer literal: everything after an optional
/// leading sign.
pub open spec fn digits_part(s: Seq<char>) -> Seq<char> {
    if s.len() > 0 && (s[0] == '+' || s[0] == '-') {
        s.subrange(1, s.len() as int)
    } else {
        s
    }
}

/// `s` is an optional sign followed by at least one digit and nothing else:
/// the strings `str::parse::<i32>` accepts, range aside.
pub open spec fn is_integer_literal(s: Seq<char>) -> bool {
    digits_part(s).len() > 0 && all_digits(digits_part(s))
}

/// The mathematical value of an integer literal.
pub open spec fn literal_value(s: Seq<char>) -> int {
    if s.len() > 0 && s[0] == '-' {
        -digits_value(digits_part(s))
    } else {
        digits_value(digits_part(s))
    }
}

/// What parsing `s` as an `i32` yields: the literal's value when `s` is a
/// well-formed literal in range, nothing otherwise.
pub open spec fn parse_i32_spec(s: Seq<char>) -> Option<int> {
    if is_integer_literal(s) && -0x8000_0000 <= literal_value(s) && literal_value(s)
        <= 0x7fff_ffff {
        Some(literal_value(s))
    } else {
        None
    }
}

/// A digit string has a non-negative value.
pub proof fn lemma_digits_value_nonneg(s: Seq<char>)
    requires
        all_digits(s),
    ensures
        digits_value(s) >= 0,
    decreases s.len(),
{
    if s.len() > 0 {
        assert(all_digits(s.drop_last()));
        lemma_digits_value_nonneg(s.drop_last());
    }
}

/// Extending a digit string never shrinks its value.
pub proof fn lemma_digits_prefix_le(s: Seq<char>, i: int)
    requires
        all_digits(s),
        0 <= i <= s.len(),
    ensures
        digits_value(s.subrange(0, i)) <= digits_value(s),
    decreases s.len() - i,
{
    if i < s.len() {
        let p = s.subrange(0, i);
        let q = s.subrange(0, i + 1);
        assert(q.drop_last() =~= p);
        assert(q.last() == s[i]);
        assert(all_digits(p));
        lemma_digits_value_nonneg(p);
        assert(digits_value(q) == 10 * digits_value(p) + digit_value(s[i]));
        lemma_digits_prefix_le(s, i + 1);
    } else {
        assert(s.subrange(0, i) =~= s);
    }
}

/// Parse a whole string as an `i32`, exactly as `parse_i32_spec` says:
/// an optional sign, then digits, rejected on any other character or when
/// the value falls outside the `i32` range.
pub fn parse_i32(s: &str) -> (r: Option<i32>)
    ensures
        match r {
            Some(v) => parse_i32_spec(s@) == Some(v as int),
            None => parse_i32_spec(s@) is None,
        },
{
    let len = s.unicode_len();
    if len == 0 {
        return None;
    }
    let first = s.get_char(0);
    let neg = first == '-';
    let has_sign = neg || first == '+';
    let start: usize = if has_sign {
        1
    } else {
        0
    };
    proof {
        if has_sign {
            assert(digits_part(s@) =~= s@.subrange(1, s@.len() as int));
        } else {
            assert(digits_part(s@) =~= s@.subrange(0, s@.len() as int));
            assert(s@.subrange(0, s@.len() as int) =~= s@);
        }
    }
    if start == len {
        // A bare sign has no digits.
        return None;
    }
    let bound: i64 = if neg {
        0x8000_0000
    } else {
        0x7fff_ffff
    };
    let ghost digits = digits_part(s@);
    let mut acc: i64 = 0;
    let mut i: usize = start;
    while i < len
        invariant
            start <= i <= len,
            len == s@.len(),
            start == if has_sign { 1int } else { 0int },
            digits == digits_part(s@),
            digits == s@.subrange(start as int, len as int),
            neg ==> s@[0] == '-',
            !neg ==> !(s@.len() > 0 && s@[0] == '-'),
            bound == if neg { 0x8000_0000i64 } else { 0x7fff_ffffi64 },
            all_digits(digits.subrange(0, i - start)),
            acc == digits_value(digits.subrange(0, i - start)),
            0 <= acc <= bound,
        decreases len - i,
    {
        let c = s.get_char(i);
        let code = c as u32;
        if code < 48 || code > 57 {
            proof {
                assert(digits[i - start] == s@[i as int]);
                assert(!is_ascii_digit(digits[i - start]));
                assert(!all_digits(digits));
            }
            return None;
        }
        let d: i64 = (code - 48) as i64;
        let next = acc * 10 + d;
        proof {
            let p = digits.subrange(0, i - start);
            let q = digits.subrange(0, i + 1 - start);
            assert(q.drop_last() =~= p);
            assert(q.last() == digits[i - start]);
            assert(digits[i - start] == s@[i as int]);
            assert(digits_value(q) == 10 * digits_value(p) + digit_value(s@[i as int]));
        }
        if next > bound {
            // Even if every later character is a digit, the value can only
            // grow, so it is already out of range; and if one is not, the
            // string is no literal at all. Either way the parse fails.
            proof {
                if all_digits(digits) {
                    lemma_digits_prefix_le(digits, i + 1 - start);
                    assert(digits.subrange(0, digits.len() as int) =~= digits);
                    assert(digits_value(digits) >= next > bound);
                    if neg {
                        assert(literal_value(s@) == -digits_value(digits));
                        assert(literal_value(s@) < -0x8000_0000);
                    } else {
                        assert(literal_value(s@) == digits_value(digits));
                        assert(literal_value(s@) > 0x7fff_ffff);
                    }
                }
            }
            return None;
        }
        acc = next;
        i = i + 1;
    }
    proof {
        assert(digits.subrange(0, i - start) =~= digits);
        assert(is_integer_literal(s@));
        if neg {
            assert(literal_value(s@) == -acc);
        } else {
            assert(literal_value(s@) == acc);
        }
    }
    if neg {
        Some((-acc) as i32)
    } else {
        Some(acc as i32)
    }
}

/// The character that writes the digit `d`.
pub open spec fn digit_char(d: int) -> char {
    if d == 0 {
        '0'
    } else if d == 1 {
        '1'
    } else if d == 2 {
        '2'
    } else if d == 3 {
        '3'
    } else if d == 4 {
        '4'
    } else if d == 5 {
        '5'
    } else if d == 6 {
        '6'
    } else if d == 7 {
        '7'
    } else if d == 8 {
        '8'
    } else {
        '9'
    }
}

/// The decimal digits of a non-negative integer, most significant first.
pub open spec fn dec_digits(n: int) -> Seq<char>
    decreases n,
{
    if n < 10 {
        seq![digit_char(n)]
    } else {
        dec_digits(n / 10).push(digit_char(n % 10))
    }
}

/// How an integer is written in decimal: a minus sign for negatives,
/// then its digits.
pub open spec fn int_string(n: int) -> Seq<char> {
    if n < 0 {
        seq!['-'] + dec_digits(-n)
    } else {
        dec_digits(n)
    }
}

/// The one-character string for the digit `d`.
fn digit_str(d: u32) -> (r: &'static str)
    requires
        d < 10,
    ensures
        r@ == seq![digit_char(d as int)],
{
    proof {
        reveal_strlit("0");
        reveal_strlit("1");
        reveal_strlit("2");
        reveal_strlit("3");
        reveal_strlit("4");
        reveal_strlit("5");
        reveal_strlit("6");
        reveal_strlit("7");
        reveal_strlit("8");
        reveal_strlit("9");
    }
    if d == 0 {
        "0"
    } else if d == 1 {
        "1"
    } else if d == 2 {
        "2"
    } else if d == 3 {
        "3"
    } else if d == 4 {
        "4"
    } else if d == 5 {
        "5"
    } else if d == 6 {
        "6"
    } else if d == 7 {
        "7"
    } else if d == 8 {
        "8"
    } else {
        "9"
    }
}

/// The decimal digits of `n`, as a string.
fn u32_digits_string(n: u32) -> (r: String)
    ensures
        r@ == dec_digits(n as int),
    decreases n,
{
    if n < 10 {
        String::from_str(digit_str(n))
    } else {
        let mut s = u32_digits_string(n / 10);
        s.append(digit_str(n % 10));
        proof {
            assert(dec_digits((n / 10) as int) + seq![digit_char((n % 10) as int)] =~= dec_digits(
                (n / 10) as int,
            ).push(digit_char((n % 10) as int)));
        }
        s
    }
}

/// Write `n` in decimal, exactly as `int_string` says.
pub fn i32_to_string(n: i32) -> (r: String)
    ensures
        r@ == int_string(n as int),
{
    if n >= 0 {
        u32_digits_string(n as u32)
    } else {
        let wide: i64 = n as i64;
        let mag: u32 = (-wide) as u32;
        let mut s = String::from_str("-");
        let tail = u32_digits_string(mag);
        s.append(tail.as_str());
        proof {
            reveal_strlit("-");
            assert(s@ =~= seq!['-'] + dec_digits(mag as int));
        }
        s
    }
}

} // verus!
