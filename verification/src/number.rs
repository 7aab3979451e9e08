//! Decimal text of the numbers that the site stores as text (dates and counts).
use vstd::prelude::*;

use crate::text::{chars_of, string_of};

verus! {

/// The character of the digit `d` (below 10).
pub open spec fn digit_char(d: nat) -> char {
    (48 + d) as char
}

/// `c` is one of `0` to `9`.
pub open spec fn is_digit(c: char) -> bool {
    '0' <= c <= '9'
}

/// Every character of `s` is a digit.
pub open spec fn all_digits(s: Seq<char>) -> bool {
    forall|i: int| 0 <= i < s.len() ==> is_digit(#[trigger] s[i])
}

/// The number that the digits `s` write in base ten (`0` for no digits).
pub open spec fn digits_value(s: Seq<char>) -> nat
    decreases s.len(),
{
    if s.len() == 0 {
        0
    } else {
        digits_value(s.drop_last()) * 10 + ((s.last() as int) - 48) as nat
    }
}

/// The decimal text of `n`: its digits, most significant first, with no leading zero.
pub open spec fn decimal_digits(n: nat) -> Seq<char>
    decreases n,
{
    if n < 10 {
        seq![digit_char(n)]
    } else {
        decimal_digits(n / 10).push(digit_char(n % 10))
    }
}

/// `s` without the `+` sign that may start it.
pub open spec fn unsigned_digits(s: Seq<char>) -> Seq<char> {
    if s.len() > 0 && s[0] == '+' {
        s.drop_first()
    } else {
        s
    }
}

/// What parsing `s` as a `u128` gives: an optional `+` followed by at least one
/// digit, worth at most `u128::MAX`; `None` for anything else.
pub open spec fn parsed_u128(s: Seq<char>) -> Option<u128> {
    let d = unsigned_digits(s);
    if d.len() > 0 && all_digits(d) && digits_value(d) <= u128::MAX {
        Some(digits_value(d) as u128)
    } else {
        None
    }
}

fn push_decimal(out: &mut Vec<char>, n: u128)
    ensures
        final(out)@ == old(out)@ + decimal_digits(n as nat),
    decreases n,
{
    if n >= 10 {
        push_decimal(out, n / 10);
    }
    let d: u8 = (n % 10) as u8;
    let c: char = (48u8 + d) as char;
    out.push(c);
    proof {
        if n >= 10 {
            assert(decimal_digits(n as nat) == decimal_digits((n / 10) as nat).push(
                digit_char((n % 10) as nat),
            ));
        }
    }
}

/// The decimal text of `n`, as `u128::to_string` writes it.
pub fn decimal_text(n: u128) -> (r: String)
    ensures
        r@ == decimal_digits(n as nat),
{
    let mut v: Vec<char> = Vec::new();
    push_decimal(&mut v, n);
    assert(v@ =~= decimal_digits(n as nat));
    string_of(&v)
}

proof fn lemma_prefix_value_le(s: Seq<char>, j: int)
    requires
        all_digits(s),
        0 <= j <= s.len(),
    ensures
        digits_value(s.take(j)) <= digits_value(s),
    decreases s.len(),
{
    if j < s.len() {
        let t = s.drop_last();
        assert(all_digits(t)) by {
            assert forall|i: int| 0 <= i < t.len() implies is_digit(#[trigger] t[i]) by {
                assert(t[i] == s[i]);
            }
        }
        lemma_prefix_value_le(t, j);
        assert(t.take(j) =~= s.take(j));
        assert(is_digit(s[s.len() - 1]));
    } else {
        assert(s.take(j) =~= s);
    }
}

/// Parses `s` as `str::parse::<u128>` does: an optional `+`, then decimal digits
/// whose value fits in a `u128`.
pub fn parse_u128(s: &str) -> (r: Option<u128>)
    ensures
        r == parsed_u128(s@),
{
    let v = chars_of(s);
    let start: usize = if v.len() > 0 && v[0] == '+' {
        1
    } else {
        0
    };
    let ghost d = v@.subrange(start as int, v@.len() as int);
    assert(d =~= unsigned_digits(s@));
    if start >= v.len() {
        return None;
    }
    let mut acc: u128 = 0;
    let mut i: usize = start;
    while i < v.len()
        invariant
            start <= i <= v.len(),
            d == v@.subrange(start as int, v@.len() as int),
            d == unsigned_digits(s@),
            v@ == s@,
            all_digits(d.take(i - start)),
            acc as nat == digits_value(d.take(i - start)),
        ensures
            i == v.len(),
        decreases v.len() - i,
    {
        let c = v[i];
        let ghost k: int = i - start;
        assert(d[k] == c);
        if !('0' <= c && c <= '9') {
            return None;
        }
        let dv: u128 = ((c as u32) - 48) as u128;
        assert(d.take(k + 1).drop_last() =~= d.take(k));
        assert(d.take(k + 1).last() == c);
        assert(all_digits(d.take(k + 1))) by {
            assert forall|j: int| 0 <= j < k + 1 implies is_digit(#[trigger] d.take(k + 1)[j]) by {
                if j < k {
                    assert(d.take(k + 1)[j] == d.take(k)[j]);
                }
            }
        }
        let next = match acc.checked_mul(10) {
            Some(m) => m.checked_add(dv),
            None => None,
        };
        match next {
            Some(a) => {
                acc = a;
            },
            None => {
                proof {
                    if all_digits(d) {
                        lemma_prefix_value_le(d, k + 1);
                    }
                }
                return None;
            },
        }
        i += 1;
    }
    assert(d.take(d.len() as int) =~= d);
    Some(acc)
}

proof fn lemma_decimal_digits_value(n: nat)
    ensures
        decimal_digits(n).len() > 0,
        all_digits(decimal_digits(n)),
        digits_value(decimal_digits(n)) == n,
        decimal_digits(n)[0] != '+',
    decreases n,
{
    let s = decimal_digits(n);
    assert(digit_char(n % 10) as int == 48 + n % 10);
    if n < 10 {
        assert(s.drop_last() =~= Seq::<char>::empty());
        assert(s.last() == digit_char(n));
        assert(digits_value(s) == digits_value(s.drop_last()) * 10 + ((s.last() as int) - 48) as nat);
    } else {
        lemma_decimal_digits_value(n / 10);
        let t = decimal_digits(n / 10);
        assert(s.drop_last() =~= t);
        assert(s.last() == digit_char(n % 10));
        assert(digits_value(s) == digits_value(t) * 10 + ((s.last() as int) - 48) as nat);
        assert((n / 10) * 10 + n % 10 == n);
        assert(s[0] == t[0]);
        assert forall|i: int| 0 <= i < s.len() implies is_digit(#[trigger] s[i]) by {
            if i < t.len() {
                assert(s[i] == t[i]);
            }
        }
    }
}

/// The decimal text of the integer `n`: a `-` before the digits of a negative one.
pub open spec fn signed_decimal_digits(n: int) -> Seq<char> {
    if n < 0 {
        seq!['-'] + decimal_digits((-n) as nat)
    } else {
        decimal_digits(n as nat)
    }
}

/// The decimal text of `n`, as `i32::to_string` writes it.
pub fn i32_text(n: i32) -> (r: String)
    ensures
        r@ == signed_decimal_digits(n as int),
{
    let mut v: Vec<char> = Vec::new();
    if n < 0 {
        v.push('-');
        let m: i64 = -(n as i64);
        push_decimal(&mut v, m as u128);
    } else {
        push_decimal(&mut v, n as u128);
    }
    string_of(&v)
}

/// `s` without the sign (`+` or `-`) that may start it.
pub open spec fn signed_digits(s: Seq<char>) -> Seq<char> {
    if s.len() > 0 && (s[0] == '+' || s[0] == '-') {
        s.drop_first()
    } else {
        s
    }
}

/// What parsing `s` as an `i32` gives: an optional sign followed by at least one digit,
/// worth a value within the range of `i32`; `None` for anything else.
pub open spec fn parsed_i32(s: Seq<char>) -> Option<i32> {
    let d = signed_digits(s);
    let v: int = if s.len() > 0 && s[0] == '-' {
        -(digits_value(d) as int)
    } else {
        digits_value(d) as int
    };
    if d.len() > 0 && all_digits(d) && i32::MIN <= v <= i32::MAX {
        Some(v as i32)
    } else {
        None
    }
}

/// Parses `s` as `str::parse::<i32>` does: an optional sign, then decimal digits whose
/// value fits in an `i32`.
pub fn parse_i32(s: &str) -> (r: Option<i32>)
    ensures
        r == parsed_i32(s@),
{
    let v = chars_of(s);
    let negative = v.len() > 0 && v[0] == '-';
    let start: usize = if v.len() > 0 && (v[0] == '+' || v[0] == '-') {
        1
    } else {
        0
    };
    let mut d: Vec<char> = Vec::new();
    let mut i: usize = start;
    while i < v.len()
        invariant
            start <= i <= v.len(),
            d@ == v@.subrange(start as int, i as int),
        decreases v.len() - i,
    {
        d.push(v[i]);
        assert(v@.subrange(start as int, i + 1) == v@.subrange(start as int, i as int).push(
            v@[i as int],
        ));
        i += 1;
    }
    assert(d@ =~= signed_digits(s@));
    if d.len() > 0 && d[0] == '+' {
        assert(!is_digit(d@[0]));
        return None;
    }
    let text = string_of(&d);
    assert(unsigned_digits(text@) == d@);
    match parse_u128(text.as_str()) {
        Some(m) => {
            if negative {
                if m <= 2147483648 {
                    let x: i64 = -(m as i64);
                    Some(x as i32)
                } else {
                    None
                }
            } else {
                if m <= 2147483647 {
                    Some(m as i32)
                } else {
                    None
                }
            }
        },
        None => None,
    }
}

/// What parsing `s` as a `u16` gives: the same text as for a `u128`, with a value of
/// at most `u16::MAX`.
pub open spec fn parsed_u16(s: Seq<char>) -> Option<u16> {
    match parsed_u128(s) {
        Some(v) => if v <= u16::MAX {
            Some(v as u16)
        } else {
            None
        },
        None => None,
    }
}

/// Parses `s` as `str::parse::<u16>` does.
pub fn parse_u16(s: &str) -> (r: Option<u16>)
    ensures
        r == parsed_u16(s@),
{
    match parse_u128(s) {
        Some(v) => if v <= 65535 {
            Some(v as u16)
        } else {
            None
        },
        None => None,
    }
}

/// Reading back the decimal text of a number gives the number: what is stored as
/// text (a date, a count) is read back unchanged.
pub proof fn law_parse_decimal_text(n: u128)
    ensures
        parsed_u128(decimal_digits(n as nat)) == Some(n),
{
    lemma_decimal_digits_value(n as nat);
    let s = decimal_digits(n as nat);
    assert(unsigned_digits(s) == s);
}

/// Reading back the decimal text of an `i32` gives the number.
pub proof fn law_parse_i32_text(n: i32)
    ensures
        parsed_i32(signed_decimal_digits(n as int)) == Some(n),
{
    let s = signed_decimal_digits(n as int);
    if n < 0 {
        let m: nat = (-(n as int)) as nat;
        lemma_decimal_digits_value(m);
        let d = decimal_digits(m);
        assert(s[0] == '-');
        assert(s.drop_first() =~= d);
        assert(signed_digits(s) == d);
    } else {
        lemma_decimal_digits_value(n as nat);
        let d = decimal_digits(n as nat);
        assert(is_digit(d[0]));
        assert(signed_digits(s) == s);
    }
}

} // verus!
