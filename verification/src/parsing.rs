//! Reading integers from text the way `str::parse` does: an optional sign, then one or
//! more ASCII digits, and a value that fits the type.
use vstd::prelude::*;
use crate::strings::{decimal, decimal_digits, digit_char};

verus! {

pub open spec fn is_digit(c: char) -> bool {
    '0' <= c <= '9'
}

pub open spec fn all_digits(s: Seq<char>) -> bool {
    forall|i: int| 0 <= i < s.len() ==> is_digit(#[trigger] s[i])
}

/// The value of a string of decimal digits.
pub open spec fn digits_value(s: Seq<char>) -> int
    decreases s.len(),
{
    if s.len() == 0 {
        0
    } else {
        digits_value(s.drop_last()) * 10 + (s.last() as int - '0' as int)
    }
}

/// The number a string spells: a `+` (or, when `signed`, a `-`) may lead, and at least one
/// digit must follow. `None` when the string spells no number.
pub open spec fn spelled_number(s: Seq<char>, signed: bool) -> Option<int> {
    if s.len() == 0 {
        None
    } else {
        let neg = signed && s[0] == '-';
        let body = if s[0] == '+' || neg { s.drop_first() } else { s };
        if body.len() == 0 || !all_digits(body) {
            None
        } else if neg {
            Some(-digits_value(body))
        } else {
            Some(digits_value(body))
        }
    }
}

pub proof fn lemma_digits_value_nonneg(s: Seq<char>)
    requires
        all_digits(s),
    ensures
        digits_value(s) >= 0,
    decreases s.len(),
{
    if s.len() > 0 {
        assert(all_digits(s.drop_last())) by {
            assert forall|i: int| 0 <= i < s.drop_last().len() implies is_digit(#[trigger] s.drop_last()[i]) by {
                assert(s.drop_last()[i] == s[i]);
            }
        }
        lemma_digits_value_nonneg(s.drop_last());
        assert(is_digit(s[s.len() - 1]));
    }
}

/// Reads the digits of `s` from position `start`. `None` when a character is no digit or
/// when the value passes `bound`.
fn digits_up_to(s: &str, start: usize, bound: u128) -> (r: Option<u128>)
    requires
        start <= s@.len(),
        bound <= u64::MAX as u128 + 1,
    ensures
        match r {
            Some(v) => all_digits(s@.skip(start as int)) && v as int == digits_value(s@.skip(start as int)) && v <= bound,
            None => !all_digits(s@.skip(start as int)) || digits_value(s@.skip(start as int)) > bound,
        },
{
    let n = s.unicode_len();
    let ghost body = s@.skip(start as int);
    let mut i: usize = start;
    let mut acc: u128 = 0;
    while i < n
        invariant
            n == s@.len(),
            start <= i <= n,
            body == s@.skip(start as int),
            bound <= u64::MAX as u128 + 1,
            all_digits(body.take(i - start)),
            acc as int == digits_value(body.take(i - start)),
            acc <= bound,
        decreases n - i,
    {
        let c = s.get_char(i);
        let prefix = Ghost(body.take(i - start));
        let next = Ghost(body.take(i + 1 - start));
        assert(next@.drop_last() =~= prefix@);
        assert(next@.last() == c);
        if !('0' <= c && c <= '9') {
            assert(!is_digit(body[i - start]));
            return None;
        }
        let d = (c as u32 - '0' as u32) as u128;
        let value = acc * 10 + d;
        assert(value as int == digits_value(next@));
        if value > bound {
            proof {
                lemma_prefix_bounds_value(body, (i + 1 - start) as int);
            }
            return None;
        }
        acc = value;
        assert(all_digits(next@)) by {
            assert forall|k: int| 0 <= k < next@.len() implies is_digit(#[trigger] next@[k]) by {
                if k < next@.len() - 1 {
                    assert(next@[k] == prefix@[k]);
                }
            }
        }
        i = i + 1;
    }
    assert(body.take(n - start) =~= body);
    Some(acc)
}

/// The value of a digit string is at least the value of any of its prefixes, unless a
/// later character is no digit.
pub proof fn lemma_prefix_bounds_value(s: Seq<char>, k: int)
    requires
        0 <= k <= s.len(),
        all_digits(s.take(k)),
    ensures
        all_digits(s) ==> digits_value(s) >= digits_value(s.take(k)),
    decreases s.len() - k,
{
    if k < s.len() && all_digits(s) {
        let next = s.take(k + 1);
        assert(next.drop_last() =~= s.take(k));
        assert(all_digits(next)) by {
            assert forall|i: int| 0 <= i < next.len() implies is_digit(#[trigger] next[i]) by {
                assert(next[i] == s[i]);
            }
        }
        lemma_digits_value_nonneg(s.take(k));
        assert(is_digit(s[k]));
        assert(next.last() == s[k]);
        lemma_prefix_bounds_value(s, k + 1);
    } else if k == s.len() {
        assert(s.take(k) =~= s);
    }
}

/// What `str::parse::<i32>` gives for `s`.
pub open spec fn parsed_i32(s: Seq<char>) -> Option<i32> {
    match spelled_number(s, true) {
        Some(v) => if i32::MIN <= v <= i32::MAX { Some(v as i32) } else { None },
        None => None,
    }
}

/// What `str::parse::<u64>` gives for `s`.
pub open spec fn parsed_u64(s: Seq<char>) -> Option<u64> {
    match spelled_number(s, false) {
        Some(v) => if 0 <= v <= u64::MAX { Some(v as u64) } else { None },
        None => None,
    }
}

/// What `str::parse::<u16>` gives for `s`.
pub open spec fn parsed_u16(s: Seq<char>) -> Option<u16> {
    match spelled_number(s, false) {
        Some(v) => if 0 <= v <= u16::MAX { Some(v as u16) } else { None },
        None => None,
    }
}

/// Reads an `i32` as `str::parse` does.
pub fn parse_i32(s: &str) -> (r: Option<i32>)
    ensures
        r == parsed_i32(s@),
{
    let n = s.unicode_len();
    if n == 0 {
        return None;
    }
    let first = s.get_char(0);
    let neg = first == '-';
    let start: usize = if first == '+' || neg { 1 } else { 0 };
    assert(s@.skip(start as int) =~= if start == 1 { s@.drop_first() } else { s@ });
    if start == n {
        return None;
    }
    let bound: u128 = if neg { 2147483648 } else { 2147483647 };
    match digits_up_to(s, start, bound) {
        Some(v) => {
            if neg {
                Some((0 - (v as i64)) as i32)
            } else {
                Some(v as i32)
            }
        },
        None => None,
    }
}

/// Reads a `u64` as `str::parse` does.
pub fn parse_u64(s: &str) -> (r: Option<u64>)
    ensures
        r == parsed_u64(s@),
{
    let n = s.unicode_len();
    if n == 0 {
        return None;
    }
    let first = s.get_char(0);
    let start: usize = if first == '+' { 1 } else { 0 };
    assert(s@.skip(start as int) =~= if start == 1 { s@.drop_first() } else { s@ });
    if start == n {
        return None;
    }
    match digits_up_to(s, start, 18446744073709551615) {
        Some(v) => Some(v as u64),
        None => None,
    }
}

/// Reads a `u16` as `str::parse` does.
pub fn parse_u16(s: &str) -> (r: Option<u16>)
    ensures
        r == parsed_u16(s@),
{
    let n = s.unicode_len();
    if n == 0 {
        return None;
    }
    let first = s.get_char(0);
    let start: usize = if first == '+' { 1 } else { 0 };
    assert(s@.skip(start as int) =~= if start == 1 { s@.drop_first() } else { s@ });
    if start == n {
        return None;
    }
    match digits_up_to(s, start, 65535) {
        Some(v) => Some(v as u16),
        None => None,
    }
}

/// The digits `to_string` writes for a natural number are digits, at least one, and spell it back.
pub proof fn lemma_decimal_digits_value(n: nat)
    ensures
        decimal_digits(n).len() > 0,
        all_digits(decimal_digits(n)),
        digits_value(decimal_digits(n)) == n,
    decreases n,
{
    if n < 10 {
        let s = decimal_digits(n);
        assert(s.drop_last() =~= Seq::<char>::empty());
        assert(digit_char(n as int) as int - '0' as int == n);
        assert(s.last() == digit_char(n as int));
        assert(digits_value(s) == digits_value(s.drop_last()) * 10 + (s.last() as int - '0' as int));
    } else {
        lemma_decimal_digits_value(n / 10);
        let s = decimal_digits(n);
        let d = (n % 10) as int;
        assert(s.drop_last() =~= decimal_digits(n / 10));
        assert(digit_char(d) as int - '0' as int == d);
        assert(s.last() == digit_char(d));
        assert(digits_value(s) == digits_value(s.drop_last()) * 10 + (s.last() as int - '0' as int));
        assert((n / 10) * 10 + n % 10 == n) by (nonlinear_arith);
        assert forall|i: int| 0 <= i < s.len() implies is_digit(#[trigger] s[i]) by {
            if i < s.len() - 1 {
                assert(s[i] == decimal_digits(n / 10)[i]);
            }
        }
    }
}

/// Reading back what `to_string` wrote for an `i32` gives the same `i32`.
pub proof fn lemma_parse_i32_of_decimal(n: i32)
    ensures
        parsed_i32(decimal(n as int)) == Some(n),
{
    if n < 0 {
        let m = (-(n as int)) as nat;
        lemma_decimal_digits_value(m);
        let s = decimal(n as int);
        assert(s.drop_first() =~= decimal_digits(m));
    } else {
        lemma_decimal_digits_value(n as nat);
        let s = decimal(n as int);
        assert(is_digit(s[0]));
    }
}

/// Reading back what `to_string` wrote for a `u64` gives the same `u64`.
pub proof fn lemma_parse_u64_of_decimal(n: u64)
    ensures
        parsed_u64(decimal(n as int)) == Some(n),
{
    lemma_decimal_digits_value(n as nat);
    let s = decimal(n as int);
    assert(is_digit(s[0]));
}

} // verus!
