//! Decimal rendering and parsing of integers (`to_string` and `str::parse`).
use vstd::prelude::*;
use crate::text::{chars_of, extend_chars, string_of, subvec};

verus! {

/// The character of a decimal digit.
pub open spec fn digit_char(d: int) -> char {
    (d + 48) as char
}

pub open spec fn is_digit_char(c: char) -> bool {
    '0' <= c && c <= '9'
}

pub open spec fn digit_value(c: char) -> int {
    (c as u32) - 48
}

/// The decimal rendering of a natural number, without leading zeros.
pub open spec fn dec(n: nat) -> Seq<char>
    decreases n,
{
    if n < 10 {
        seq![digit_char(n as int)]
    } else {
        dec(n / 10).push(digit_char((n % 10) as int))
    }
}

/// The rendering of a signed number: a minus sign before negative values.
pub open spec fn dec_int(n: int) -> Seq<char> {
    if n < 0 {
        seq!['-'] + dec((-n) as nat)
    } else {
        dec(n as nat)
    }
}

/// The value of a string of decimal digits.
pub open spec fn digits_value(s: Seq<char>) -> int
    decreases s.len(),
{
    if s.len() == 0 {
        0
    } else {
        digits_value(s.drop_last()) * 10 + digit_value(s.last())
    }
}

pub open spec fn all_digits(s: Seq<char>) -> bool {
    forall|i: int| 0 <= i < s.len() ==> is_digit_char(#[trigger] s[i])
}

/// `str::parse::<u64>`: an optional `+`, then one or more digits, whose value fits.
pub open spec fn parse_u64_spec(s: Seq<char>) -> Option<u64> {
    let d = if s.len() > 0 && s[0] == '+' {
        s.drop_first()
    } else {
        s
    };
    if d.len() > 0 && all_digits(d) && digits_value(d) <= u64::MAX {
        Some(digits_value(d) as u64)
    } else {
        None
    }
}

/// `str::parse::<i64>`: an optional sign, then one or more digits, whose value fits.
pub open spec fn parse_i64_spec(s: Seq<char>) -> Option<i64> {
    let neg = s.len() > 0 && s[0] == '-';
    let d = if s.len() > 0 && (s[0] == '+' || s[0] == '-') {
        s.drop_first()
    } else {
        s
    };
    let v = if neg {
        -digits_value(d)
    } else {
        digits_value(d)
    };
    if d.len() > 0 && all_digits(d) && i64::MIN <= v <= i64::MAX {
        Some(v as i64)
    } else {
        None
    }
}

pub proof fn lemma_dec_digits(n: nat)
    ensures
        all_digits(dec(n)),
        dec(n).len() > 0,
        digits_value(dec(n)) == n,
        dec(n)[0] != '+' && dec(n)[0] != '-',
    decreases n,
{
    if n < 10 {
        assert(digit_value(digit_char(n as int)) == n);
        assert(dec(n).drop_last() =~= Seq::<char>::empty());
        assert(digits_value(Seq::<char>::empty()) == 0);
        assert(dec(n).last() == digit_char(n as int));
        assert(digits_value(dec(n)) == digits_value(dec(n).drop_last()) * 10 + digit_value(dec(n).last()));
    } else {
        lemma_dec_digits(n / 10);
        let s = dec(n);
        let d = (n % 10) as int;
        assert(digit_value(digit_char(d)) == d);
        assert(s.drop_last() =~= dec(n / 10));
        assert(s.last() == digit_char(d));
        assert(digits_value(s) == digits_value(dec(n / 10)) * 10 + d);
        assert((n / 10) * 10 + d == n);
        assert(s[0] == dec(n / 10)[0]);
    }
}

proof fn lemma_digits_value_nonneg(s: Seq<char>)
    requires
        all_digits(s),
    ensures
        digits_value(s) >= 0,
    decreases s.len(),
{
    if s.len() > 0 {
        lemma_digits_value_nonneg(s.drop_last());
        assert(is_digit_char(s[s.len() - 1]));
    }
}

fn digit(d: u64) -> (c: char)
    requires
        d < 10,
    ensures
        c == digit_char(d as int),
        is_digit_char(c),
{
    let b = d as u8;
    (48u8 + b) as char
}

fn dec_vec(n: u64) -> (r: Vec<char>)
    ensures
        r@ == dec(n as nat),
    decreases n,
{
    if n < 10 {
        let mut v: Vec<char> = Vec::new();
        v.push(digit(n));
        assert(v@ =~= seq![digit_char(n as int)]);
        v
    } else {
        let mut v = dec_vec(n / 10);
        v.push(digit(n % 10));
        v
    }
}

/// `u64::to_string`.
pub fn u64_to_string(n: u64) -> (r: String)
    ensures
        r@ == dec(n as nat),
{
    let v = dec_vec(n);
    string_of(&v)
}

/// `usize::to_string`.
pub fn usize_to_string(n: usize) -> (r: String)
    ensures
        r@ == dec(n as nat),
{
    u64_to_string(n as u64)
}

/// `i64::to_string`.
pub fn i64_to_string(n: i64) -> (r: String)
    ensures
        r@ == dec_int(n as int),
{
    if n < 0 {
        let m: u64 = if n == i64::MIN {
            9223372036854775808u64
        } else {
            (-n) as u64
        };
        let mut v: Vec<char> = Vec::new();
        v.push('-');
        let d = dec_vec(m);
        extend_chars(&mut v, &d);
        string_of(&v)
    } else {
        u64_to_string(n as u64)
    }
}

/// Accumulates the digits of `d`; `None` when one is not a digit or the
/// value exceeds `limit`.
fn digits_up_to(d: &Vec<char>, limit: u64) -> (r: Option<u64>)
    requires
        limit >= 9,
    ensures
        r matches Some(v) ==> all_digits(d@) && v == digits_value(d@) && v <= limit,
        r is None ==> !all_digits(d@) || digits_value(d@) > limit,
{
    let mut acc: u64 = 0;
    let mut i: usize = 0;
    while i < d.len()
        invariant
            i <= d.len(),
            all_digits(d@.take(i as int)),
            acc == digits_value(d@.take(i as int)),
            acc <= limit,
            limit >= 9,
        decreases d.len() - i,
    {
        let c = d[i];
        let ghost pre = d@.take(i as int);
        let ghost next = d@.take(i + 1);
        assert(next.drop_last() =~= pre);
        if !('0' <= c && c <= '9') {
            assert(!is_digit_char(d@[i as int]));
            return None;
        }
        let dv = ((c as u32) - 48) as u64;
        assert(all_digits(next));
        if acc > (limit - dv) / 10 {
            proof {
                assert(acc * 10 + dv > limit) by (nonlinear_arith)
                    requires
                        acc > (limit - dv) / 10,
                        dv <= limit || dv > limit,
                        dv < 10,
                ;
                lemma_prefix_value_bound(d@, i as int + 1);
            }
            return None;
        }
        assert(acc * 10 + dv <= limit) by (nonlinear_arith)
            requires
                acc <= (limit - dv) / 10,
                dv <= limit,
        ;
        acc = acc * 10 + dv;
        i = i + 1;
    }
    assert(d@.take(d.len() as int) =~= d@);
    Some(acc)
}

/// The value of a digit string is at least the value of any of its prefixes.
proof fn lemma_prefix_value_bound(s: Seq<char>, k: int)
    requires
        0 <= k <= s.len(),
        all_digits(s.take(k)),
    ensures
        !all_digits(s) || digits_value(s) >= digits_value(s.take(k)),
    decreases s.len() - k,
{
    if k < s.len() && all_digits(s) {
        assert(all_digits(s.take(k + 1)));
        lemma_prefix_value_bound(s, k + 1);
        assert(s.take(k + 1).drop_last() =~= s.take(k));
        lemma_digits_value_nonneg(s.take(k));
        assert(is_digit_char(s[k]));
        assert(digits_value(s.take(k + 1)) >= digits_value(s.take(k))) by (nonlinear_arith)
            requires
                digits_value(s.take(k + 1)) == digits_value(s.take(k)) * 10 + digit_value(s[k]),
                digits_value(s.take(k)) >= 0,
                digit_value(s[k]) >= 0,
        ;
    } else if k == s.len() {
        assert(s.take(k) =~= s);
    }
}

/// `str::parse::<u64>`.
pub fn parse_u64(s: &str) -> (r: Option<u64>)
    ensures
        r == parse_u64_spec(s@),
{
    let v = chars_of(s);
    let d = if v.len() > 0 && v[0] == '+' {
        subvec(&v, 1, v.len())
    } else {
        subvec(&v, 0, v.len())
    };
    assert(v@.skip(1) =~= v@.drop_first());
    assert(v@.subrange(0, v@.len() as int) =~= v@);
    if d.len() == 0 {
        return None;
    }
    digits_up_to(&d, u64::MAX)
}

/// `str::parse::<i64>`.
pub fn parse_i64(s: &str) -> (r: Option<i64>)
    ensures
        r == parse_i64_spec(s@),
{
    let v = chars_of(s);
    let neg = v.len() > 0 && v[0] == '-';
    let d = if v.len() > 0 && (v[0] == '+' || v[0] == '-') {
        subvec(&v, 1, v.len())
    } else {
        subvec(&v, 0, v.len())
    };
    assert(v@.subrange(1, v@.len() as int) =~= v@.drop_first());
    assert(v@.subrange(0, v@.len() as int) =~= v@);
    if d.len() == 0 {
        return None;
    }
    let limit: u64 = if neg {
        9223372036854775808u64
    } else {
        9223372036854775807u64
    };
    match digits_up_to(&d, limit) {
        Some(m) => {
            if neg {
                if m == 9223372036854775808u64 {
                    Some(i64::MIN)
                } else {
                    Some(-(m as i64))
                }
            } else {
                Some(m as i64)
            }
        },
        None => None,
    }
}

/// Rendering a number and parsing it back gives the number.
pub proof fn lemma_parse_u64_of_dec(n: u64)
    ensures
        parse_u64_spec(dec(n as nat)) == Some(n),
{
    lemma_dec_digits(n as nat);
}

} // verus!
