//! Decimal integer syntax as Rust's `FromStr` for integers accepts it: an
//! optional sign, then one or more ASCII digits, with no overflow.

use vstd::prelude::*;

verus! {

/// Whether `c` is an ASCII decimal digit.
pub open spec fn is_digit(c: char) -> bool {
    '0' <= c && c <= '9'
}

/// Whether every character of `s` is an ASCII decimal digit.
pub open spec fn all_digits(s: Seq<char>) -> bool {
    forall|i: int| 0 <= i < s.len() ==> is_digit(#[trigger] s[i])
}

/// The number that the digit string `s` spells, most significant first.
pub open spec fn digits_value(s: Seq<char>) -> int
    decreases s.len(),
{
    if s.len() == 0 {
        0
    } else {
        digits_value(s.drop_last()) * 10 + (s.last() as int - '0' as int)
    }
}

/// The value of a non-empty digit string, if it is at most `limit`.
pub open spec fn spec_parse_digits(s: Seq<char>, limit: int) -> Option<int> {
    if s.len() > 0 && all_digits(s) && digits_value(s) <= limit {
        Some(digits_value(s))
    } else {
        None
    }
}

/// What `str::parse` gives for an unsigned type whose maximum is `max`:
/// an optional `+`, then digits.
pub open spec fn spec_parse_unsigned(s: Seq<char>, max: int) -> Option<int> {
    if s.len() > 0 && s[0] == '+' {
        spec_parse_digits(s.drop_first(), max)
    } else {
        spec_parse_digits(s, max)
    }
}

/// What `str::parse::<i32>` gives: an optional `+` or `-`, then digits.
pub open spec fn spec_parse_i32(s: Seq<char>) -> Option<int> {
    if s.len() > 0 && s[0] == '-' {
        match spec_parse_digits(s.drop_first(), 0x8000_0000) {
            Some(v) => Some(-v),
            None => None,
        }
    } else {
        spec_parse_unsigned(s, i32::MAX as int)
    }
}

/// Parses the digits of `s` from character `start` to the end, refusing
/// an empty run, any other character, and a value above `limit`.
fn parse_digits_from(s: &str, start: usize, limit: u64) -> (r: Option<u64>)
    requires
        start <= s@.len(),
    ensures
        r is Some <==> spec_parse_digits(s@.subrange(start as int, s@.len() as int), limit as int) is Some,
        r matches Some(v) ==> v == spec_parse_digits(
            s@.subrange(start as int, s@.len() as int),
            limit as int,
        ).unwrap(),
{
    let n = s.unicode_len();
    if start == n {
        return None;
    }
    let ghost whole = s@.subrange(start as int, n as int);
    let mut acc: u64 = 0;
    let mut over = false;
    let mut i = start;
    while i < n
        invariant
            start <= i <= n,
            n == s@.len(),
            start < n,
            whole == s@.subrange(start as int, n as int),
            all_digits(s@.subrange(start as int, i as int)),
            !over ==> acc == digits_value(s@.subrange(start as int, i as int)) && acc <= limit,
            over ==> digits_value(s@.subrange(start as int, i as int)) > limit,
        decreases n - i,
    {
        let c = s.get_char(i);
        let code = c as u32;
        if code < 48 || code > 57 {
            assert(whole[i - start] == c);
            assert(!is_digit(whole[i - start]));
            return None;
        }
        let ghost prev = s@.subrange(start as int, i as int);
        let ghost next = s@.subrange(start as int, i + 1);
        assert(next.drop_last() =~= prev);
        assert(next.last() == c);
        let d = (code - 48) as u64;
        if !over {
            let grown = acc as u128 * 10 + d as u128;
            if grown > limit as u128 {
                over = true;
            } else {
                acc = grown as u64;
            }
        }
        i = i + 1;
    }
    assert(s@.subrange(start as int, n as int) =~= whole);
    if over {
        None
    } else {
        Some(acc)
    }
}

/// Parses `s` as `str::parse::<u64>` does.
pub fn parse_u64(s: &str) -> (r: Option<u64>)
    ensures
        r is Some <==> spec_parse_unsigned(s@, u64::MAX as int) is Some,
        r matches Some(v) ==> v == spec_parse_unsigned(s@, u64::MAX as int).unwrap(),
{
    let n = s.unicode_len();
    if n > 0 && s.get_char(0) == '+' {
        assert(s@.subrange(1, n as int) =~= s@.drop_first());
        parse_digits_from(s, 1, u64::MAX)
    } else {
        assert(s@.subrange(0, n as int) =~= s@);
        parse_digits_from(s, 0, u64::MAX)
    }
}

/// Parses `s` as `str::parse::<u32>` does.
pub fn parse_u32(s: &str) -> (r: Option<u32>)
    ensures
        r is Some <==> spec_parse_unsigned(s@, u32::MAX as int) is Some,
        r matches Some(v) ==> v == spec_parse_unsigned(s@, u32::MAX as int).unwrap(),
{
    let n = s.unicode_len();
    let parsed = if n > 0 && s.get_char(0) == '+' {
        assert(s@.subrange(1, n as int) =~= s@.drop_first());
        parse_digits_from(s, 1, u32::MAX as u64)
    } else {
        assert(s@.subrange(0, n as int) =~= s@);
        parse_digits_from(s, 0, u32::MAX as u64)
    };
    match parsed {
        Some(v) => Some(v as u32),
        None => None,
    }
}

/// Parses `s` as `str::parse::<i32>` does.
pub fn parse_i32(s: &str) -> (r: Option<i32>)
    ensures
        r is Some <==> spec_parse_i32(s@) is Some,
        r matches Some(v) ==> v == spec_parse_i32(s@).unwrap(),
{
    let n = s.unicode_len();
    if n > 0 && s.get_char(0) == '-' {
        assert(s@.subrange(1, n as int) =~= s@.drop_first());
        match parse_digits_from(s, 1, 0x8000_0000) {
            Some(v) => Some((0 - v as i64) as i32),
            None => None,
        }
    } else {
        let parsed = if n > 0 && s.get_char(0) == '+' {
            assert(s@.subrange(1, n as int) =~= s@.drop_first());
            parse_digits_from(s, 1, 0x7fff_ffff)
        } else {
            assert(s@.subrange(0, n as int) =~= s@);
            parse_digits_from(s, 0, 0x7fff_ffff)
        };
        match parsed {
            Some(v) => Some(v as i32),
            None => None,
        }
    }
}

} // verus!
