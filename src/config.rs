//! Reading the configured cache lifetime.
use crate::CACHE_MAX_AGE_DEFAULT;
use vstd::prelude::*;

verus! {

pub open spec fn is_digit(c: char) -> bool {
    '0' <= c && c <= '9'
}

/// The number written by a run of decimal digits.
pub open spec fn digits_value(s: Seq<char>) -> nat
    decreases s.len(),
{
    if s.len() == 0 {
        0
    } else {
        digits_value(s.drop_last()) * 10 + (s.last() as u32 - '0' as u32) as nat
    }
}

/// The digits of a number as `usize` parsing reads them: after one optional `+`.
pub open spec fn unsigned_digits(s: Seq<char>) -> Seq<char> {
    if s.len() > 0 && s[0] == '+' {
        s.drop_first()
    } else {
        s
    }
}

/// What parsing `s` as a `usize` gives: one or more decimal digits after an optional `+`,
/// whose value fits in a `usize`.
pub open spec fn parsed_usize(s: Seq<char>) -> Option<nat> {
    let d = unsigned_digits(s);
    if d.len() > 0 && (forall|i: int| 0 <= i < d.len() ==> is_digit(#[trigger] d[i]))
        && digits_value(d) <= usize::MAX {
        Some(digits_value(d))
    } else {
        None
    }
}

/// The cache lifetime for a configured value: the value where it reads as a `usize`, else the
/// default.
pub open spec fn configured_max_age(value: Option<Seq<char>>) -> nat {
    match value {
        Some(s) => match parsed_usize(s) {
            Some(n) => n,
            None => CACHE_MAX_AGE_DEFAULT as nat,
        },
        None => CACHE_MAX_AGE_DEFAULT as nat,
    }
}

/// A longer run of digits is worth at least as much as its prefix.
proof fn lemma_digits_value_grows(s: Seq<char>, j: int)
    requires
        0 <= j <= s.len(),
        forall|i: int| 0 <= i < s.len() ==> is_digit(#[trigger] s[i]),
    ensures
        digits_value(s.subrange(0, j)) <= digits_value(s),
    decreases s.len() - j,
{
    if j < s.len() {
        lemma_digits_value_grows(s, j + 1);
        let p = s.subrange(0, j + 1);
        assert(p.drop_last() =~= s.subrange(0, j));
        assert(is_digit(p.last()));
    } else {
        assert(s.subrange(0, j) =~= s);
    }
}

/// Reads `s` as a `usize`, as `str::parse` does.
pub fn parse_usize(s: &str) -> (r: Option<usize>)
    ensures
        match parsed_usize(s@) {
            Some(n) => r == Some(n as usize),
            None => r is None,
        },
{
    let n = s.unicode_len();
    let mut i: usize = 0;
    if n > 0 && s.get_char(0) == '+' {
        i = 1;
    }
    let start = i;
    let ghost d = unsigned_digits(s@);
    assert(d =~= s@.subrange(start as int, n as int));
    if start == n {
        return None;
    }
    let mut acc: usize = 0;
    while i < n
        invariant
            n == s@.len(),
            d == s@.subrange(start as int, n as int),
            d == unsigned_digits(s@),
            start <= i <= n,
            forall|k: int| 0 <= k < i - start ==> is_digit(#[trigger] d[k]),
            acc as nat == digits_value(d.subrange(0, i - start)),
        decreases n - i,
    {
        let c = s.get_char(i);
        if !('0' <= c && c <= '9') {
            assert(!is_digit(d[i - start]));
            assert(!(forall|k: int| 0 <= k < d.len() ==> is_digit(#[trigger] d[k])));
            assert(parsed_usize(s@) is None);
            return None;
        }
        let digit = (c as u32 - '0' as u32) as usize;
        let ghost pre = d.subrange(0, i - start);
        let ghost next = d.subrange(0, i - start + 1);
        assert(next.drop_last() =~= pre);
        assert(next.last() == c);
        if acc > (usize::MAX - digit) / 10 {
            proof {
                assert(acc * 10 + digit > usize::MAX) by (nonlinear_arith)
                    requires
                        acc > (usize::MAX - digit) / 10,
                        digit <= 9,
                ;
                assert(digits_value(next) > usize::MAX);
                if forall|k: int| 0 <= k < d.len() ==> is_digit(#[trigger] d[k]) {
                    lemma_digits_value_grows(d, i - start + 1);
                    assert(digits_value(d) > usize::MAX);
                }
                assert(parsed_usize(s@) is None);
            }
            return None;
        }
        assert(acc * 10 + digit <= usize::MAX) by (nonlinear_arith)
            requires
                acc <= (usize::MAX - digit) / 10,
                digit <= 9,
        ;
        acc = acc * 10 + digit;
        i = i + 1;
    }
    assert(d.subrange(0, (n - start) as int) =~= d);
    Some(acc)
}

/// The cache lifetime, in seconds, for the configured value `value`, if any: the value where it
/// reads as a `usize`, else `CACHE_MAX_AGE_DEFAULT`. An unusable value is no error.
pub fn cache_max_age_from(value: Option<&str>) -> (r: usize)
    ensures
        r as nat == configured_max_age(
            match value {
                Some(s) => Some(s@),
                None => None,
            },
        ),
{
    match value {
        Some(s) => match parse_usize(s) {
            Some(n) => n,
            None => CACHE_MAX_AGE_DEFAULT,
        },
        None => CACHE_MAX_AGE_DEFAULT,
    }
}

} // verus!
