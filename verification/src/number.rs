//! Unsigned integer literals: their grammar and their value.
//!
//! A literal is an optional `+` followed by one or more digits of the radix;
//! the digits `0`-`9`, `a`-`z` and `A`-`Z` stand for 0 to 35. A literal
//! whose value exceeds the target type's maximum denotes nothing.

use vstd::prelude::*;

verus! {

/// The value of a digit character; 36 for a character that is a digit in
/// no radix.
pub open spec fn digit_value(c: char) -> nat {
    let u = c as u32;
    if 48 <= u <= 57 {
        (u - 48) as nat
    } else if 97 <= u <= 122 {
        (u - 97 + 10) as nat
    } else if 65 <= u <= 90 {
        (u - 65 + 10) as nat
    } else {
        36
    }
}

/// Every character of `s` is a digit in `radix`.
pub open spec fn all_digits(s: Seq<char>, radix: nat) -> bool {
    forall|i: int| 0 <= i < s.len() ==> #[trigger] digit_value(s[i]) < radix
}

/// The value of the digit string `s`, most significant digit first.
pub open spec fn digits_value(s: Seq<char>, radix: nat) -> nat
    decreases s.len(),
{
    if s.len() == 0 {
        0
    } else {
        digits_value(s.drop_last(), radix) * radix + digit_value(s.last())
    }
}

/// The digits of a literal: the literal without its optional leading `+`.
pub open spec fn literal_digits(s: Seq<char>) -> Seq<char> {
    if s.len() > 0 && s[0] == '+' {
        s.drop_first()
    } else {
        s
    }
}

/// The value that the unsigned literal `s` denotes in `radix`, if it is one
/// and its value is at most `max`.
pub open spec fn unsigned_value(s: Seq<char>, radix: nat, max: nat) -> Option<nat> {
    let d = literal_digits(s);
    if d.len() > 0 && all_digits(d, radix) && digits_value(d, radix) <= max {
        Some(digits_value(d, radix))
    } else {
        None
    }
}

/// Appending a digit never makes a digit string smaller.
pub proof fn lemma_digits_value_grows(s: Seq<char>, radix: nat, k: int)
    requires
        radix >= 1,
        0 <= k <= s.len(),
    ensures
        digits_value(s.take(k), radix) <= digits_value(s, radix),
    decreases s.len(),
{
    if k < s.len() {
        lemma_digits_value_grows(s.drop_last(), radix, k);
        assert(s.drop_last().take(k) =~= s.take(k));
        let v = digits_value(s.drop_last(), radix);
        assert(v <= v * radix) by (nonlinear_arith)
            requires
                radix >= 1,
        ;
    } else {
        assert(s.take(k) =~= s);
    }
}

/// The value of `c` as a digit, as `digit_value` defines it.
pub fn digit_of(c: char) -> (d: u32)
    ensures
        d == digit_value(c),
{
    let u = c as u32;
    if 48 <= u && u <= 57 {
        u - 48
    } else if 97 <= u && u <= 122 {
        u - 97 + 10
    } else if 65 <= u && u <= 90 {
        u - 65 + 10
    } else {
        36
    }
}

/// Reads the characters `s[lo..hi]` as a decimal literal whose value is at
/// most `max`.
pub fn parse_decimal(s: &Vec<char>, lo: usize, hi: usize, max: u64) -> (res: Option<u64>)
    requires
        lo <= hi <= s.len(),
    ensures
        match res {
            Some(v) => unsigned_value(s@.subrange(lo as int, hi as int), 10, max as nat) == Some(
                v as nat,
            ),
            None => unsigned_value(s@.subrange(lo as int, hi as int), 10, max as nat) is None,
        },
{
    let ghost w = s@.subrange(lo as int, hi as int);
    let mut start = lo;
    if lo < hi && s[lo] == '+' {
        start = lo + 1;
    }
    let ghost d = literal_digits(w);
    assert(d =~= s@.subrange(start as int, hi as int));
    if start == hi {
        return None;
    }
    let mut v: u64 = 0;
    let mut i = start;
    while i < hi
        invariant
            lo <= start < hi <= s.len(),
            start <= i <= hi,
            d == s@.subrange(start as int, hi as int),
            w == s@.subrange(lo as int, hi as int),
            d == literal_digits(w),
            all_digits(s@.subrange(start as int, i as int), 10),
            v == digits_value(s@.subrange(start as int, i as int), 10),
            v <= max,
        decreases hi - i,
    {
        let ghost p = s@.subrange(start as int, i as int);
        let ghost q = s@.subrange(start as int, i + 1);
        assert(q.drop_last() =~= p);
        let dv = digit_of(s[i]);
        if dv >= 10 {
            assert(d[i - start] == s@[i as int]);
            return None;
        }
        assert(digits_value(q, 10) == v * 10 + dv);
        let next = match v.checked_mul(10) {
            Some(m) => m.checked_add(dv as u64),
            None => None,
        };
        match next {
            Some(n) if n <= max => {
                v = n;
                i = i + 1;
            },
            _ => {
                proof {
                    assert(digits_value(q, 10) > max);
                    if all_digits(d, 10) {
                        lemma_digits_value_grows(d, 10, (i + 1 - start) as int);
                        assert(d.take((i + 1 - start) as int) =~= q);
                    }
                }
                return None;
            },
        }
    }
    assert(s@.subrange(start as int, i as int) =~= d);
    Some(v)
}

/// Reads `text` as a hexadecimal literal of a `u64`, with
/// `num::Num::from_str_radix` at radix 16 (which num hands on to
/// `u64::from_str_radix`). The contract claims what std documents for that
/// function: an optional `+`, then one or more digits `0`-`9`, `a`-`f` or
/// `A`-`F`, give their value when it fits in a `u64`; any other text, and a
/// value above `u64::MAX`, give an error, here `None`.
#[verifier::external_body]
pub(crate) fn hex_value(text: &str) -> (res: Option<u64>)
    ensures
        match res {
            Some(v) => unsigned_value(text@, 16, u64::MAX as nat) == Some(v as nat),
            None => unsigned_value(text@, 16, u64::MAX as nat) is None,
        },
{
    let parsed: Result<u64, core::num::ParseIntError> = num::Num::from_str_radix(text, 16);
    parsed.ok()
}

} // verus!
