//! Decimal parsing of signed 64-bit integers, as `i64::from_str` does it.

use vstd::prelude::*;
use vstd::string::StringSliceAdditionalSpecFns;

verus! {

/// Whether `b` is an ASCII decimal digit.
pub open spec fn is_digit(b: u8) -> bool {
    48 <= b <= 57
}

/// Whether every byte of `s` is an ASCII decimal digit.
pub open spec fn all_digits(s: Seq<u8>) -> bool {
    forall|i: int| 0 <= i < s.len() ==> is_digit(#[trigger] s[i])
}

/// The value of a string of decimal digits, most significant digit first.
pub open spec fn decimal_value(s: Seq<u8>) -> nat
    decreases s.len(),
{
    if s.len() == 0 {
        0
    } else {
        decimal_value(s.drop_last()) * 10 + (s.last() - 48) as nat
    }
}

/// The number written by `s`: an optional `+` or `-` sign followed by at
/// least one decimal digit, with no other byte.  `None` when `s` has another
/// form or the number lies outside the range of `i64`.
pub open spec fn spec_parse_i64(s: Seq<u8>) -> Option<int> {
    let negative = s.len() > 0 && s[0] == 45;
    let signed = s.len() > 0 && (s[0] == 45 || s[0] == 43);
    let digits = if signed { s.drop_first() } else { s };
    let value: int = if negative { -decimal_value(digits) } else { decimal_value(digits) as int };
    if digits.len() > 0 && all_digits(digits) && i64::MIN <= value <= i64::MAX {
        Some(value)
    } else {
        None
    }
}

/// Appending digits never makes a number smaller.
proof fn lemma_decimal_value_prefix(s: Seq<u8>, j: int)
    requires
        0 <= j <= s.len(),
        all_digits(s),
    ensures
        decimal_value(s.subrange(0, j)) <= decimal_value(s),
    decreases s.len() - j,
{
    if j < s.len() {
        lemma_decimal_value_prefix(s, j + 1);
        let t = s.subrange(0, j + 1);
        assert(t.drop_last() =~= s.subrange(0, j));
        assert(is_digit(s[j]));
    } else {
        assert(s.subrange(0, j) =~= s);
    }
}

/// Parses `s` as `i64::from_str` does: an optional sign, then decimal digits.
pub fn parse_i64(s: &str) -> (r: Option<i64>)
    ensures
        match r {
            Some(v) => spec_parse_i64(s.spec_bytes()) == Some(v as int),
            None => spec_parse_i64(s.spec_bytes()) is None,
        },
{
    let bytes = s.as_bytes();
    let ghost b = bytes@;
    let n = bytes.len();
    if n == 0 {
        return None;
    }
    let first = bytes[0];
    let negative = first == 45u8;
    let start: usize = if first == 45u8 || first == 43u8 { 1 } else { 0 };
    if start == n {
        return None;
    }
    let ghost digits = b.subrange(start as int, n as int);
    assert(digits =~= (if start == 1 { b.drop_first() } else { b }));
    // bound on the magnitude: 2^63 for a negative number, 2^63 - 1 otherwise
    let limit: u64 = if negative { 0x8000_0000_0000_0000u64 } else { 0x7fff_ffff_ffff_ffffu64 };
    let mut mag: u64 = 0;
    let mut i: usize = start;
    while i < n
        invariant
            b == bytes@,
            b == s.spec_bytes(),
            n == b.len(),
            n > 0,
            negative == (b[0] == 45),
            start == (if b[0] == 45 || b[0] == 43 { 1usize } else { 0usize }),
            start <= 1,
            start <= i <= n,
            start < n,
            digits == b.subrange(start as int, n as int),
            all_digits(b.subrange(start as int, i as int)),
            mag as nat == decimal_value(b.subrange(start as int, i as int)),
            mag <= limit,
            limit == (if negative { 0x8000_0000_0000_0000u64 } else { 0x7fff_ffff_ffff_ffffu64 }),
        decreases n - i,
    {
        let c = bytes[i];
        if c < 48u8 || c > 57u8 {
            assert(!is_digit(digits[i - start]));
            return None;
        }
        let d: u64 = (c - 48u8) as u64;
        let ghost prefix = b.subrange(start as int, i as int);
        let ghost next = b.subrange(start as int, i + 1);
        assert(next.drop_last() =~= prefix);
        assert(all_digits(next)) by {
            assert forall|k: int| 0 <= k < next.len() implies is_digit(#[trigger] next[k]) by {
                if k < prefix.len() {
                    assert(next[k] == prefix[k]);
                }
            }
        }
        if mag > (limit - d) / 10 {
            // the magnitude already exceeds the bound, and further digits only add to it
            assert(decimal_value(next) > limit) by (nonlinear_arith)
                requires
                    decimal_value(next) == mag * 10 + d,
                    mag > (limit - d) / 10,
                    d <= 9,
                    limit >= 9,
            ;
            proof {
                let k = i + 1 - start;
                assert(digits.subrange(0, k) =~= next);
                assert(digits =~= (if start == 1 { b.drop_first() } else { b }));
                if all_digits(digits) {
                    lemma_decimal_value_prefix(digits, k);
                }
            }
            return None;
        }
        mag = mag * 10 + d;
        i = i + 1;
    }
    assert(b.subrange(start as int, n as int) =~= digits);
    if negative {
        if mag == 0x8000_0000_0000_0000u64 {
            Some(i64::MIN)
        } else {
            Some(-(mag as i64))
        }
    } else {
        Some(mag as i64)
    }
}

} // verus!
