//! The textual forms that header values take: visible ASCII, and decimal
//! integers as Rust's `str::parse` reads them for `u64` and `i64`.

use vstd::prelude::*;

verus! {

/// A byte that a header value may hold and still read as text: a visible ASCII
/// character, a space, or a horizontal tab.
pub open spec fn is_visible_ascii(b: u8) -> bool {
    (32 <= b && b < 127) || b == 9
}

/// Every byte of `s` is visible ASCII.
pub open spec fn all_visible_ascii(s: Seq<u8>) -> bool {
    forall|i: int| 0 <= i < s.len() ==> is_visible_ascii(#[trigger] s[i])
}

/// The characters that ASCII bytes stand for.
pub open spec fn ascii_chars(s: Seq<u8>) -> Seq<char> {
    s.map_values(|b: u8| b as char)
}

/// A decimal digit, `0` to `9`.
pub open spec fn is_digit(b: u8) -> bool {
    48 <= b && b <= 57
}

/// Every byte of `s` is a decimal digit.
pub open spec fn all_digits(s: Seq<u8>) -> bool {
    forall|i: int| 0 <= i < s.len() ==> is_digit(#[trigger] s[i])
}

/// The number that the decimal digits `s` write, most significant first.
pub open spec fn decimal_value(s: Seq<u8>) -> nat
    decreases s.len(),
{
    if s.len() == 0 {
        0
    } else {
        decimal_value(s.drop_last()) * 10 + (s.last() - 48) as nat
    }
}

/// `s` without a leading `+`, if it has one.
pub open spec fn without_plus(s: Seq<u8>) -> Seq<u8> {
    if s.len() > 0 && s[0] == 43 {
        s.drop_first()
    } else {
        s
    }
}

/// What `str::parse::<u64>` gives: an optional `+` followed by at least one decimal
/// digit and nothing else, whose value fits in a `u64`.
pub open spec fn spec_parse_u64(s: Seq<u8>) -> Option<u64> {
    let digits = without_plus(s);
    if digits.len() > 0 && all_digits(digits) && decimal_value(digits) <= u64::MAX {
        Some(decimal_value(digits) as u64)
    } else {
        None
    }
}

/// What `str::parse::<i64>` gives: an optional `+` or `-` followed by at least one
/// decimal digit and nothing else, whose signed value fits in an `i64`.
pub open spec fn spec_parse_i64(s: Seq<u8>) -> Option<i64> {
    if s.len() > 0 && s[0] == 45 {
        let digits = s.drop_first();
        if digits.len() > 0 && all_digits(digits) && decimal_value(digits) <= i64::MAX + 1 {
            Some((-decimal_value(digits)) as i64)
        } else {
            None
        }
    } else {
        let digits = without_plus(s);
        if digits.len() > 0 && all_digits(digits) && decimal_value(digits) <= i64::MAX {
            Some(decimal_value(digits) as i64)
        } else {
            None
        }
    }
}

/// A longer run of digits never writes a smaller number than its prefix.
proof fn lemma_decimal_value_prefix_monotone(s: Seq<u8>, i: int, j: int)
    requires
        0 <= i <= j <= s.len(),
        all_digits(s),
    ensures
        decimal_value(s.take(i)) <= decimal_value(s.take(j)),
    decreases j - i,
{
    if i < j {
        lemma_decimal_value_prefix_monotone(s, i, j - 1);
        assert(s.take(j).drop_last() =~= s.take(j - 1));
    }
}

/// Reads the decimal digits `s[start..]`: `None` when there are none, when a byte is
/// not a digit, or when the value does not fit in a `u64`.
fn parse_decimal_magnitude(s: &[u8], start: usize) -> (r: Option<u64>)
    requires
        start <= s@.len(),
    ensures
        ({
            let digits = s@.subrange(start as int, s@.len() as int);
            r == if digits.len() > 0 && all_digits(digits) && decimal_value(digits) <= u64::MAX {
                Some(decimal_value(digits) as u64)
            } else {
                None
            }
        }),
{
    let ghost digits = s@.subrange(start as int, s@.len() as int);
    if start == s.len() {
        return None;
    }
    let mut i: usize = start;
    let mut acc: u128 = 0;
    while i < s.len()
        invariant
            start <= i <= s@.len(),
            digits == s@.subrange(start as int, s@.len() as int),
            all_digits(digits.take(i - start)),
            acc == decimal_value(digits.take(i - start)),
            acc <= u64::MAX,
        decreases s@.len() - i,
    {
        let b: u8 = s[i];
        if b < 48 || b > 57 {
            assert(digits[i - start] == b);
            return None;
        }
        let next: u128 = acc * 10 + (b - 48) as u128;
        proof {
            let k = i - start;
            assert(digits.take(k + 1).drop_last() =~= digits.take(k));
            assert(digits.take(k + 1).last() == b);
            assert forall|j: int| 0 <= j < k + 1 implies is_digit(#[trigger] digits.take(k + 1)[j]) by {
                if j < k {
                    assert(digits.take(k + 1)[j] == digits.take(k)[j]);
                }
            }
        }
        if next > u64::MAX as u128 {
            proof {
                let k = i - start;
                if all_digits(digits) {
                    lemma_decimal_value_prefix_monotone(digits, k + 1, digits.len() as int);
                    assert(digits.take(digits.len() as int) =~= digits);
                }
            }
            return None;
        }
        acc = next;
        i = i + 1;
    }
    proof {
        assert(digits.take(i - start) =~= digits);
    }
    Some(acc as u64)
}

/// Reads `s` as `str::parse::<u64>` does.
pub fn parse_u64(s: &[u8]) -> (r: Option<u64>)
    ensures
        r == spec_parse_u64(s@),
{
    let start: usize = if s.len() > 0 && s[0] == 43 { 1 } else { 0 };
    proof {
        assert(without_plus(s@) =~= s@.subrange(start as int, s@.len() as int));
    }
    parse_decimal_magnitude(s, start)
}

/// Reads `s` as `str::parse::<i64>` does.
pub fn parse_i64(s: &[u8]) -> (r: Option<i64>)
    ensures
        r == spec_parse_i64(s@),
{
    if s.len() > 0 && s[0] == 45 {
        proof {
            assert(s@.drop_first() =~= s@.subrange(1, s@.len() as int));
        }
        match parse_decimal_magnitude(s, 1) {
            Some(m) => {
                if m == 9_223_372_036_854_775_808u64 {
                    Some(i64::MIN)
                } else if m < 9_223_372_036_854_775_808u64 {
                    let v: i64 = m as i64;
                    Some(-v)
                } else {
                    None
                }
            },
            None => None,
        }
    } else {
        let start: usize = if s.len() > 0 && s[0] == 43 { 1 } else { 0 };
        proof {
            assert(without_plus(s@) =~= s@.subrange(start as int, s@.len() as int));
        }
        match parse_decimal_magnitude(s, start) {
            Some(m) => {
                if m <= 9_223_372_036_854_775_807u64 {
                    Some(m as i64)
                } else {
                    None
                }
            },
            None => None,
        }
    }
}

/// The decimal digits that write `n`, most significant first, without leading
/// zeros.
pub open spec fn decimal_digits(n: nat) -> Seq<u8>
    decreases n,
{
    if n < 10 {
        seq![(48 + n) as u8]
    } else {
        decimal_digits(n / 10).push((48 + n % 10) as u8)
    }
}

/// The decimal digits of `n` are digits, at least one, and they write `n`.
pub proof fn lemma_decimal_digits(n: nat)
    ensures
        decimal_digits(n).len() > 0,
        all_digits(decimal_digits(n)),
        decimal_value(decimal_digits(n)) == n,
        is_digit(decimal_digits(n)[0]),
    decreases n,
{
    if n >= 10 {
        lemma_decimal_digits(n / 10);
        let s = decimal_digits(n);
        assert(s.drop_last() =~= decimal_digits(n / 10));
        assert forall|i: int| 0 <= i < s.len() implies is_digit(#[trigger] s[i]) by {
            if i < s.len() - 1 {
                assert(s[i] == decimal_digits(n / 10)[i]);
            }
        }
        assert(n == (n / 10) * 10 + n % 10) by {
            vstd::arithmetic::div_mod::lemma_fundamental_div_mod(n as int, 10);
        }
        assert(s.last() == (48 + n % 10) as u8);
        assert(decimal_value(s) == decimal_value(s.drop_last()) * 10 + (s.last() - 48) as nat);
    } else {
        let s = decimal_digits(n);
        assert(s.drop_last() =~= Seq::<u8>::empty());
        assert(decimal_value(s) == decimal_value(s.drop_last()) * 10 + (s.last() - 48) as nat);
    }
}

/// A whole number written in decimal reads back as itself, as `u64` and as `i64`
/// where it fits.
pub proof fn law_decimal_reads_back(n: nat)
    ensures
        n <= u64::MAX ==> spec_parse_u64(decimal_digits(n)) == Some(n as u64),
        n <= i64::MAX ==> spec_parse_i64(decimal_digits(n)) == Some(n as i64),
        all_visible_ascii(decimal_digits(n)),
{
    lemma_decimal_digits(n);
    let s = decimal_digits(n);
    assert(without_plus(s) == s);
    assert forall|i: int| 0 <= i < s.len() implies is_visible_ascii(#[trigger] s[i]) by {
        assert(is_digit(s[i]));
    }
}

} // verus!
