//! Decimal integers as text: what `str::parse::<i32>` accepts and returns.
use vstd::prelude::*;

verus! {

/// An ASCII decimal digit.
pub open spec fn is_digit(c: char) -> bool {
    '0' <= c && c <= '9'
}

/// Every character of `s` is an ASCII decimal digit.
pub open spec fn all_digits(s: Seq<char>) -> bool {
    forall|i: int| 0 <= i < s.len() ==> is_digit(#[trigger] s[i])
}

/// The value of a run of decimal digits, most significant first.
pub open spec fn digits_value(s: Seq<char>) -> int
    decreases s.len(),
{
    if s.len() == 0 {
        0
    } else {
        digits_value(s.drop_last()) * 10 + (s.last() as int - '0' as int)
    }
}

/// Whether the text starts with a sign character.
pub open spec fn sign_len(s: Seq<char>) -> int {
    if s.len() > 0 && (s[0] == '-' || s[0] == '+') {
        1
    } else {
        0
    }
}

/// The signed value the text denotes, before any range check.
pub open spec fn signed_value(s: Seq<char>) -> int {
    let digits = s.skip(sign_len(s));
    if s.len() > 0 && s[0] == '-' {
        -digits_value(digits)
    } else {
        digits_value(digits)
    }
}

/// What `i32::from_str` gives back: an optional `+` or `-`, then at least one
/// decimal digit and nothing else, whose value fits in an `i32`.
pub open spec fn parse_i32_spec(s: Seq<char>) -> Option<i32> {
    let digits = s.skip(sign_len(s));
    if digits.len() == 0 || !all_digits(digits) {
        None
    } else if i32::MIN <= signed_value(s) <= i32::MAX {
        Some(signed_value(s) as i32)
    } else {
        None
    }
}

/// A digit run never denotes less than any of its prefixes.
pub proof fn lemma_digits_value_prefix(s: Seq<char>, k: int)
    requires
        all_digits(s),
        0 <= k <= s.len(),
    ensures
        0 <= digits_value(s.take(k)) <= digits_value(s),
    decreases s.len(),
{
    if s.len() == 0 {
        assert(s.take(k) =~= s);
    } else if k == s.len() {
        assert(s.take(k) =~= s);
        lemma_digits_value_prefix(s.drop_last(), s.len() - 1);
        assert(s.drop_last().take(s.len() - 1) =~= s.drop_last());
        assert(is_digit(s[s.len() - 1]));
    } else {
        assert(all_digits(s.drop_last())) by {
            assert forall|i: int| 0 <= i < s.drop_last().len() implies is_digit(
                #[trigger] s.drop_last()[i],
            ) by {
                assert(s.drop_last()[i] == s[i]);
            }
        }
        lemma_digits_value_prefix(s.drop_last(), k);
        assert(s.drop_last().take(k) =~= s.take(k));
        lemma_digits_value_prefix(s.drop_last(), s.len() - 1);
        assert(s.drop_last().take(s.len() - 1) =~= s.drop_last());
        assert(is_digit(s[s.len() - 1]));
    }
}

/// Parses a decimal `i32` as `str::parse::<i32>` does: `None` exactly where
/// the standard parse reports an error.
pub fn parse_i32(s: &str) -> (r: Option<i32>)
    ensures
        r == parse_i32_spec(s@),
{
    let n = s.unicode_len();
    let ghost t = s@;
    let mut start: usize = 0;
    let mut negative = false;
    if n > 0 {
        let c0 = s.get_char(0);
        if c0 == '-' {
            start = 1;
            negative = true;
        } else if c0 == '+' {
            start = 1;
        }
    }
    assert(start == sign_len(t));
    let ghost digits = t.skip(start as int);
    if start >= n {
        return None;
    }
    // the bound that a magnitude may reach and still fit, for either sign
    let limit: i64 = 2147483648;
    let mut acc: i64 = 0;
    let mut i: usize = start;
    while i < n
        invariant
            n == t.len(),
            t == s@,
            start == sign_len(t),
            digits == t.skip(start as int),
            start <= i <= n,
            0 <= acc <= limit,
            limit == 2147483648,
            all_digits(digits.take(i - start)),
            acc == digits_value(digits.take(i - start)),
        decreases n - i,
    {
        let c = s.get_char(i);
        assert(c == digits[i - start]);
        if c < '0' || c > '9' {
            assert(!all_digits(digits));
            return None;
        }
        let d: i64 = (c as u32 - '0' as u32) as i64;
        proof {
            let p = digits.take(i - start);
            let q = digits.take(i - start + 1);
            assert(q.drop_last() =~= p);
            assert(q.last() == c);
            assert(all_digits(q)) by {
                assert forall|j: int| 0 <= j < q.len() implies is_digit(#[trigger] q[j]) by {
                    if j < p.len() {
                        assert(q[j] == p[j]);
                    }
                }
            }
        }
        if acc * 10 + d > limit {
            // the magnitude only grows from here on, so it can never fit
            proof {
                let q = digits.take(i - start + 1);
                if all_digits(digits) {
                    lemma_digits_value_prefix(digits, i - start + 1);
                    assert(digits_value(q) > limit);
                }
            }
            return None;
        }
        acc = acc * 10 + d;
        i = i + 1;
    }
    assert(digits.take(n - start) =~= digits);
    if negative {
        Some((-acc) as i32)
    } else if acc == limit {
        None
    } else {
        Some(acc as i32)
    }
}

} // verus!
