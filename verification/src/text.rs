//! Comparing text, and recognising decimal integer literals.

use vstd::prelude::*;
use vstd::string::*;
use vstd::utf8::*;

verus! {

/// Whether two strings hold the same characters.
pub fn text_eq(a: &str, b: &str) -> (same: bool)
    ensures
        same == (a@ == b@),
{
    let x = a.as_bytes();
    let y = b.as_bytes();
    if x.len() != y.len() {
        return false;
    }
    let mut i: usize = 0;
    while i < x.len()
        invariant
            x@.len() == y@.len(),
            i <= x@.len(),
            x@ == encode_utf8(a@),
            y@ == encode_utf8(b@),
            forall|j: int| 0 <= j < i ==> x@[j] == y@[j],
        decreases x@.len() - i,
    {
        if x[i] != y[i] {
            return false;
        }
        i += 1;
    }
    proof {
        assert(x@ =~= y@);
        encode_utf8_decode_utf8(a@);
        encode_utf8_decode_utf8(b@);
    }
    true
}

/// A decimal digit.
pub open spec fn is_digit(c: char) -> bool {
    '0' <= c <= '9'
}

/// Every character is a decimal digit.
pub open spec fn all_digits(s: Seq<char>) -> bool {
    forall|i: int| 0 <= i < s.len() ==> is_digit(#[trigger] s[i])
}

/// The number that a string of decimal digits writes.
pub open spec fn digits_value(s: Seq<char>) -> nat
    decreases s.len(),
{
    if s.len() == 0 {
        0
    } else {
        (digits_value(s.drop_last()) * 10 + (s.last() as nat - '0' as nat)) as nat
    }
}

/// Whether `s` is a decimal literal of a 32-bit signed integer: an optional
/// sign, then at least one digit and nothing else, naming a number from
/// -2147483648 to 2147483647. Leading zeros are allowed; blanks are not.
pub open spec fn is_i32_literal(s: Seq<char>) -> bool {
    if s.len() == 0 {
        false
    } else if s[0] == '-' {
        let digits = s.subrange(1, s.len() as int);
        digits.len() > 0 && all_digits(digits) && digits_value(digits) <= 2147483648
    } else if s[0] == '+' {
        let digits = s.subrange(1, s.len() as int);
        digits.len() > 0 && all_digits(digits) && digits_value(digits) <= 2147483647
    } else {
        all_digits(s) && digits_value(s) <= 2147483647
    }
}

/// A string of digits names a number at least as large as any of its
/// prefixes does.
pub proof fn lemma_digits_value_prefix(s: Seq<char>, k: int)
    requires
        0 <= k <= s.len(),
        all_digits(s),
    ensures
        digits_value(s.subrange(0, k)) <= digits_value(s),
    decreases s.len() - k,
{
    if k == s.len() {
        assert(s.subrange(0, k) =~= s);
    } else {
        lemma_digits_value_prefix(s, k + 1);
        let longer = s.subrange(0, k + 1);
        assert(longer.drop_last() =~= s.subrange(0, k));
        assert(is_digit(longer.last()));
    }
}

/// Whether `s` is a decimal literal of a 32-bit signed integer, which is
/// when `str::parse::<i32>` accepts it.
pub fn is_integer_text(s: &str) -> (yes: bool)
    ensures
        yes == is_i32_literal(s@),
{
    if !s.is_ascii() {
        proof {
            if is_i32_literal(s@) {
                let digits = s@.subrange(1, s@.len() as int);
                assert forall|i: int| 0 <= i < s@.len() implies '\0' <= #[trigger] s@[i] <= '\u{7f}' by {
                    if s@[0] == '-' || s@[0] == '+' {
                        if i > 0 {
                            assert(is_digit(digits[i - 1]));
                        }
                    } else {
                        assert(is_digit(s@[i]));
                    }
                }
            }
        }
        return false;
    }
    let bytes = s.as_bytes();
    proof {
        is_ascii_spec_bytes(s);
    }
    let n = bytes.len();
    if n == 0 {
        return false;
    }
    let first = bytes[0];
    assert(first == s@[0] as u8);
    let negative = first == 45u8;
    let start: usize = if negative || first == 43u8 { 1 } else { 0 };
    if start == n {
        return false;
    }
    let limit: u64 = if negative { 2147483648 } else { 2147483647 };
    let ghost digits = s@.subrange(start as int, n as int);
    proof {
        if start == 0 {
            assert(digits =~= s@);
        }
        assert(is_i32_literal(s@) == (all_digits(digits) && digits_value(digits) <= limit));
    }
    let mut acc: u64 = 0;
    let mut i: usize = start;
    while i < n
        invariant
            n == s@.len(),
            n == bytes@.len(),
            forall|j: int| 0 <= j < n ==> bytes@[j] == #[trigger] s@[j] as u8,
            forall|j: int| 0 <= j < n ==> '\0' <= #[trigger] s@[j] <= '\u{7f}',
            start <= i <= n,
            digits == s@.subrange(start as int, n as int),
            is_i32_literal(s@) == (all_digits(digits) && digits_value(digits) <= limit),
            all_digits(digits.subrange(0, i - start)),
            acc == digits_value(digits.subrange(0, i - start)),
            acc <= limit,
            limit <= 2147483648,
        decreases n - i,
    {
        let c = bytes[i];
        let ghost before = digits.subrange(0, i - start);
        let ghost now = digits.subrange(0, i - start + 1);
        proof {
            assert(now.drop_last() =~= before);
            assert(now.last() == s@[i as int]);
            assert(digits[i - start] == s@[i as int]);
        }
        if c < 48u8 || c > 57u8 {
            proof {
                assert(!is_digit(digits[i - start]));
            }
            return false;
        }
        acc = acc * 10 + (c - 48u8) as u64;
        proof {
            assert(is_digit(s@[i as int]));
            assert forall|j: int| 0 <= j < now.len() implies is_digit(#[trigger] now[j]) by {
                if j < before.len() {
                    assert(now[j] == before[j]);
                }
            }
        }
        if acc > limit {
            proof {
                if all_digits(digits) {
                    lemma_digits_value_prefix(digits, i - start + 1);
                }
            }
            return false;
        }
        i += 1;
    }
    proof {
        assert(digits.subrange(0, n - start) =~= digits);
    }
    true
}

} // verus!
