//! Decimal integer texts: what counts as one, what it is worth, and a
//! verified parser.
//!
//! An integer text is an optional single `+` or `-` sign followed by one
//! or more decimal digits, the shape `str::parse` accepts for the signed
//! integer types.  The parser returns a value exactly when the text has
//! that shape and its value fits the target type.

use vstd::prelude::*;

verus! {

/// True when `c` is a decimal digit.
pub open spec fn is_dec_digit(c: char) -> bool {
    '0' <= c && c <= '9'
}

/// The numeric worth of a decimal digit.
pub open spec fn digit_value(c: char) -> int {
    c as int - '0' as int
}

/// True when every character of `s` is a decimal digit.
pub open spec fn all_dec_digits(s: Seq<char>) -> bool {
    forall|i: int| 0 <= i < s.len() ==> is_dec_digit(#[trigger] s[i])
}

/// The value of a plain digit string read in base ten.
pub open spec fn digits_value(s: Seq<char>) -> int
    decreases s.len(),
{
    if s.len() == 0 {
        0
    } else {
        digits_value(s.drop_last()) * 10 + digit_value(s.last())
    }
}

/// The digit part of an integer text: everything after a single leading
/// sign, or the whole text when no sign is present.
pub open spec fn int_text_body(s: Seq<char>) -> Seq<char> {
    if s.len() > 0 && (s[0] == '+' || s[0] == '-') {
        s.subrange(1, s.len() as int)
    } else {
        s
    }
}

/// True when the integer text carries a leading minus sign.
pub open spec fn int_text_negative(s: Seq<char>) -> bool {
    s.len() > 0 && s[0] == '-'
}

/// True when `s` is an integer text: an optional sign followed by one or
/// more decimal digits.
pub open spec fn is_int_text(s: Seq<char>) -> bool {
    int_text_body(s).len() > 0 && all_dec_digits(int_text_body(s))
}

/// The mathematical value of an integer text.
pub open spec fn int_text_value(s: Seq<char>) -> int {
    if int_text_negative(s) {
        -digits_value(int_text_body(s))
    } else {
        digits_value(int_text_body(s))
    }
}

/// True when `s` is an integer text whose value fits a signed 64-bit
/// integer, the texts `str::parse::<i64>` accepts.
pub open spec fn is_i64_text(s: Seq<char>) -> bool {
    is_int_text(s) && i64::MIN <= int_text_value(s) <= i64::MAX
}

/// True when `s` is an integer text whose value fits a signed 32-bit
/// integer, the texts `str::parse::<i32>` accepts.
pub open spec fn is_i32_text(s: Seq<char>) -> bool {
    is_int_text(s) && i32::MIN <= int_text_value(s) <= i32::MAX
}

/// A digit string is worth a non-negative amount.
proof fn lemma_digits_value_nonneg(s: Seq<char>)
    requires
        all_dec_digits(s),
    ensures
        digits_value(s) >= 0,
    decreases s.len(),
{
    if s.len() > 0 {
        assert(all_dec_digits(s.drop_last()));
        lemma_digits_value_nonneg(s.drop_last());
    }
}

/// Reading one more digit multiplies the value so far by ten and adds
/// that digit.
proof fn lemma_digits_value_snoc(s: Seq<char>, j: int)
    requires
        0 <= j < s.len(),
    ensures
        digits_value(s.take(j + 1)) == digits_value(s.take(j)) * 10 + digit_value(s[j]),
{
    assert(s.take(j + 1).drop_last() =~= s.take(j));
    assert(s.take(j + 1).last() == s[j]);
}

/// A digit string is worth at least any of its prefixes.
proof fn lemma_digits_value_prefix_le(s: Seq<char>, j: int)
    requires
        all_dec_digits(s),
        0 <= j <= s.len(),
    ensures
        digits_value(s.take(j)) <= digits_value(s),
    decreases s.len() - j,
{
    if j == s.len() {
        assert(s.take(j) =~= s);
    } else {
        lemma_digits_value_snoc(s, j);
        assert(all_dec_digits(s.take(j)));
        lemma_digits_value_nonneg(s.take(j));
        lemma_digits_value_prefix_le(s, j + 1);
    }
}

/// Parses `s` as a signed 64-bit integer.  Returns the value exactly
/// when `s` is an integer text that fits the type, and nothing
/// otherwise.
pub fn parse_i64(s: &str) -> (r: Option<i64>)
    ensures
        is_i64_text(s@) ==> r == Some(int_text_value(s@) as i64),
        !is_i64_text(s@) ==> r is None,
{
    let n: usize = s.unicode_len();
    let mut start: usize = 0;
    let mut neg: bool = false;
    if n > 0 {
        let c0: char = s.get_char(0);
        if c0 == '-' {
            neg = true;
            start = 1;
        } else if c0 == '+' {
            start = 1;
        }
    }
    let ghost body = int_text_body(s@);
    assert(body =~= s@.subrange(start as int, n as int));
    if start >= n {
        assert(body.len() == 0);
        return None;
    }
    let limit: u64 = if neg {
        9223372036854775808u64
    } else {
        9223372036854775807u64
    };
    let mut acc: u64 = 0;
    let mut j: usize = start;
    while j < n
        invariant
            start <= j <= n <= s@.len(),
            n == s@.len(),
            start < n,
            body == int_text_body(s@),
            body =~= s@.subrange(start as int, n as int),
            neg == int_text_negative(s@),
            limit == (if neg { 9223372036854775808u64 } else { 9223372036854775807u64 }),
            all_dec_digits(body.take(j - start)),
            acc == digits_value(body.take(j - start)),
            acc <= limit,
        decreases n - j,
    {
        let c: char = s.get_char(j);
        if c < '0' || c > '9' {
            assert(body[j - start] == s@[j as int]);
            assert(!is_dec_digit(body[j - start]));
            return None;
        }
        let d: u64 = (c as u32 - 48) as u64;
        assert(d == digit_value(s@[j as int]));
        let wide: u128 = acc as u128 * 10 + d as u128;
        proof {
            lemma_digits_value_snoc(body, j - start);
            assert(body.take(j - start + 1).len() == j - start + 1);
            assert(digits_value(body.take(j - start + 1)) == acc * 10 + d);
        }
        if wide > limit as u128 {
            proof {
                if all_dec_digits(body) {
                    lemma_digits_value_prefix_le(body, j - start + 1);
                    assert(digits_value(body) > limit);
                }
            }
            return None;
        }
        acc = wide as u64;
        j = j + 1;
    }
    proof {
        assert(body.take(n - start) =~= body);
        assert(acc == digits_value(body));
        assert(is_int_text(s@));
    }
    if neg {
        if acc == 9223372036854775808u64 {
            Some(i64::MIN)
        } else {
            Some(-(acc as i64))
        }
    } else {
        Some(acc as i64)
    }
}

/// Parses `s` as a signed 32-bit integer.  Returns the value exactly
/// when `s` is an integer text that fits the type, and nothing
/// otherwise.
pub fn parse_i32(s: &str) -> (r: Option<i32>)
    ensures
        is_i32_text(s@) ==> r == Some(int_text_value(s@) as i32),
        !is_i32_text(s@) ==> r is None,
{
    match parse_i64(s) {
        Some(v) => {
            if i32::MIN as i64 <= v && v <= i32::MAX as i64 {
                Some(v as i32)
            } else {
                None
            }
        },
        None => None,
    }
}

} // verus!
