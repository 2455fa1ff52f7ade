//! Character-level helpers: string equality, suffix stripping, and decimal
//! identity parsing.

use vstd::prelude::*;

verus! {

/// Character-by-character string equality, usable where the contracts need
/// the views compared.
pub fn str_eq(a: &str, b: &str) -> (r: bool)
    ensures
        r == (a@ == b@),
{
    let alen = a.unicode_len();
    let blen = b.unicode_len();
    if alen != blen {
        return false;
    }
    let mut i: usize = 0;
    while i < alen
        invariant
            alen == a@.len(),
            blen == b@.len(),
            alen == blen,
            i <= alen,
            forall|j: int| 0 <= j < i ==> a@[j] == b@[j],
        decreases alen - i,
    {
        if a.get_char(i) != b.get_char(i) {
            return false;
        }
        i += 1;
    }
    proof {
        assert(a@ =~= b@);
    }
    true
}

/// A decimal digit.
pub open spec fn is_digit_char(c: char) -> bool {
    '0' <= c && c <= '9'
}

/// Numeric value of a decimal digit.
pub open spec fn digit_val(c: char) -> int {
    c as int - '0' as int
}

pub open spec fn all_digits(s: Seq<char>) -> bool {
    forall|i: int| 0 <= i < s.len() ==> is_digit_char(s[i])
}

/// Value of a digit string read most-significant first.
pub open spec fn digits_value(s: Seq<char>) -> int
    decreases s.len(),
{
    if s.len() == 0 {
        0
    } else {
        digits_value(s.drop_last()) * 10 + digit_val(s.last())
    }
}

/// Whether the identity string starts with an explicit sign.
pub open spec fn has_sign(s: Seq<char>) -> bool {
    s.len() > 0 && (s[0] == '-' || s[0] == '+')
}

/// The digits of an identity string, the optional sign removed.
pub open spec fn digit_part(s: Seq<char>) -> Seq<char> {
    if has_sign(s) {
        s.skip(1)
    } else {
        s
    }
}

/// The signed value an identity string denotes.
pub open spec fn id_value(s: Seq<char>) -> int {
    if s.len() > 0 && s[0] == '-' {
        -digits_value(digit_part(s))
    } else {
        digits_value(digit_part(s))
    }
}

/// An identity string is valid when an optional sign is followed by at least
/// one digit, nothing else, and the value fits in a signed 64-bit integer.
pub open spec fn valid_identity(s: Seq<char>) -> bool {
    &&& digit_part(s).len() > 0
    &&& all_digits(digit_part(s))
    &&& i64::MIN <= id_value(s) <= i64::MAX
}

pub proof fn lemma_digits_value_nonneg(s: Seq<char>)
    requires
        all_digits(s),
    ensures
        digits_value(s) >= 0,
    decreases s.len(),
{
    if s.len() > 0 {
        assert(all_digits(s.drop_last()));
        lemma_digits_value_nonneg(s.drop_last());
    }
}

/// Appending digits never shrinks the value of a digit string.
pub proof fn lemma_digits_prefix_le(s: Seq<char>, j: int)
    requires
        all_digits(s),
        0 <= j <= s.len(),
    ensures
        digits_value(s.take(j)) <= digits_value(s),
    decreases s.len(),
{
    lemma_digits_value_nonneg(s);
    if j == s.len() {
        assert(s.take(j) =~= s);
    } else {
        assert(all_digits(s.drop_last()));
        lemma_digits_prefix_le(s.drop_last(), j);
        assert(s.take(j) =~= s.drop_last().take(j));
        lemma_digits_value_nonneg(s.drop_last());
        assert(digits_value(s.drop_last()) * 10 >= digits_value(s.drop_last()));
    }
}

/// Parse a decimal identity. Returns the value exactly when the string is a
/// valid signed 64-bit decimal numeral.
pub fn parse_identity(s: &str) -> (r: Option<i64>)
    ensures
        r is Some <==> valid_identity(s@),
        r matches Some(v) ==> v as int == id_value(s@),
{
    let n = s.unicode_len();
    let mut start: usize = 0;
    let mut neg: bool = false;
    if n > 0 {
        let c0 = s.get_char(0);
        if c0 == '-' {
            neg = true;
            start = 1;
        } else if c0 == '+' {
            start = 1;
        }
    }
    let ghost dp = digit_part(s@);
    proof {
        assert(dp =~= s@.skip(start as int));
    }
    if start >= n {
        // no digits at all
        assert(dp.len() == 0);
        return None;
    }
    let mut acc: u64 = 0;
    let mut i: usize = start;
    while i < n
        invariant
            n == s@.len(),
            start <= i <= n,
            start < n,
            start <= 1,
            dp == s@.skip(start as int),
            dp == digit_part(s@),
            neg == (s@.len() > 0 && s@[0] == '-'),
            acc == digits_value(dp.take(i - start)),
            all_digits(dp.take(i - start)),
        decreases n - i,
    {
        let c = s.get_char(i);
        if !('0' <= c && c <= '9') {
            // the digit part holds a non-digit character
            assert(dp[i - start] == c);
            assert(!is_digit_char(dp[i - start]));
            return None;
        }
        let d: u64 = (c as u32 - 48) as u64;
        assert(d == digit_val(c));
        if acc > (u64::MAX - d) / 10 {
            // the prefix already exceeds the 64-bit range, so no extension of
            // it denotes a representable value
            proof {
                let k = i - start;
                assert(dp.take(k + 1).drop_last() =~= dp.take(k));
                assert(dp.take(k + 1).last() == dp[k]);
                assert(digits_value(dp.take(k + 1)) == acc * 10 + d);
                assert(acc * 10 + d > u64::MAX) by {
                    assert(acc >= (u64::MAX - d) / 10 + 1);
                    assert(((u64::MAX - d) / 10 + 1) * 10 + d > u64::MAX) by (nonlinear_arith)
                        requires
                            0 <= d <= 9,
                    ;
                    assert(acc * 10 >= ((u64::MAX - d) / 10 + 1) * 10) by (nonlinear_arith)
                        requires
                            acc >= (u64::MAX - d) / 10 + 1,
                    ;
                }
                if valid_identity(s@) {
                    lemma_digits_prefix_le(dp, k + 1);
                    assert(digits_value(dp) > u64::MAX);
                    assert(false);
                }
            }
            return None;
        }
        proof {
            let k = i - start;
            assert(dp.take(k + 1).drop_last() =~= dp.take(k));
            assert(dp.take(k + 1).last() == dp[k]);
            assert(dp[k] == c);
        }
        acc = acc * 10 + d;
        i += 1;
    }
    proof {
        assert(dp.take(i - start) =~= dp);
        assert(acc == digits_value(dp));
        assert(all_digits(dp));
        assert(dp.len() > 0);
    }
    if neg {
        if acc <= i64::MAX as u64 {
            Some(-(acc as i64))
        } else if acc == (i64::MAX as u64) + 1 {
            Some(i64::MIN)
        } else {
            None
        }
    } else {
        if acc <= i64::MAX as u64 {
            Some(acc as i64)
        } else {
            None
        }
    }
}

/// The identity with one trailing ".gif" removed, if present.
pub open spec fn stripped_id(s: Seq<char>) -> Seq<char> {
    if s.len() >= 4 && s.skip(s.len() - 4) == ".gif"@ {
        s.take(s.len() - 4)
    } else {
        s
    }
}

/// Strip one trailing ".gif" from a raw identity before parsing.
pub fn strip_gif_suffix<'a>(s: &'a str) -> (r: &'a str)
    ensures
        r@ == stripped_id(s@),
{
    let n = s.unicode_len();
    proof {
        reveal_strlit(".gif");
    }
    if n >= 4 && s.get_char(n - 4) == '.' && s.get_char(n - 3) == 'g' && s.get_char(n - 2) == 'i'
        && s.get_char(n - 1) == 'f' {
        proof {
            assert(s@.skip(n - 4 as int) =~= ".gif"@);
        }
        s.substring_char(0, n - 4)
    } else {
        proof {
            if s@.len() >= 4 && s@.skip(s@.len() - 4) == ".gif"@ {
                assert(s@.skip(s@.len() - 4)[0] == '.');
                assert(s@.skip(s@.len() - 4)[1] == 'g');
                assert(s@.skip(s@.len() - 4)[2] == 'i');
                assert(s@.skip(s@.len() - 4)[3] == 'f');
                assert(false);
            }
        }
        s
    }
}

} // verus!
