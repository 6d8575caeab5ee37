//! Decimal integer fields of an item token: what a field must look like to
//! parse, which value it denotes, and executable parsers proved against that.

use vstd::prelude::*;

verus! {

/// An ASCII decimal digit.
pub open spec fn is_dec_digit(b: u8) -> bool {
    48 <= b && b <= 57
}

pub open spec fn all_dec_digits(s: Seq<u8>) -> bool {
    forall|i: int| 0 <= i < s.len() ==> is_dec_digit(#[trigger] s[i])
}

/// The value of a sequence of decimal digits, most significant first.
pub open spec fn digits_value(s: Seq<u8>) -> int
    decreases s.len(),
{
    if s.len() == 0 {
        0
    } else {
        digits_value(s.drop_last()) * 10 + (s.last() - 48)
    }
}

/// The digits of a field, after an optional leading sign.
pub open spec fn num_body(s: Seq<u8>) -> Seq<u8> {
    if s.len() > 0 && (s[0] == 43 || s[0] == 45) {
        s.skip(1)
    } else {
        s
    }
}

/// Whether the field carries a leading minus sign.
pub open spec fn num_negative(s: Seq<u8>) -> bool {
    s.len() > 0 && s[0] == 45
}

/// A well-formed decimal field: an optional sign, then one or more digits.
pub open spec fn wellformed_int(s: Seq<u8>) -> bool {
    num_body(s).len() > 0 && all_dec_digits(num_body(s))
}

/// The signed value a well-formed field denotes.
pub open spec fn int_value(s: Seq<u8>) -> int {
    if num_negative(s) {
        -digits_value(num_body(s))
    } else {
        digits_value(num_body(s))
    }
}

/// What parsing a field as a 32-bit signed integer yields: a value exactly
/// when the field is well formed and the value fits.
pub open spec fn spec_parse_i32(s: Seq<u8>) -> Option<i32> {
    if wellformed_int(s) && i32::MIN <= int_value(s) && int_value(s) <= i32::MAX {
        Some(int_value(s) as i32)
    } else {
        None
    }
}

/// What parsing a field as an unsigned byte yields: no sign other than an
/// optional plus, and a value of at most 255.
pub open spec fn spec_parse_u8(s: Seq<u8>) -> Option<u8> {
    if wellformed_int(s) && !num_negative(s) && int_value(s) <= u8::MAX {
        Some(int_value(s) as u8)
    } else {
        None
    }
}

pub proof fn lemma_digits_value_nonneg(s: Seq<u8>)
    requires
        all_dec_digits(s),
    ensures
        digits_value(s) >= 0,
    decreases s.len(),
{
    if s.len() > 0 {
        assert(all_dec_digits(s.drop_last()));
        lemma_digits_value_nonneg(s.drop_last());
    }
}

/// A run of digits is worth at least any of its prefixes: appending digits
/// never lowers the value.
pub proof fn lemma_digits_value_prefix(s: Seq<u8>, k: int)
    requires
        all_dec_digits(s),
        0 <= k <= s.len(),
    ensures
        digits_value(s) >= digits_value(s.subrange(0, k)),
    decreases s.len() - k,
{
    if k == s.len() {
        assert(s.subrange(0, k) =~= s);
    } else {
        lemma_digits_value_prefix(s, k + 1);
        let p = s.subrange(0, k + 1);
        assert(p.drop_last() =~= s.subrange(0, k));
        assert(p.last() == s[k]);
        lemma_digits_value_nonneg(s.subrange(0, k));
        assert(digits_value(p) == digits_value(s.subrange(0, k)) * 10 + (s[k] - 48));
    }
}

/// Parses a decimal field as `i32`, exactly as `spec_parse_i32` says.
pub fn parse_i32_bytes(s: &[u8]) -> (r: Option<i32>)
    ensures
        r == spec_parse_i32(s@),
{
    let n = s.len();
    let has_sign = n > 0 && (s[0] == 43 || s[0] == 45);
    let neg = n > 0 && s[0] == 45;
    let start: usize = if has_sign { 1 } else { 0 };
    if start >= n {
        assert(num_body(s@).len() == 0);
        return None;
    }
    assert(num_body(s@) =~= s@.subrange(start as int, n as int));
    let mut acc: u64 = 0;
    let mut i: usize = start;
    while i < n
        invariant
            start <= i <= n,
            n == s@.len(),
            start == if num_negative(s@) || (n > 0 && s@[0] == 43) { 1int } else { 0int },
            num_body(s@) =~= s@.subrange(start as int, n as int),
            all_dec_digits(s@.subrange(start as int, i as int)),
            acc == digits_value(s@.subrange(start as int, i as int)),
            acc <= 2147483648u64,
        decreases n - i,
    {
        let b = s[i];
        if b < 48 || b > 57 {
            assert(!all_dec_digits(num_body(s@))) by {
                assert(num_body(s@)[i - start] == s@[i as int]);
            }
            return None;
        }
        proof {
            let p = s@.subrange(start as int, i as int);
            let q = s@.subrange(start as int, i + 1int);
            assert(q.drop_last() =~= p);
            assert(q.last() == s@[i as int]);
            assert(all_dec_digits(q));
        }
        acc = acc * 10 + ((b - 48) as u64);
        i = i + 1;
        if acc > 2147483648u64 {
            proof {
                if wellformed_int(s@) {
                    lemma_digits_value_prefix(num_body(s@), i - start);
                    assert(num_body(s@).subrange(0, i - start) =~= s@.subrange(
                        start as int,
                        i as int,
                    ));
                    lemma_digits_value_nonneg(num_body(s@));
                }
            }
            return None;
        }
    }
    assert(s@.subrange(start as int, n as int) =~= num_body(s@));
    assert(wellformed_int(s@));
    assert(acc == digits_value(num_body(s@)));
    if neg {
        let v: i64 = -(acc as i64);
        assert(v == int_value(s@));
        Some(v as i32)
    } else {
        if acc > 2147483647u64 {
            None
        } else {
            Some(acc as i32)
        }
    }
}

/// Parses a decimal field as `u8`, exactly as `spec_parse_u8` says.
pub fn parse_u8_bytes(s: &[u8]) -> (r: Option<u8>)
    ensures
        r == spec_parse_u8(s@),
{
    let n = s.len();
    if n > 0 && s[0] == 45 {
        return None;
    }
    let has_sign = n > 0 && s[0] == 43;
    let start: usize = if has_sign { 1 } else { 0 };
    if start >= n {
        assert(num_body(s@).len() == 0);
        return None;
    }
    assert(num_body(s@) =~= s@.subrange(start as int, n as int));
    let mut acc: u32 = 0;
    let mut i: usize = start;
    while i < n
        invariant
            start <= i <= n,
            n == s@.len(),
            !num_negative(s@),
            start == if n > 0 && s@[0] == 43 { 1int } else { 0int },
            num_body(s@) =~= s@.subrange(start as int, n as int),
            all_dec_digits(s@.subrange(start as int, i as int)),
            acc == digits_value(s@.subrange(start as int, i as int)),
            acc <= 255u32,
        decreases n - i,
    {
        let b = s[i];
        if b < 48 || b > 57 {
            assert(!all_dec_digits(num_body(s@))) by {
                assert(num_body(s@)[i - start] == s@[i as int]);
            }
            return None;
        }
        proof {
            let p = s@.subrange(start as int, i as int);
            let q = s@.subrange(start as int, i + 1int);
            assert(q.drop_last() =~= p);
            assert(q.last() == s@[i as int]);
            assert(all_dec_digits(q));
        }
        acc = acc * 10 + ((b - 48) as u32);
        i = i + 1;
        if acc > 255u32 {
            proof {
                if wellformed_int(s@) {
                    lemma_digits_value_prefix(num_body(s@), i - start);
                    assert(num_body(s@).subrange(0, i - start) =~= s@.subrange(
                        start as int,
                        i as int,
                    ));
                    lemma_digits_value_nonneg(num_body(s@));
                }
            }
            return None;
        }
    }
    assert(s@.subrange(start as int, n as int) =~= num_body(s@));
    assert(wellformed_int(s@));
    assert(acc == digits_value(num_body(s@)));
    Some(acc as u8)
}

} // verus!
