//! Textual-to-integer conversion: a captured piece of text is read as a
//! signed decimal integer. The accepted form is an optional leading `-`
//! followed by one or more ASCII digits, with the value in `i64` range.
use vstd::prelude::*;
use vstd::string::StrSliceExecFns;

verus! {

pub open spec fn is_decimal_digit(c: char) -> bool {
    '0' <= c && c <= '9'
}

pub open spec fn digit_value(c: char) -> int {
    c as int - '0' as int
}

pub open spec fn all_digits(s: Seq<char>) -> bool {
    forall|i: int| 0 <= i < s.len() ==> is_decimal_digit(#[trigger] s[i])
}

/// The integer a digit string denotes, most significant digit first.
pub open spec fn digits_value(s: Seq<char>) -> int
    decreases s.len(),
{
    if s.len() == 0 {
        0
    } else {
        10 * digits_value(s.drop_last()) + digit_value(s.last())
    }
}

/// The value `s` denotes as a signed decimal integer, or `None` when `s` is
/// not an optional `-` followed by one or more digits, or the value falls
/// outside `i64` range.
pub open spec fn parse_i64_spec(s: Seq<char>) -> Option<i64> {
    if s.len() > 0 && s[0] == '-' {
        let mag = s.skip(1);
        if mag.len() > 0 && all_digits(mag) && digits_value(mag) <= 9223372036854775808 {
            Some((-digits_value(mag)) as i64)
        } else {
            None
        }
    } else if s.len() > 0 && all_digits(s) && digits_value(s) <= 9223372036854775807 {
        Some(digits_value(s) as i64)
    } else {
        None
    }
}

pub proof fn lemma_digits_nonneg(s: Seq<char>)
    requires
        all_digits(s),
    ensures
        digits_value(s) >= 0,
    decreases s.len(),
{
    if s.len() > 0 {
        assert(all_digits(s.drop_last())) by {
            assert(forall|i: int|
                0 <= i < s.len() - 1 ==> is_decimal_digit(#[trigger] s.drop_last()[i]));
        }
        lemma_digits_nonneg(s.drop_last());
    }
}

/// A digit string is worth at least any of its prefixes, and at least ten
/// times a proper prefix.
pub proof fn lemma_digits_prefix(s: Seq<char>, k: int)
    requires
        all_digits(s),
        0 <= k <= s.len(),
    ensures
        digits_value(s.take(k)) >= 0,
        digits_value(s) >= digits_value(s.take(k)),
        k < s.len() ==> digits_value(s) >= 10 * digits_value(s.take(k)),
    decreases s.len(),
{
    assert(all_digits(s.take(k))) by {
        assert(forall|i: int| 0 <= i < k ==> is_decimal_digit(#[trigger] s.take(k)[i]));
    }
    lemma_digits_nonneg(s.take(k));
    if k == s.len() {
        assert(s.take(k) =~= s);
    } else {
        assert(all_digits(s.drop_last())) by {
            assert(forall|i: int|
                0 <= i < s.len() - 1 ==> is_decimal_digit(#[trigger] s.drop_last()[i]));
        }
        lemma_digits_prefix(s.drop_last(), k);
        assert(s.drop_last().take(k) =~= s.take(k));
        assert(is_decimal_digit(s.last()));
    }
}

/// Reads `s` as a signed decimal integer, exactly as `parse_i64_spec` says.
pub fn parse_i64(s: &str) -> (r: Option<i64>)
    ensures
        r == parse_i64_spec(s@),
{
    let len = s.unicode_len();
    if len == 0 {
        return None;
    }
    let neg = s.get_char(0) == '-';
    let start: usize = if neg {
        1
    } else {
        0
    };
    if start >= len {
        return None;
    }
    let ghost mag: Seq<char> = s@.skip(start as int);
    proof {
        if !neg {
            assert(mag =~= s@);
        }
    }
    let mut m: u64 = 0;
    let mut i: usize = start;
    assert(mag.take(0) =~= Seq::<char>::empty());
    while i < len
        invariant
            start <= i <= len,
            len == s@.len(),
            start == if neg {
                1int
            } else {
                0int
            },
            start < len,
            neg ==> s@[0] == '-',
            !neg ==> !(s@.len() > 0 && s@[0] == '-'),
            mag == s@.skip(start as int),
            !neg ==> mag == s@,
            all_digits(mag.take(i - start)),
            m == digits_value(mag.take(i - start)),
            m <= 9223372036854775808,
        decreases len - i,
    {
        let c = s.get_char(i);
        assert(c == mag[i - start]);
        if !('0' <= c && c <= '9') {
            assert(!all_digits(mag));
            return None;
        }
        let d: u64 = (c as u32 - '0' as u32) as u64;
        assert(d == digit_value(c));
        if m >= 922337203685477581 {
            proof {
                if all_digits(mag) {
                    lemma_digits_prefix(mag, i - start);
                    assert(digits_value(mag) > 9223372036854775808);
                }
            }
            return None;
        }
        m = m * 10 + d;
        proof {
            assert(mag.take(i - start + 1).drop_last() =~= mag.take(i - start));
            assert(mag.take(i - start + 1).last() == mag[i - start]);
        }
        if m > 9223372036854775808 {
            proof {
                if all_digits(mag) {
                    lemma_digits_prefix(mag, i - start + 1);
                    assert(digits_value(mag) >= digits_value(mag.take(i - start + 1)));
                }
            }
            return None;
        }
        i = i + 1;
    }
    proof {
        assert(mag.take(len - start) =~= mag);
    }
    if neg {
        if m == 9223372036854775808 {
            Some(i64::MIN)
        } else {
            Some(-(m as i64))
        }
    } else {
        if m <= 9223372036854775807 {
            Some(m as i64)
        } else {
            None
        }
    }
}

} // verus!
