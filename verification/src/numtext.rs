//! Decimal integer texts.
//!
//! Numeric fields of the remote API arrive either as JSON numbers or as
//! strings holding a number. Both are carried through the codec as their
//! decimal text; these parsers turn such a text back into an integer, with
//! an exact statement of which texts are accepted.

use vstd::prelude::*;
use vstd::string::StrSliceExecFns;

verus! {

/// `c` is one of the ten decimal digit characters.
pub open spec fn is_digit_char(c: char) -> bool {
    48 <= c as u32 <= 57
}

/// The numeric value of a digit character.
pub open spec fn digit_val(c: char) -> int {
    c as u32 - 48
}

/// Every character of `t` is a decimal digit.
pub open spec fn all_digits(t: Seq<char>) -> bool {
    forall|i: int| 0 <= i < t.len() ==> is_digit_char(#[trigger] t[i])
}

/// The value of a run of digit characters read in base ten.
pub open spec fn digits_val(t: Seq<char>) -> int
    decreases t.len(),
{
    if t.len() == 0 {
        0
    } else {
        digits_val(t.drop_last()) * 10 + digit_val(t.last())
    }
}

/// A run of digits never has a negative value.
pub proof fn lemma_digits_val_nonneg(t: Seq<char>)
    requires
        all_digits(t),
    ensures
        digits_val(t) >= 0,
    decreases t.len(),
{
    if t.len() > 0 {
        assert(all_digits(t.drop_last()));
        lemma_digits_val_nonneg(t.drop_last());
    }
}

/// Extending a run of digits by one digit multiplies its value by ten and
/// adds the new digit.
proof fn lemma_digits_val_step(t: Seq<char>, i: int)
    requires
        0 <= i < t.len(),
    ensures
        digits_val(t.take(i + 1)) == digits_val(t.take(i)) * 10 + digit_val(t[i]),
{
    assert(t.take(i + 1).drop_last() =~= t.take(i));
    assert(t.take(i + 1).last() == t[i]);
}

/// The value of a prefix of a run of digits never exceeds the whole run's.
proof fn lemma_digits_val_prefix_le(t: Seq<char>, i: int)
    requires
        all_digits(t),
        0 <= i <= t.len(),
    ensures
        digits_val(t.take(i)) <= digits_val(t),
    decreases t.len() - i,
{
    if i < t.len() {
        lemma_digits_val_step(t, i);
        assert(all_digits(t.take(i))) by {
            assert(forall|j: int| 0 <= j < i ==> is_digit_char(#[trigger] t.take(i)[j]));
        }
        lemma_digits_val_nonneg(t.take(i));
        lemma_digits_val_prefix_le(t, i + 1);
    } else {
        assert(t.take(i) =~= t);
    }
}

/// Parses a non-empty all-digit text as a `u64`, exactly when its value fits.
pub fn parse_u64_digits(s: &str) -> (r: Option<u64>)
    ensures
        r is Some <==> s@.len() >= 1 && all_digits(s@) && digits_val(s@) <= u64::MAX,
        r matches Some(n) ==> n == digits_val(s@),
{
    let len = s.unicode_len();
    if len == 0 {
        return None;
    }
    let mut i: usize = 0;
    let mut acc: u128 = 0;
    while i < len
        invariant
            0 <= i <= len,
            len == s@.len(),
            all_digits(s@.take(i as int)),
            acc == digits_val(s@.take(i as int)),
            acc <= u64::MAX,
        decreases len - i,
    {
        let c = s.get_char(i);
        let u = c as u32;
        if u < 48 || u > 57 {
            assert(!all_digits(s@)) by {
                assert(!is_digit_char(s@[i as int]));
            }
            return None;
        }
        proof {
            lemma_digits_val_step(s@, i as int);
        }
        let next: u128 = acc * 10 + (u - 48) as u128;
        if next > u64::MAX as u128 {
            proof {
                if all_digits(s@) {
                    lemma_digits_val_prefix_le(s@, i as int + 1);
                }
            }
            return None;
        }
        acc = next;
        i = i + 1;
    }
    proof {
        assert(s@.take(len as int) =~= s@);
    }
    Some(acc as u64)
}

/// Parses the decimal text of a `u8`, exactly when its value fits.
pub fn parse_u8_digits(s: &str) -> (r: Option<u8>)
    ensures
        r is Some <==> s@.len() >= 1 && all_digits(s@) && digits_val(s@) <= u8::MAX,
        r matches Some(n) ==> n == digits_val(s@),
{
    match parse_u64_digits(s) {
        None => None,
        Some(n) => {
            if n <= u8::MAX as u64 {
                Some(n as u8)
            } else {
                None
            }
        },
    }
}

/// The `i32` value an optionally `-`-signed decimal text denotes, if any.
pub open spec fn i32_of_text(t: Seq<char>) -> Option<int> {
    if t.len() >= 1 && all_digits(t) && digits_val(t) <= i32::MAX {
        Some(digits_val(t))
    } else if t.len() >= 2 && t[0] == '-' && all_digits(t.skip(1)) && -digits_val(t.skip(1))
        >= i32::MIN {
        Some(-digits_val(t.skip(1)))
    } else {
        None
    }
}

/// Parses an optionally `-`-signed decimal text as an `i32`, exactly when
/// its value fits.
pub fn parse_i32_text(s: &str) -> (r: Option<i32>)
    ensures
        r is Some <==> i32_of_text(s@) is Some,
        r matches Some(n) ==> i32_of_text(s@) == Some(n as int),
{
    let len = s.unicode_len();
    if len == 0 {
        return None;
    }
    let c0 = s.get_char(0);
    if c0 == '-' {
        let rest = s.substring_char(1, len);
        assert(rest@ =~= s@.skip(1));
        match parse_u64_digits(rest) {
            None => {
                proof {
                    if s@.len() >= 2 && all_digits(s@.skip(1)) && -digits_val(s@.skip(1))
                        >= i32::MIN {
                        lemma_digits_val_nonneg(s@.skip(1));
                    }
                    assert(!all_digits(s@)) by {
                        assert(!is_digit_char(s@[0]));
                    }
                }
                None
            },
            Some(n) => {
                assert(!all_digits(s@)) by {
                    assert(!is_digit_char(s@[0]));
                }
                if n <= (i32::MAX as u64) + 1 {
                    Some((0 - n as i64) as i32)
                } else {
                    None
                }
            },
        }
    } else {
        match parse_u64_digits(s) {
            None => None,
            Some(n) => {
                if n <= i32::MAX as u64 {
                    assert(s@[0] != '-') by {
                        assert(is_digit_char(s@[0]));
                    }
                    Some(n as i32)
                } else {
                    None
                }
            },
        }
    }
}

} // verus!
