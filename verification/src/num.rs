use crate::error::Error;
use crate::text::str_chars;
use vstd::prelude::*;

verus! {

/// The character is an ASCII decimal digit.
pub open spec fn is_digit(c: char) -> bool {
    48 <= c as u32 <= 57
}

/// Numeric value of one ASCII decimal digit.
pub open spec fn digit_val(c: char) -> nat {
    (c as u32 - 48) as nat
}

/// Every character of the sequence is an ASCII decimal digit.
pub open spec fn all_digits(s: Seq<char>) -> bool {
    forall|i: int| 0 <= i < s.len() ==> is_digit(#[trigger] s[i])
}

/// Value of a digit string read left to right in base 10.
pub open spec fn digits_val(s: Seq<char>) -> nat
    decreases s.len(),
{
    if s.len() == 0 {
        0
    } else {
        digits_val(s.drop_last()) * 10 + digit_val(s.last())
    }
}

/// The string-to-integer coercion for numeric fields transmitted as strings:
/// defined exactly on nonempty runs of ASCII digits whose value fits in an
/// unsigned 64-bit integer.
pub open spec fn spec_parse_u64(s: Seq<char>) -> Option<u64> {
    if s.len() > 0 && all_digits(s) && digits_val(s) <= u64::MAX {
        Some(digits_val(s) as u64)
    } else {
        None
    }
}

/// Appending one character multiplies the value by ten and adds the digit.
proof fn lemma_digits_val_step(s: Seq<char>, i: int)
    requires
        0 <= i < s.len(),
    ensures
        digits_val(s.subrange(0, i + 1)) == digits_val(s.subrange(0, i)) * 10 + digit_val(s[i]),
{
    assert(s.subrange(0, i + 1).drop_last() =~= s.subrange(0, i));
    assert(s.subrange(0, i + 1).last() == s[i]);
}

/// The value of a digit string never falls below the value of any prefix.
proof fn lemma_digits_val_prefix_le(s: Seq<char>, i: int)
    requires
        0 <= i <= s.len(),
    ensures
        digits_val(s.subrange(0, i)) <= digits_val(s),
    decreases s.len() - i,
{
    if i == s.len() {
        assert(s.subrange(0, i) =~= s);
    } else {
        lemma_digits_val_step(s, i);
        lemma_digits_val_prefix_le(s, i + 1);
    }
}

/// Parses the base-10 value of a character range; returns `None` exactly when
/// the range is empty, holds a non-digit, or encodes a value over 64 bits.
pub fn parse_u64_range(v: &Vec<char>, from: usize, to: usize) -> (r: Option<u64>)
    requires
        from <= to <= v@.len(),
    ensures
        r == spec_parse_u64(v@.subrange(from as int, to as int)),
{
    let ghost w = v@.subrange(from as int, to as int);
    if from == to {
        return None;
    }
    let mut acc: u64 = 0;
    let mut i: usize = from;
    while i < to
        invariant
            from <= i <= to <= v@.len(),
            w == v@.subrange(from as int, to as int),
            from < to,
            all_digits(w.subrange(0, i - from)),
            acc == digits_val(w.subrange(0, i - from)),
        decreases to - i,
    {
        let c = v[i];
        let u = c as u32;
        if u < 48 || u > 57 {
            proof {
                assert(w[i - from] == v@[i as int]);
                assert(!is_digit(w[i - from]));
            }
            return None;
        }
        let d = (u - 48) as u64;
        proof {
            lemma_digits_val_step(w, i - from);
            assert(w[i - from] == v@[i as int]);
        }
        if acc > 1844674407370955161 || (acc == 1844674407370955161 && d > 5) {
            proof {
                assert(digits_val(w.subrange(0, i - from + 1)) > u64::MAX);
                lemma_digits_val_prefix_le(w, i - from + 1);
            }
            return None;
        }
        acc = acc * 10 + d;
        i = i + 1;
    }
    proof {
        assert(w.subrange(0, to - from) =~= w);
    }
    Some(acc)
}

/// Parses a string as a base-10 unsigned 64-bit integer.
///
/// Fails with `Error::InvalidNumericString` on the empty string, on any
/// non-digit character, and on values exceeding the 64-bit range; it never
/// silently substitutes zero.
pub fn parse_u64(s: &str) -> (r: Result<u64, Error>)
    ensures
        match r {
            Ok(n) => spec_parse_u64(s@) == Some(n),
            Err(e) => spec_parse_u64(s@) is None && e == Error::InvalidNumericString,
        },
{
    let v = str_chars(s);
    let n = v.len();
    proof {
        assert(v@.subrange(0, n as int) =~= s@);
    }
    match parse_u64_range(&v, 0, n) {
        Some(x) => Ok(x),
        None => Err(Error::InvalidNumericString),
    }
}

} // verus!
