//! Verification tokens as the transport delivers them: either already a
//! number, or a decimal string that must reduce to one before use.

use vstd::prelude::*;
use vstd::string::StrSliceExecFns;

verus! {

/// A token field that arrives either as a numeric value or as a numeric
/// string.
pub enum NumberOrString {
    Number(u64),
    Text(String),
}

/// Whether `c` is one of the ten decimal digit characters.
pub open spec fn is_decimal_digit(c: char) -> bool {
    48 <= c as int <= 57
}

/// The value of a decimal digit character.
pub open spec fn digit_value(c: char) -> nat
    recommends
        is_decimal_digit(c),
{
    (c as int - 48) as nat
}

/// Whether every character of `s` is a decimal digit.
pub open spec fn all_decimal_digits(s: Seq<char>) -> bool {
    forall|i: int| 0 <= i < s.len() ==> is_decimal_digit(s[i])
}

/// The number that the digit string `s` denotes, most significant digit
/// first.
pub open spec fn decimal_value(s: Seq<char>) -> nat
    recommends
        all_decimal_digits(s),
    decreases s.len(),
{
    if s.len() == 0 {
        0
    } else {
        decimal_value(s.drop_last()) * 10 + digit_value(s.last())
    }
}

/// What parsing a token string yields: the denoted number, provided the
/// string is non-empty, all digits, and the number is representable.
pub open spec fn parse_decimal_spec(s: Seq<char>) -> Option<u64> {
    if s.len() > 0 && all_decimal_digits(s) && decimal_value(s) <= u64::MAX {
        Some(decimal_value(s) as u64)
    } else {
        None
    }
}

/// A longer digit string never denotes a smaller number: the value of a
/// prefix is a lower bound for the value of the whole.
proof fn lemma_decimal_value_prefix_le(s: Seq<char>, i: int, j: int)
    requires
        0 <= i <= j <= s.len(),
    ensures
        decimal_value(s.subrange(0, i)) <= decimal_value(s.subrange(0, j)),
    decreases j - i,
{
    if i < j {
        lemma_decimal_value_prefix_le(s, i, j - 1);
        assert(s.subrange(0, j).drop_last() =~= s.subrange(0, j - 1));
        let prev = decimal_value(s.subrange(0, j - 1));
        assert(decimal_value(s.subrange(0, j)) == prev * 10 + digit_value(s.subrange(0, j).last()));
        assert(prev * 10 >= prev);
    }
}

/// Parses a decimal string. Returns the denoted number exactly when the
/// string is non-empty, consists of digits only, and the number fits the
/// result type.
pub fn parse_decimal(s: &str) -> (r: Option<u64>)
    ensures
        r == parse_decimal_spec(s@),
{
    let n: usize = s.unicode_len();
    if n == 0 {
        return None;
    }
    let mut acc: u64 = 0;
    let mut i: usize = 0;
    while i < n
        invariant
            0 <= i <= n,
            n == s@.len(),
            all_decimal_digits(s@.subrange(0, i as int)),
            acc == decimal_value(s@.subrange(0, i as int)),
        decreases n - i,
    {
        let c = s.get_char(i);
        let cv: u32 = c as u32;
        if cv < 48 || cv > 57 {
            proof {
                assert(!is_decimal_digit(s@[i as int]));
                assert(!all_decimal_digits(s@));
            }
            return None;
        }
        let d: u64 = (cv - 48) as u64;
        proof {
            assert(s@.subrange(0, i + 1).drop_last() =~= s@.subrange(0, i as int));
            assert(s@.subrange(0, i + 1).last() == s@[i as int]);
            assert(decimal_value(s@.subrange(0, i + 1)) == acc * 10 + d);
        }
        if acc > (u64::MAX - d) / 10 {
            proof {
                assert(acc * 10 + d > u64::MAX) by (nonlinear_arith)
                    requires
                        acc > (u64::MAX - d) / 10,
                        0 <= d <= 9,
                {}
                if all_decimal_digits(s@) {
                    lemma_decimal_value_prefix_le(s@, i + 1, n as int);
                    assert(s@.subrange(0, n as int) =~= s@);
                }
            }
            return None;
        }
        proof {
            assert(acc * 10 + d <= u64::MAX) by (nonlinear_arith)
                requires
                    acc <= (u64::MAX - d) / 10,
                    0 <= d <= 9,
            {}
        }
        acc = acc * 10 + d;
        i = i + 1;
    }
    proof {
        assert(s@.subrange(0, n as int) =~= s@);
    }
    Some(acc)
}

impl NumberOrString {
    /// The number this token reduces to, if it is numeric.
    pub open spec fn numeric_value(self) -> Option<u64> {
        match self {
            NumberOrString::Number(n) => Some(n),
            NumberOrString::Text(s) => parse_decimal_spec(s@),
        }
    }

    /// Reduces the token to a number; `None` when the text form is not
    /// numeric.
    pub fn into_number(&self) -> (r: Option<u64>)
        ensures
            r == self.numeric_value(),
    {
        match self {
            NumberOrString::Number(n) => Some(*n),
            NumberOrString::Text(s) => parse_decimal(s.as_str()),
        }
    }
}

} // verus!
