use vstd::prelude::*;

use crate::error::ServiceError;

verus! {

/// Whether `c` is an ASCII decimal digit.
pub open spec fn is_digit(c: char) -> bool {
    '0' <= c && c <= '9'
}

/// The value of the decimal digit `c`.
pub open spec fn digit_value(c: char) -> nat {
    (c as int - '0' as int) as nat
}

/// Whether `s` is a non-empty run of decimal digits, with nothing around it.
pub open spec fn is_decimal(s: Seq<char>) -> bool {
    s.len() > 0 && forall|i: int| 0 <= i < s.len() ==> is_digit(#[trigger] s[i])
}

/// The number that the digits of `s` spell in base ten.
pub open spec fn decimal_value(s: Seq<char>) -> nat
    decreases s.len(),
{
    if s.len() == 0 {
        0
    } else {
        decimal_value(s.drop_last()) * 10 + digit_value(s.last())
    }
}

/// The height that the text `s` states, if it is a decimal number that fits
/// in a `u32`.
pub open spec fn raw_height(s: Seq<char>) -> Option<u32> {
    if is_decimal(s) && decimal_value(s) <= u32::MAX {
        Some(decimal_value(s) as u32)
    } else {
        None
    }
}

/// The decimal digits of `n`, most significant first.
pub open spec fn decimal_digits(n: nat) -> Seq<char>
    decreases n,
{
    if n < 10 {
        seq![digit_char(n)]
    } else {
        decimal_digits(n / 10) + seq![digit_char(n % 10)]
    }
}

/// The character of the decimal digit `d`.
pub open spec fn digit_char(d: nat) -> char {
    ('0' as nat + d) as char
}

/// The decimal digits of a number spell that number.
pub proof fn lemma_digits_value(n: nat)
    ensures
        is_decimal(decimal_digits(n)),
        decimal_value(decimal_digits(n)) == n,
    decreases n,
{
    let s = decimal_digits(n);
    if n < 10 {
        assert(s.drop_last() =~= Seq::<char>::empty());
        assert(digit_value(digit_char(n)) == n);
        assert(decimal_value(s.drop_last()) == 0);
        assert(s.last() == digit_char(n));
    } else {
        assert(digit_value(digit_char(n % 10)) == n % 10);
        assert(n == (n / 10) * 10 + n % 10);
        assert(s.last() == digit_char(n % 10));
        lemma_digits_value(n / 10);
        assert(s.drop_last() =~= decimal_digits(n / 10));
        assert forall|i: int| 0 <= i < s.len() implies is_digit(#[trigger] s[i]) by {
            if i < s.len() - 1 {
                assert(s[i] == decimal_digits(n / 10)[i]);
            }
        }
    }
}

/// A body that is the decimal text of a height reads as exactly that height.
pub proof fn lemma_raw_integer_reads_back(n: u32)
    ensures
        raw_height(decimal_digits(n as nat)) == Some(n),
{
    lemma_digits_value(n as nat);
}

/// A body with a character that is not a digit, before, after or among the
/// digits, reads as no height.
pub proof fn lemma_raw_integer_rejects_non_digit(body: Seq<char>, i: int)
    requires
        0 <= i < body.len(),
        !is_digit(body[i]),
    ensures
        raw_height(body) is None,
{
}

/// Longer runs of digits never spell smaller numbers.
proof fn lemma_decimal_value_grows(s: Seq<char>, i: int, j: int)
    requires
        0 <= i <= j <= s.len(),
    ensures
        decimal_value(s.take(i)) <= decimal_value(s.take(j)),
    decreases j - i,
{
    if i < j {
        lemma_decimal_value_grows(s, i, j - 1);
        assert(s.take(j).drop_last() =~= s.take(j - 1));
    }
}

/// Reads a block height from the whole of `text`, which must be a decimal
/// number with no sign, no blanks and nothing else around it.
pub fn parse_height(text: &str) -> (r: Result<u32, ServiceError>)
    ensures
        match raw_height(text@) {
            Some(h) => r == Ok::<u32, ServiceError>(h),
            None => r is Err && r->Err_0 is ParseIntError,
        },
{
    let n = text.unicode_len();
    if n == 0 {
        return Err(ServiceError::ParseIntError);
    }
    let mut value: u64 = 0;
    let mut i: usize = 0;
    while i < n
        invariant
            0 <= i <= n,
            n == text@.len(),
            forall|j: int| 0 <= j < i ==> is_digit(#[trigger] text@[j]),
            value == decimal_value(text@.take(i as int)),
            value <= u32::MAX,
        decreases n - i,
    {
        let c = text.get_char(i);
        if !('0' <= c && c <= '9') {
            assert(!is_digit(text@[i as int]));
            return Err(ServiceError::ParseIntError);
        }
        let digit = (c as u32 - '0' as u32) as u64;
        assert(text@.take(i + 1).drop_last() =~= text@.take(i as int));
        value = value * 10 + digit;
        if value > u32::MAX as u64 {
            proof {
                lemma_decimal_value_grows(text@, i + 1, n as int);
                assert(text@.take(n as int) =~= text@);
            }
            return Err(ServiceError::ParseIntError);
        }
        i = i + 1;
    }
    assert(text@.take(n as int) =~= text@);
    Ok(value as u32)
}

} // verus!
