//! Unsigned decimal numbers in text.

use vstd::prelude::*;
use vstd::string::StrSliceExecFns;

verus! {

/// Whether `c` is one of the ten ASCII digits.
pub open spec fn is_digit(c: char) -> bool {
    '0' <= c <= '9'
}

/// The number that one digit stands for.
pub open spec fn digit(c: char) -> nat {
    (c as int - '0' as int) as nat
}

/// Whether `text` holds digits only. The empty text does.
pub open spec fn all_digits(text: Seq<char>) -> bool {
    forall|i: int| 0 <= i < text.len() ==> is_digit(#[trigger] text[i])
}

/// The number that a row of digits spells in base ten.
pub open spec fn decimal_value(digits: Seq<char>) -> nat
    decreases digits.len(),
{
    if digits.len() == 0 {
        0
    } else {
        decimal_value(digits.drop_last()) * 10 + digit(digits.last())
    }
}

/// Why a text is not an unsigned 64-bit number.
#[derive(Clone, Copy, Debug, PartialEq, Eq, Structural)]
pub enum DecimalError {
    /// There is no text.
    Empty,
    /// A character other than a digit, or a sign with nothing behind it.
    InvalidDigit,
    /// The digits spell a number above the largest 64-bit one.
    TooLarge,
}

impl DecimalError {
    /// The sentence that reports the error.
    pub open spec fn spec_message(self) -> Seq<char> {
        match self {
            DecimalError::Empty => "cannot parse integer from empty string"@,
            DecimalError::InvalidDigit => "invalid digit found in string"@,
            DecimalError::TooLarge => "number too large to fit in target type"@,
        }
    }

    /// The sentence that reports the error.
    pub fn message(&self) -> (text: String)
        ensures
            text@ == self.spec_message(),
    {
        match self {
            DecimalError::Empty => "cannot parse integer from empty string".to_owned(),
            DecimalError::InvalidDigit => "invalid digit found in string".to_owned(),
            DecimalError::TooLarge => "number too large to fit in target type".to_owned(),
        }
    }
}

/// The digits of `text`: what is left of it behind an optional plus sign.
pub open spec fn unsigned_part(text: Seq<char>) -> Seq<char> {
    if text.len() > 0 && text[0] == '+' {
        text.skip(1)
    } else {
        text
    }
}

/// Whether `text` starts with digits that already spell more than 64 bits hold.
pub open spec fn overflows(text: Seq<char>) -> bool {
    exists|n: int|
        0 <= n <= text.len() && all_digits(#[trigger] text.take(n)) && decimal_value(
            text.take(n),
        ) > u64::MAX
}

/// What [`parse_u64`] makes of `text`.
pub open spec fn parsed_u64(text: Seq<char>) -> Result<u64, DecimalError> {
    let digits = unsigned_part(text);
    if text.len() == 0 {
        Err(DecimalError::Empty)
    } else if overflows(digits) {
        Err(DecimalError::TooLarge)
    } else if digits.len() == 0 || !all_digits(digits) {
        Err(DecimalError::InvalidDigit)
    } else {
        Ok(decimal_value(digits) as u64)
    }
}

/// A longer row of digits never spells a smaller number.
proof fn lemma_value_grows(digits: Seq<char>, n: int)
    requires
        0 <= n <= digits.len(),
        all_digits(digits),
    ensures
        decimal_value(digits.take(n)) <= decimal_value(digits),
    decreases digits.len() - n,
{
    if n == digits.len() {
        assert(digits.take(n) =~= digits);
    } else {
        lemma_value_grows(digits, n + 1);
        assert(digits.take(n + 1).drop_last() =~= digits.take(n));
        assert(is_digit(digits[n]));
    }
}

/// Reads an unsigned 64-bit number: an optional plus sign, then digits only.
///
/// The text is read from left to right, and the first thing wrong with it is
/// the error: digits that have already grown too large are reported even where
/// something else follows them.
pub fn parse_u64(text: &str) -> (result: Result<u64, DecimalError>)
    ensures
        result == parsed_u64(text@),
{
    let length: usize = text.unicode_len();
    if length == 0 {
        return Err(DecimalError::Empty);
    }
    let start: usize = if text.get_char(0) == '+' {
        1
    } else {
        0
    };
    let ghost digits = unsigned_part(text@);
    assert(digits =~= text@.skip(start as int));
    if start == length {
        assert(digits.len() == 0);
        assert(!overflows(digits)) by {
            assert forall|n: int| 0 <= n <= digits.len() implies decimal_value(#[trigger] digits.take(n))
                == 0 by {}
        }
        return Err(DecimalError::InvalidDigit);
    }
    let mut index: usize = start;
    let mut total: u64 = 0;
    assert(digits.take(0) =~= Seq::<char>::empty());
    while index < length
        invariant
            start <= index <= length,
            start <= 1,
            length == text@.len(),
            digits == text@.skip(start as int),
            digits.len() == length - start,
            all_digits(digits.take(index - start)),
            total == decimal_value(digits.take(index - start)),
            digits == unsigned_part(text@),
            length > start,
        decreases length - index,
    {
        let c: char = text.get_char(index);
        let ghost seen = index - start;
        assert(c == digits[seen]);
        if c < '0' || c > '9' {
            proof {
                assert(!is_digit(digits[seen]));
                assert(!all_digits(digits));
                assert forall|n: int| 0 <= n <= digits.len() && all_digits(#[trigger] digits.take(n))
                    implies decimal_value(digits.take(n)) <= u64::MAX by {
                    if n > seen {
                        assert(digits.take(n)[seen] == digits[seen]);
                    }
                    assert(digits.take(seen).take(n) =~= digits.take(n));
                    lemma_value_grows(digits.take(seen), n);
                }
            }
            return Err(DecimalError::InvalidDigit);
        }
        let addend: u64 = (c as u32 - '0' as u32) as u64;
        proof {
            assert(digits.take(seen + 1).drop_last() =~= digits.take(seen));
            assert(digits.take(seen + 1).last() == c);
            assert forall|i: int| 0 <= i < seen + 1 implies is_digit(
                #[trigger] digits.take(seen + 1)[i],
            ) by {
                if i < seen {
                    assert(digits.take(seen)[i] == digits[i]);
                }
            }
            assert(decimal_value(digits.take(seen + 1)) == total * 10 + addend);
        }
        if total > (u64::MAX - addend) / 10 {
            proof {
                assert(total * 10 + addend > u64::MAX);
                assert(all_digits(digits.take(seen + 1)));
                assert(overflows(digits));
            }
            return Err(DecimalError::TooLarge);
        }
        total = total * 10 + addend;
        index = index + 1;
    }
    proof {
        assert(digits.take(digits.len() as int) =~= digits);
        assert forall|n: int| 0 <= n <= digits.len() implies decimal_value(#[trigger] digits.take(n))
            <= u64::MAX by {
            lemma_value_grows(digits, n);
        }
    }
    Ok(total)
}

} // verus!
