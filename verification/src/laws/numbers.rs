//! How a text becomes a number.
//!
//! Every text is empty, a single character, or a shorter text with one more
//! character behind it, so what holds of these three settles every text.

use crate::decimal::{
    all_digits, decimal_value, is_digit, overflows, parsed_u64, unsigned_part, DecimalError,
};
use vstd::prelude::*;

verus! {

/// No text is no number.
pub proof fn law_no_text_is_no_number(text: Seq<char>)
    requires
        text.len() == 0,
    ensures
        parsed_u64(text) == Err::<u64, DecimalError>(DecimalError::Empty),
{
}

/// A digit alone stands for itself, and any other character alone, a sign too,
/// is no number.
pub proof fn law_single_character(c: char)
    ensures
        '0' <= c <= '9' ==> (parsed_u64(seq![c]) matches Ok(n) && n == c as int - '0' as int),
        !('0' <= c <= '9') ==> parsed_u64(seq![c]) == Err::<u64, DecimalError>(
            DecimalError::InvalidDigit,
        ),
{
    let text = seq![c];
    let digits = unsigned_part(text);
    reveal_with_fuel(decimal_value, 3);
    assert forall|n: int| 0 <= n <= digits.len() && all_digits(#[trigger] digits.take(n)) implies
        decimal_value(digits.take(n)) <= 9 by {
        if n == 1 {
            assert(is_digit(digits.take(n)[0]));
            assert(digits.take(n) =~= seq![c]);
            assert(seq![c].drop_last() =~= Seq::<char>::empty());
        }
    }
    assert(!overflows(digits));
    if is_digit(c) {
        assert(digits == text);
        assert(text.drop_last() =~= Seq::<char>::empty());
    } else if c != '+' {
        assert(!is_digit(digits[0]));
    }
}

/// What is behind the sign of a longer text, if it has one.
proof fn lemma_longer(text: Seq<char>, rest: Seq<char>)
    requires
        text.len() > 0,
    ensures
        unsigned_part(text + rest) == unsigned_part(text) + rest,
{
    assert(unsigned_part(text + rest) =~= unsigned_part(text) + rest);
}

/// A row of digits that starts a longer text is too large for it too.
proof fn lemma_overflow_stays(digits: Seq<char>, rest: Seq<char>)
    requires
        overflows(digits),
    ensures
        overflows(digits + rest),
{
    let n = choose|n: int|
        0 <= n <= digits.len() && all_digits(#[trigger] digits.take(n)) && decimal_value(
            digits.take(n),
        ) > u64::MAX;
    assert((digits + rest).take(n) =~= digits.take(n));
}

/// A text is not too large unless its start is, or what is added makes it so.
proof fn lemma_no_overflow(digits: Seq<char>, rest: Seq<char>)
    requires
        !overflows(digits),
        forall|n: int|
            digits.len() < n <= digits.len() + rest.len() ==> !all_digits(
                #[trigger] (digits + rest).take(n),
            ) || decimal_value((digits + rest).take(n)) <= u64::MAX,
    ensures
        !overflows(digits + rest),
{
    assert forall|n: int|
        0 <= n <= (digits + rest).len() && all_digits(#[trigger] (digits + rest).take(n)) implies
        decimal_value((digits + rest).take(n)) <= u64::MAX by {
        if n <= digits.len() {
            assert((digits + rest).take(n) =~= digits.take(n));
        }
    }
}

/// One more digit makes the number ten times as large and adds itself. What
/// 64 bits cannot hold is too large.
pub proof fn law_one_more_digit(text: Seq<char>, number: u64, c: char)
    requires
        parsed_u64(text) == Ok::<u64, DecimalError>(number),
        '0' <= c <= '9',
    ensures
        ({
            let longer = number * 10 + (c as int - '0' as int);
            parsed_u64(text.push(c)) == (if longer <= u64::MAX {
                Ok::<u64, DecimalError>(longer as u64)
            } else {
                Err::<u64, DecimalError>(DecimalError::TooLarge)
            })
        }),
{
    let digits = unsigned_part(text);
    let longer = digits.push(c);
    lemma_longer(text, seq![c]);
    assert(text.push(c) =~= text + seq![c]);
    assert(longer =~= digits + seq![c]);
    assert(longer.drop_last() =~= digits);
    assert(digits.take(digits.len() as int) =~= digits);
    assert(longer.take(longer.len() as int) =~= longer);
    assert forall|i: int| 0 <= i < longer.len() implies is_digit(#[trigger] longer[i]) by {
        if i < digits.len() {
            assert(longer[i] == digits[i]);
        }
    }
    assert(decimal_value(longer) == number * 10 + (c as int - '0' as int));
    if decimal_value(longer) <= u64::MAX {
        lemma_no_overflow(digits, seq![c]);
    }
}

/// Something else than a digit behind a number makes it none.
pub proof fn law_one_more_character(text: Seq<char>, number: u64, c: char)
    requires
        parsed_u64(text) == Ok::<u64, DecimalError>(number),
        !('0' <= c <= '9'),
    ensures
        parsed_u64(text.push(c)) == Err::<u64, DecimalError>(DecimalError::InvalidDigit),
{
    let digits = unsigned_part(text);
    let longer = digits.push(c);
    lemma_longer(text, seq![c]);
    assert(text.push(c) =~= text + seq![c]);
    assert(longer =~= digits + seq![c]);
    assert(!is_digit(longer[digits.len() as int]));
    assert(longer.take(longer.len() as int) =~= longer);
    lemma_no_overflow(digits, seq![c]);
}

/// The first thing wrong with a text is what is wrong with every longer one. A
/// text that is empty, or a sign that has nothing behind it yet, can still
/// become a number.
pub proof fn law_first_error_stays(text: Seq<char>, rest: Seq<char>)
    requires
        parsed_u64(text) is Err,
        text.len() > 0,
        text != seq!['+'],
    ensures
        parsed_u64(text + rest) == parsed_u64(text),
{
    let digits = unsigned_part(text);
    lemma_longer(text, rest);
    if overflows(digits) {
        lemma_overflow_stays(digits, rest);
    } else {
        if digits.len() == 0 {
            assert(text =~= seq!['+']);
        }
        let i = choose|i: int| 0 <= i < digits.len() && !is_digit(#[trigger] digits[i]);
        assert(!is_digit((digits + rest)[i]));
        assert forall|n: int| digits.len() < n <= digits.len() + rest.len() implies !all_digits(
            #[trigger] (digits + rest).take(n),
        ) by {
            assert(!is_digit((digits + rest).take(n)[i]));
        }
        lemma_no_overflow(digits, rest);
    }
}

/// A plus sign in front changes nothing, but a second one is no digit.
pub proof fn law_plus_sign(text: Seq<char>)
    requires
        text.len() > 0,
    ensures
        text[0] != '+' ==> parsed_u64(seq!['+'] + text) == parsed_u64(text),
        text[0] == '+' ==> parsed_u64(seq!['+'] + text) == Err::<u64, DecimalError>(
            DecimalError::InvalidDigit,
        ),
{
    let signed = seq!['+'] + text;
    assert(unsigned_part(signed) =~= text);
    if text[0] == '+' {
        assert(!is_digit(text[0]));
        assert forall|n: int| 0 <= n <= text.len() && all_digits(#[trigger] text.take(n)) implies
            decimal_value(text.take(n)) == 0 by {
            if n > 0 {
                assert(!is_digit(text.take(n)[0]));
            }
        }
    }
}

} // verus!
