//! Decimal numerals, written into strings.

use vstd::prelude::*;
use vstd::string::*;

verus! {

/// The character of a decimal digit.
pub open spec fn digit(value: int) -> char {
    if value == 0 {
        '0'
    } else if value == 1 {
        '1'
    } else if value == 2 {
        '2'
    } else if value == 3 {
        '3'
    } else if value == 4 {
        '4'
    } else if value == 5 {
        '5'
    } else if value == 6 {
        '6'
    } else if value == 7 {
        '7'
    } else if value == 8 {
        '8'
    } else {
        '9'
    }
}

/// The decimal numeral of a natural number, without leading zeros.
pub open spec fn digits(value: nat) -> Seq<char>
    decreases value,
{
    if value < 10 {
        seq![digit(value as int)]
    } else {
        digits(value / 10).push(digit((value % 10) as int))
    }
}

/// The decimal numeral of an integer, with a minus sign if it is negative.
pub open spec fn decimal(value: int) -> Seq<char> {
    if value < 0 {
        seq!['-'] + digits((-value) as nat)
    } else {
        digits(value as nat)
    }
}

/// The numeral of a number below 100 in two places, zero-padded.
pub open spec fn two_digits(value: int) -> Seq<char> {
    seq![digit(value / 10), digit(value % 10)]
}

/// Different digits have different characters.
pub proof fn digit_is_injective(left: int, right: int)
    requires
        0 <= left <= 9,
        0 <= right <= 9,
        digit(left) == digit(right),
    ensures
        left == right,
{
}

/// A numeral has at least one place, and begins with the character of a
/// digit: never with a minus sign.
pub proof fn digits_begin_with_a_digit(value: nat)
    ensures
        digits(value).len() >= 1,
        value >= 10 ==> digits(value).len() >= 2,
        exists|first: int| 0 <= first <= 9 && digits(value)[0] == #[trigger] digit(first),
    decreases value,
{
    if value < 10 {
        assert(digits(value)[0] == digit(value as int));
    } else {
        digits_begin_with_a_digit(value / 10);
        assert(digits(value)[0] == digits(value / 10)[0]);
    }
}

/// Different natural numbers have different numerals.
pub proof fn digits_are_injective(left: nat, right: nat)
    requires
        digits(left) == digits(right),
    ensures
        left == right,
    decreases left,
{
    digits_begin_with_a_digit(left);
    digits_begin_with_a_digit(right);
    if left < 10 || right < 10 {
        assert(digits(left).len() == 1 || digits(right).len() == 1);
        assert(left < 10 && right < 10);
        assert(digits(left)[0] == digit(left as int));
        assert(digits(right)[0] == digit(right as int));
        digit_is_injective(left as int, right as int);
    } else {
        let upper_left = digits(left / 10);
        let upper_right = digits(right / 10);
        let last_left = digit((left % 10) as int);
        let last_right = digit((right % 10) as int);
        assert(upper_left.push(last_left).drop_last() =~= upper_left);
        assert(upper_right.push(last_right).drop_last() =~= upper_right);
        assert(upper_left.push(last_left).last() == last_left);
        assert(upper_right.push(last_right).last() == last_right);
        digits_are_injective(left / 10, right / 10);
        digit_is_injective((left % 10) as int, (right % 10) as int);
    }
}

/// Different integers have different numerals.
pub proof fn decimal_is_injective(left: int, right: int)
    requires
        decimal(left) == decimal(right),
    ensures
        left == right,
{
    let left_size = if left < 0 { (-left) as nat } else { left as nat };
    let right_size = if right < 0 { (-right) as nat } else { right as nat };
    digits_begin_with_a_digit(left_size);
    digits_begin_with_a_digit(right_size);
    if left < 0 {
        assert(decimal(left)[0] == '-');
        assert(right < 0);
        assert(decimal(left).subrange(1, decimal(left).len() as int) =~= digits(left_size));
        assert(decimal(right).subrange(1, decimal(right).len() as int) =~= digits(right_size));
        digits_are_injective(left_size, right_size);
    } else {
        if right < 0 {
            assert(decimal(right)[0] == '-');
        }
        digits_are_injective(left_size, right_size);
    }
}

/// Different numbers below 100 are different when written in two places.
pub proof fn two_digits_are_injective(left: int, right: int)
    requires
        0 <= left < 100,
        0 <= right < 100,
        two_digits(left) == two_digits(right),
    ensures
        left == right,
{
    assert(two_digits(left)[0] == digit(left / 10));
    assert(two_digits(right)[0] == digit(right / 10));
    assert(two_digits(left)[1] == digit(left % 10));
    assert(two_digits(right)[1] == digit(right % 10));
    digit_is_injective(left / 10, right / 10);
    digit_is_injective(left % 10, right % 10);
}

fn digit_text(value: u64) -> (text: &'static str)
    requires
        value < 10,
    ensures
        text@ == seq![digit(value as int)],
{
    proof {
        reveal_strlit("0");
        reveal_strlit("1");
        reveal_strlit("2");
        reveal_strlit("3");
        reveal_strlit("4");
        reveal_strlit("5");
        reveal_strlit("6");
        reveal_strlit("7");
        reveal_strlit("8");
        reveal_strlit("9");
    }
    let text = if value == 0 {
        "0"
    } else if value == 1 {
        "1"
    } else if value == 2 {
        "2"
    } else if value == 3 {
        "3"
    } else if value == 4 {
        "4"
    } else if value == 5 {
        "5"
    } else if value == 6 {
        "6"
    } else if value == 7 {
        "7"
    } else if value == 8 {
        "8"
    } else {
        "9"
    };
    assert(text@ =~= seq![digit(value as int)]);
    text
}

/// Writes the numeral of `value` at the end of `out`.
pub(crate) fn append_digits(out: &mut String, value: u64)
    ensures
        final(out)@ == old(out)@ + digits(value as nat),
    decreases value,
{
    if value >= 10 {
        append_digits(out, value / 10);
    }
    out.append(digit_text(value % 10));
    assert(out@ =~= old(out)@ + digits(value as nat));
}

/// Writes the numeral of `value`, with its sign, at the end of `out`.
pub(crate) fn append_decimal(out: &mut String, value: i64)
    ensures
        final(out)@ == old(out)@ + decimal(value as int),
{
    if value < 0 {
        let magnitude: u64 = ((-(value + 1)) as u64) + 1;
        proof {
            reveal_strlit("-");
        }
        out.append("-");
        append_digits(out, magnitude);
        assert(out@ =~= old(out)@ + decimal(value as int));
    } else {
        append_digits(out, value as u64);
    }
}

/// Writes the numeral of `value` in two places at the end of `out`.
pub(crate) fn append_two_digits(out: &mut String, value: u32)
    requires
        value < 100,
    ensures
        final(out)@ == old(out)@ + two_digits(value as int),
{
    out.append(digit_text((value / 10) as u64));
    out.append(digit_text((value % 10) as u64));
    assert(out@ =~= old(out)@ + two_digits(value as int));
}

} // verus!
