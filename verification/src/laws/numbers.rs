//! Numbers: the digits that they are written in, and the texts that they are read from.
use vstd::prelude::*;
use crate::number::{
    all_digits, decimal, decimal_digits, decimal_text, digits_value, integer, integer_text, is_digit,
    parse_integer, zero_padded, zero_padded_text,
};

verus! {

/// What a text is worth, each letter taken for the digit that it is.
pub open spec fn worth(text: Seq<char>) -> int
    decreases text.len(),
{
    if text.len() == 0 {
        0
    } else {
        10 * worth(text.drop_last()) + (text.last() as int - 48)
    }
}

/// The text is made of the digits from 0 to 9, and of at least one.
pub open spec fn in_digits(text: Seq<char>) -> bool {
    &&& text.len() > 0
    &&& forall|i: int| 0 <= i < text.len() ==> 48 <= #[trigger] text[i] as int <= 57
}

/// The text is in digits, none of them a zero that could be left out.
pub open spec fn shortest(text: Seq<char>) -> bool {
    in_digits(text) && (text.len() > 1 ==> text[0] as int != 48)
}

proof fn worth_is_value(text: Seq<char>)
    requires
        all_digits(text),
    ensures
        worth(text) == digits_value(text),
    decreases text.len(),
{
    if text.len() > 0 {
        assert forall|i: int| 0 <= i < text.len() - 1 implies is_digit(#[trigger] text.drop_last()[i]) by {
            assert(is_digit(text[i]));
        }
        worth_is_value(text.drop_last());
        assert(is_digit(text[text.len() - 1]));
    }
}

proof fn decimals_are_shortest(number: nat)
    ensures
        shortest(decimal(number)),
        worth(decimal(number)) == number,
        number > 0 ==> decimal(number)[0] as int != 48,
    decreases number,
{
    let digits = decimal_digits();
    assert(digits[0] == '0' && digits[1] == '1' && digits[2] == '2' && digits[3] == '3' && digits[4] == '4');
    assert(digits[5] == '5' && digits[6] == '6' && digits[7] == '7' && digits[8] == '8' && digits[9] == '9');
    let text = decimal(number);
    assert(text.last() as int == 48 + number % 10);
    if number < 10 {
        assert(text.drop_last() =~= Seq::empty());
        assert(worth(text.drop_last()) == 0);
    } else {
        decimals_are_shortest(number / 10);
        let leading = decimal(number / 10);
        assert(text.drop_last() =~= leading);
        assert(text[0] == leading[0]);
        assert forall|i: int| 0 <= i < text.len() implies 48 <= #[trigger] text[i] as int <= 57 by {
            if i < text.len() - 1 {
                assert(text[i] == leading[i]);
            }
        }
    }
}

proof fn zeros_are_worth_nothing(zeros: nat, digits: Seq<char>)
    ensures
        worth(Seq::new(zeros, |i: int| '0') + digits) == worth(digits),
    decreases zeros + digits.len(),
{
    let text = Seq::new(zeros, |i: int| '0') + digits;
    if digits.len() > 0 {
        assert(text.drop_last() =~= Seq::new(zeros, |i: int| '0') + digits.drop_last());
        zeros_are_worth_nothing(zeros, digits.drop_last());
    } else if zeros > 0 {
        let fewer = (zeros - 1) as nat;
        assert(text.drop_last() =~= Seq::new(fewer, |i: int| '0') + digits);
        zeros_are_worth_nothing(fewer, digits);
    }
}

/// A number is written in the fewest digits that are worth it.
pub proof fn a_number_is_written_in_its_digits(number: u64, text: String)
    requires
        call_ensures(decimal_text, (number,), text),
    ensures
        shortest(text@),
        worth(text@) == number,
{
    decimals_are_shortest(number as nat);
}

/// An integer is written as a number; if it is negative, after a minus sign.
pub proof fn an_integer_is_written_with_its_sign(number: i64, text: String)
    requires
        call_ensures(integer_text, (number,), text),
    ensures
        number >= 0 ==> shortest(text@) && worth(text@) == number,
        number < 0 ==> text@.len() > 1 && text@[0] == '-' && shortest(text@.skip(1)) && worth(text@.skip(1))
            == -number,
{
    if number < 0 {
        decimals_are_shortest((-number) as nat);
        assert(text@ == integer(number as int));
        assert(text@.skip(1) =~= decimal((-number) as nat));
    } else {
        decimals_are_shortest(number as nat);
    }
}

/// A padded number is as wide as asked for, or wider where its digits are; the padding
/// changes nothing about what it is worth.
pub proof fn a_padded_number_has_its_width(number: u64, width: usize, text: String)
    requires
        call_ensures(zero_padded_text, (number, width), text),
    ensures
        in_digits(text@) && worth(text@) == number,
        text@.len() >= width,
        text@.len() > width ==> shortest(text@),
{
    let digits = decimal(number as nat);
    decimals_are_shortest(number as nat);
    assert(text@ == zero_padded(number as nat, width as nat));
    if digits.len() < width {
        let zeros = (width - digits.len()) as nat;
        zeros_are_worth_nothing(zeros, digits);
        assert forall|i: int| 0 <= i < text@.len() implies 48 <= #[trigger] text@[i] as int <= 57 by {
            if i >= zeros {
                assert(text@[i] == digits[i - zeros]);
            }
        }
    }
}

/// The digits of a text: what follows its sign, where it begins with one.
pub open spec fn unsigned(text: Seq<char>) -> Seq<char> {
    if text.len() > 0 && (text[0] == '+' || text[0] == '-') {
        text.skip(1)
    } else {
        text
    }
}

/// What a text is worth with its sign.
pub open spec fn signed_worth(text: Seq<char>) -> int {
    if text.len() > 0 && text[0] == '-' {
        -worth(unsigned(text))
    } else {
        worth(unsigned(text))
    }
}

/// A text is read as an integer exactly if it is in digits, with or without a sign, and
/// what it is worth fits in 64 bits. The integer is what it is worth.
pub proof fn a_text_is_read_for_what_it_is_worth(text: &str, number: Option<i64>)
    requires
        call_ensures(parse_integer, (text,), number),
    ensures
        number is Some <==> in_digits(unsigned(text@)) && -0x8000_0000_0000_0000 <= signed_worth(text@)
            <= 0x7fff_ffff_ffff_ffff,
        number matches Some(found) ==> found == signed_worth(text@),
{
    let digits = unsigned(text@);
    if text@.len() > 0 {
        assert(text@.skip(1) =~= text@.drop_first());
    }
    if in_digits(digits) {
        assert forall|i: int| 0 <= i < digits.len() implies is_digit(#[trigger] digits[i]) by {
            assert(48 <= digits[i] as int <= 57);
        }
    }
    if all_digits(digits) {
        worth_is_value(digits);
        assert forall|i: int| 0 <= i < digits.len() implies 48 <= #[trigger] digits[i] as int <= 57 by {
            assert(is_digit(digits[i]));
        }
    }
}

}
