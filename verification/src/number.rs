//! Integers in decimal digits.
use vstd::prelude::*;
use crate::text::letters;

verus! {

/// The decimal digits in the order of their values.
pub open spec fn decimal_digits() -> Seq<char> {
    seq!['0', '1', '2', '3', '4', '5', '6', '7', '8', '9']
}

/// The number in decimal digits, without leading zeros.
pub open spec fn decimal(number: nat) -> Seq<char>
    decreases number,
{
    if number < 10 {
        seq![decimal_digits()[number as int]]
    } else {
        decimal(number / 10).push(decimal_digits()[(number % 10) as int])
    }
}

/// The integer in decimal digits, with a minus sign if it is negative.
pub open spec fn integer(number: int) -> Seq<char> {
    if number < 0 {
        seq!['-'] + decimal((-number) as nat)
    } else {
        decimal(number as nat)
    }
}

/// The number in decimal digits, with zeros before it up to the width.
pub open spec fn zero_padded(number: nat, width: nat) -> Seq<char> {
    let digits = decimal(number);
    if digits.len() < width {
        Seq::new((width - digits.len()) as nat, |i: int| '0') + digits
    } else {
        digits
    }
}

pub open spec fn is_digit(letter: char) -> bool {
    '0' <= letter && letter <= '9'
}

pub open spec fn all_digits(text: Seq<char>) -> bool {
    forall|i: int| 0 <= i < text.len() ==> is_digit(#[trigger] text[i])
}

/// The number that a text of digits stands for.
pub open spec fn digits_value(text: Seq<char>) -> nat
    decreases text.len(),
{
    if text.len() == 0 {
        0
    } else {
        digits_value(text.drop_last()) * 10 + ((text.last() as u32 - '0' as u32) as nat)
    }
}

/// The integer that a text stands for: digits, with a sign before them or not, that
/// make an integer of 64 bits.
pub open spec fn parsed(text: Seq<char>) -> Option<int> {
    let signed = text.len() > 0 && (text[0] == '+' || text[0] == '-');
    let digits = if signed {
        text.drop_first()
    } else {
        text
    };
    let value = if signed && text[0] == '-' {
        -digits_value(digits)
    } else {
        digits_value(digits) as int
    };
    if digits.len() > 0 && all_digits(digits) && i64::MIN <= value <= i64::MAX {
        Some(value)
    } else {
        None
    }
}

fn digit_letter(value: u64) -> (letter: char)
    requires
        value < 10,
    ensures
        letter == decimal_digits()[value as int],
{
    let digits = ['0', '1', '2', '3', '4', '5', '6', '7', '8', '9'];
    digits[value as usize]
}

pub fn decimal_text(number: u64) -> (text: String)
    ensures
        text@ == decimal(number as nat),
    decreases number,
{
    let mut out = if number < 10 {
        String::new()
    } else {
        decimal_text(number / 10)
    };
    out.push(digit_letter(number % 10));
    assert(number < 10 ==> out@ =~= decimal(number as nat));
    out
}

pub fn integer_text(number: i64) -> (text: String)
    ensures
        text@ == integer(number as int),
{
    if number < 0 {
        let magnitude: u64 = (-(number + 1)) as u64 + 1;
        crate::text::joined(&minus(), &decimal_text(magnitude))
    } else {
        decimal_text(number as u64)
    }
}

fn minus() -> (text: String)
    ensures
        text@ == seq!['-'],
{
    let mut out = String::new();
    out.push('-');
    assert(out@ =~= seq!['-']);
    out
}

pub fn zero_padded_text(number: u64, width: usize) -> (text: String)
    ensures
        text@ == zero_padded(number as nat, width as nat),
{
    let digits = decimal_text(number);
    let length: usize = letters(&digits).len();
    let mut out = String::new();
    let mut i: usize = 0;
    while length < width && i < width - length
        invariant
            length < width ==> i <= width - length,
            length >= width ==> i == 0,
            out@ == Seq::new(i as nat, |k: int| '0'),
        decreases width - i,
    {
        out.push('0');
        i += 1;
        assert(out@ =~= Seq::new(i as nat, |k: int| '0'));
    }
    assert(length >= width ==> Seq::new(0, |k: int| '0') + digits@ =~= digits@);
    crate::text::joined(&out, &digits)
}

/// The integer that the text stands for, if it stands for one of 64 bits.
pub fn parse_integer(text: &str) -> (number: Option<i64>)
    ensures
        match number {
            Some(found) => parsed(text@) == Some(found as int),
            None => parsed(text@) is None,
        },
{
    let all = letters(text);
    let signed = all.len() > 0 && (all[0] == '+' || all[0] == '-');
    let negative = signed && all[0] == '-';
    let start: usize = if signed {
        1
    } else {
        0
    };
    let ghost digits = if signed {
        text@.drop_first()
    } else {
        text@
    };
    assert(digits =~= all@.skip(start as int));
    let mut value: u128 = 0;
    let mut excess = false;
    let mut i: usize = start;
    assert(digits.take(0) =~= Seq::empty());
    while i < all.len()
        invariant
            start <= i <= all@.len(),
            start <= 1,
            all@ == text@,
            signed == (text@.len() > 0 && (text@[0] == '+' || text@[0] == '-')),
            digits == (if signed { text@.drop_first() } else { text@ }),
            digits == all@.skip(start as int),
            all_digits(digits.take(i - start)),
            !excess ==> value == digits_value(digits.take(i - start)) && value <= 0x1_0000_0000_0000_0000,
            excess ==> digits_value(digits.take(i - start)) > 0x1_0000_0000_0000_0000,
        decreases all@.len() - i,
    {
        let letter = all[i];
        let ghost before = digits.take(i - start);
        let ghost after = digits.take(i + 1 - start);
        assert(after.drop_last() =~= before);
        assert(after.last() == letter);
        if !('0' <= letter && letter <= '9') {
            assert(!is_digit(digits[i - start]));
            return None;
        }
        if !excess {
            value = value * 10 + (letter as u32 - '0' as u32) as u128;
            if value > 0x1_0000_0000_0000_0000 {
                excess = true;
            }
        }
        assert forall|k: int| 0 <= k < after.len() implies is_digit(#[trigger] after[k]) by {
            if k < before.len() {
                assert(after[k] == before[k]);
            }
        }
        i += 1;
    }
    assert(digits.take(i - start) =~= digits);
    if all.len() == start || excess {
        return None;
    }
    if negative {
        if value > 0x8000_0000_0000_0000 {
            None
        } else if value == 0 {
            Some(0)
        } else {
            Some(-((value - 1) as i64) - 1)
        }
    } else if value > 0x7fff_ffff_ffff_ffff {
        None
    } else {
        Some(value as i64)
    }
}

proof fn digit_value(value: int)
    requires
        0 <= value < 10,
    ensures
        is_digit(decimal_digits()[value]),
        decimal_digits()[value] as u32 - '0' as u32 == value,
{
    let digits = decimal_digits();
    assert(digits[0] == '0' && digits[1] == '1' && digits[2] == '2' && digits[3] == '3' && digits[4] == '4');
    assert(digits[5] == '5' && digits[6] == '6' && digits[7] == '7' && digits[8] == '8' && digits[9] == '9');
}

proof fn decimal_value(number: nat)
    ensures
        decimal(number).len() > 0,
        all_digits(decimal(number)),
        digits_value(decimal(number)) == number,
    decreases number,
{
    let text = decimal(number);
    digit_value((number % 10) as int);
    assert(text.last() == decimal_digits()[(number % 10) as int]);
    if number < 10 {
        assert(text.drop_last() =~= Seq::empty());
        assert(digits_value(Seq::empty()) == 0);
    } else {
        decimal_value(number / 10);
        assert(text.drop_last() =~= decimal(number / 10));
        assert forall|i: int| 0 <= i < text.len() implies is_digit(#[trigger] text[i]) by {
            if i < text.len() - 1 {
                assert(text[i] == decimal(number / 10)[i]);
            }
        }
    }
}

/// An integer of 64 bits is read back from the digits that it is written in.
pub proof fn integers_are_read_back(number: i64)
    ensures
        parsed(integer(number as int)) == Some(number as int),
{
    if number < 0 {
        decimal_value((-number) as nat);
        assert(integer(number as int).drop_first() =~= decimal((-number) as nat));
    } else {
        decimal_value(number as nat);
        assert(is_digit(decimal(number as nat)[0]));
    }
}

/// Different numbers are written in different digits.
pub proof fn decimal_is_faithful(a: nat, b: nat)
    ensures
        decimal(a) == decimal(b) <==> a == b,
{
    decimal_value(a);
    decimal_value(b);
}

}
