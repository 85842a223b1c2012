//! Decimal text of port numbers.

use vstd::prelude::*;

verus! {

/// The decimal digit of a value below ten.
pub open spec fn decimal_digit(value: nat) -> char {
    (0x30 + value) as char
}

/// The decimal text of a number.
pub open spec fn decimal_text(number: nat) -> Seq<char>
    decreases number,
{
    if number < 10 {
        seq![decimal_digit(number)]
    } else {
        decimal_text(number / 10).push(decimal_digit(number % 10))
    }
}

fn digit(value: u16) -> (text: &'static str)
    requires
        value < 10,
    ensures
        text@ == seq![decimal_digit(value as nat)],
{
    proof {
        reveal_strlit("0");
        reveal_strlit("1");
        reveal_strlit("2");
        reveal_strlit("3");
        reveal_strlit("4");
        reveal_strlit("5");
        reveal_strlit("6");
        reveal_strlit("7");
        reveal_strlit("8");
        reveal_strlit("9");
    }
    match value {
        0 => "0",
        1 => "1",
        2 => "2",
        3 => "3",
        4 => "4",
        5 => "5",
        6 => "6",
        7 => "7",
        8 => "8",
        _ => "9",
    }
}

/// Appends the decimal text of a number.
pub fn push_decimal(text: &mut String, number: u16)
    ensures
        final(text)@ == old(text)@ + decimal_text(number as nat),
    decreases number,
{
    if number >= 10 {
        push_decimal(text, number / 10);
    }
    text.append(digit(number % 10));
}

/// The number that a row of decimal digits writes, the most significant first.
pub open spec fn decimal_value(digits: Seq<char>) -> int
    decreases digits.len(),
{
    if digits.len() == 0 {
        0
    } else {
        decimal_value(digits.drop_last()) * 10 + (digits.last() as int - '0' as int)
    }
}

/// The decimal text of a number is made of decimal digits, does not begin with a zero unless it is
/// nothing else, and reads back as the number.
pub proof fn law_decimal_text_reads_back(number: nat)
    ensures
        decimal_text(number).len() > 0,
        forall|i: int|
            0 <= i < decimal_text(number).len() ==> '0' <= #[trigger] decimal_text(number)[i]
                <= '9',
        number > 0 ==> decimal_text(number)[0] != '0',
        number == 0 ==> decimal_text(number).len() == 1,
        decimal_value(decimal_text(number)) == number,
    decreases number,
{
    let text = decimal_text(number);
    if number >= 10 {
        let rest = decimal_text(number / 10);
        law_decimal_text_reads_back(number / 10);
        assert(text.drop_last() =~= rest);
        assert(text.last() == decimal_digit(number % 10));
        assert forall|i: int| 0 <= i < text.len() implies '0' <= #[trigger] text[i] <= '9' by {
            if i < rest.len() {
                assert(text[i] == rest[i]);
            }
        }
    } else {
        assert(text.drop_last() =~= Seq::<char>::empty());
        assert(decimal_value(text.drop_last()) == 0);
    }
}

} // verus!
