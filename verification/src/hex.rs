//! Hexadecimal text of 256-bit names.

use crate::word::{bytes_value, fits};
use vstd::arithmetic::power::{lemma_pow_adds, lemma_pow_increases, pow};
use vstd::prelude::*;
use vstd::utf8::{encode_utf8, is_ascii_chars, is_ascii_chars_encode_utf8};

verus! {

/// Why a text does not name a 256-bit number.
#[derive(Clone, Copy, Debug, PartialEq, Eq, Structural)]
pub enum NameError {
    /// A character that is no hexadecimal digit.
    InvalidCharacter,
    /// More than 64 digits.
    InvalidLength,
}

/// The number of digits that a 256-bit number has at most.
pub const MAX_DIGITS: usize = 64;

/// Whether the ASCII code `c` is a hexadecimal digit, in either case.
pub open spec fn is_hex_digit(c: u8) -> bool {
    ||| 0x30 <= c <= 0x39
    ||| 0x41 <= c <= 0x46
    ||| 0x61 <= c <= 0x66
}

/// The value of the hexadecimal digit with the ASCII code `c`.
pub open spec fn digit_value(c: u8) -> nat {
    if c <= 0x39 {
        (c - 0x30) as nat
    } else if c <= 0x46 {
        (c - 0x41 + 10) as nat
    } else {
        (c - 0x61 + 10) as nat
    }
}

/// The number that a row of hexadecimal digits writes, the most significant first.
pub open spec fn digits_value(digits: Seq<u8>) -> nat
    decreases digits.len(),
{
    if digits.len() == 0 {
        0
    } else {
        digits_value(digits.drop_last()) * 16 + digit_value(digits.last())
    }
}

/// `text` without a leading `0x`.
pub open spec fn without_prefix(text: Seq<u8>) -> Seq<u8> {
    if text.len() >= 2 && text[0] == 0x30 && text[1] == 0x78 {
        text.skip(2)
    } else {
        text
    }
}

/// The 256-bit number that an encoded text writes in hexadecimal, if it writes one.
pub open spec fn parsed(text: Seq<u8>) -> Result<nat, NameError> {
    let digits = without_prefix(text);
    if digits.len() > MAX_DIGITS {
        Err(NameError::InvalidLength)
    } else if exists|i: int| 0 <= i < digits.len() && !is_hex_digit(#[trigger] digits[i]) {
        Err(NameError::InvalidCharacter)
    } else {
        Ok(digits_value(digits))
    }
}

/// The 256-bit number that a text writes in hexadecimal, if it writes one.
pub open spec fn name_number(text: Seq<char>) -> Result<nat, NameError> {
    parsed(encode_utf8(text))
}

/// The lower-case hexadecimal digit of a value below 16.
pub open spec fn hex_char(value: nat) -> char {
    if value < 10 {
        (0x30 + value) as char
    } else {
        (0x61 + value - 10) as char
    }
}

/// The lower-case hexadecimal text of a row of bytes, two digits for each byte.
pub open spec fn hex_text(bytes: Seq<u8>) -> Seq<char> {
    Seq::new(
        2 * bytes.len(),
        |i: int|
            hex_char(
                if i % 2 == 0 {
                    (bytes[i / 2] / 16) as nat
                } else {
                    (bytes[i / 2] % 16) as nat
                },
            ),
    )
}

/// The ASCII codes of a row of characters.
spec fn codes(text: Seq<char>) -> Seq<u8> {
    Seq::new(text.len(), |i: int| text[i] as u8)
}

proof fn lemma_hex_text_digits(bytes: Seq<u8>)
    ensures
        digits_value(codes(hex_text(bytes))) == bytes_value(bytes),
    decreases bytes.len(),
{
    let digits = codes(hex_text(bytes));
    if bytes.len() > 0 {
        let rest = bytes.drop_last();
        lemma_hex_text_digits(rest);
        assert(digits.drop_last().drop_last() =~= codes(hex_text(rest)));
        let last = bytes.last();
        let high = digits.drop_last().last();
        let low = digits.last();
        assert(digit_value(high) == last / 16);
        assert(digit_value(low) == last % 16);
        assert(digits_value(digits) == digits_value(digits.drop_last()) * 16 + last % 16);
        assert(digits_value(digits.drop_last()) == bytes_value(rest) * 16 + last / 16);
    }
}

/// The hexadecimal text of 32 bytes names the number that the bytes write.
pub proof fn law_hex_text_names_bytes(bytes: Seq<u8>)
    requires
        bytes.len() == 32,
    ensures
        name_number(hex_text(bytes)) == Ok::<nat, NameError>(bytes_value(bytes)),
{
    let text = hex_text(bytes);
    assert(is_ascii_chars(text));
    is_ascii_chars_encode_utf8(text);
    let digits = codes(text);
    assert(encode_utf8(text) =~= digits);
    assert forall|i: int| 0 <= i < digits.len() implies is_hex_digit(#[trigger] digits[i]) by {}
    assert(!is_hex_digit(0x78));
    assert(without_prefix(digits) == digits);
    lemma_hex_text_digits(bytes);
}

proof fn lemma_digits_bound(digits: Seq<u8>)
    requires
        forall|i: int| 0 <= i < digits.len() ==> is_hex_digit(#[trigger] digits[i]),
    ensures
        digits_value(digits) < pow(16, digits.len()),
    decreases digits.len(),
{
    reveal(pow);
    if digits.len() > 0 {
        lemma_digits_bound(digits.drop_last());
        assert(is_hex_digit(digits.last()));
    }
}

/// A name never writes a number of more than 256 bits.
pub proof fn law_name_fits(text: Seq<char>)
    ensures
        name_number(text) matches Ok(number) ==> fits(number),
{
    let digits = without_prefix(encode_utf8(text));
    if name_number(text) is Ok {
        lemma_digits_bound(digits);
        lemma_pow_increases(16, digits.len(), 64);
        assert(pow(16, 16) == 0x1_0000_0000_0000_0000int) by {
            reveal_with_fuel(pow, 17);
        }
        lemma_pow_adds(16, 16, 16);
        assert(pow(16, 32) == 0x1_0000_0000_0000_0000_0000_0000_0000_0000int)
            by (nonlinear_arith)
            requires
                pow(16, 16) == 0x1_0000_0000_0000_0000int,
                pow(16, 32) == pow(16, 16) * pow(16, 16),
        ;
        lemma_pow_adds(16, 32, 32);
        assert(fits((pow(16, 64) - 1) as nat)) by (nonlinear_arith)
            requires
                pow(16, 32) == 0x1_0000_0000_0000_0000_0000_0000_0000_0000int,
                pow(16, 64) == pow(16, 32) * pow(16, 32),
        ;
    }
}

/// Whether a character is the lower-case hexadecimal digit of a value.
pub open spec fn is_digit_of(digit: char, value: int) -> bool {
    ||| 0 <= value <= 9 && digit as int == '0' as int + value
    ||| 10 <= value <= 15 && digit as int == 'a' as int + value - 10
}

/// The hexadecimal text of a row of bytes has two lower-case digits for each byte, the one of the
/// high half first.
pub proof fn law_hex_text_digits(bytes: Seq<u8>)
    ensures
        hex_text(bytes).len() == 2 * bytes.len(),
        forall|i: int|
            0 <= i < bytes.len() ==> is_digit_of(
                hex_text(bytes)[2 * i],
                #[trigger] bytes[i] as int / 16,
            ) && is_digit_of(hex_text(bytes)[2 * i + 1], bytes[i] as int % 16),
{
    assert forall|i: int| 0 <= i < bytes.len() implies is_digit_of(
        hex_text(bytes)[2 * i],
        #[trigger] bytes[i] as int / 16,
    ) && is_digit_of(hex_text(bytes)[2 * i + 1], bytes[i] as int % 16) by {
        assert((2 * i) % 2 == 0 && (2 * i) / 2 == i);
        assert((2 * i + 1) % 2 == 1 && (2 * i + 1) / 2 == i);
    }
}

/// Whether a row of bytes begins with `0x`.
pub open spec fn begins_with_prefix(text: Seq<u8>) -> bool {
    text.len() >= 2 && text[0] == '0' as u8 && text[1] == 'x' as u8
}

/// One more digit, in either case, multiplies by sixteen and adds its value, as long as there are
/// at most 64 digits.
pub proof fn law_digits_are_read_in_order(text: Seq<u8>, digit: u8)
    requires
        text.len() < 64 || begins_with_prefix(text) && text.len() < 66,
        parsed(text) is Ok,
    ensures
        '0' as u8 <= digit <= '9' as u8 ==> parsed(text.push(digit)) == Ok::<nat, NameError>(
            (parsed(text)->Ok_0 * 16 + digit - '0' as u8) as nat,
        ),
        'a' as u8 <= digit <= 'f' as u8 ==> parsed(text.push(digit)) == Ok::<nat, NameError>(
            (parsed(text)->Ok_0 * 16 + digit - 'a' as u8 + 10) as nat,
        ),
        'A' as u8 <= digit <= 'F' as u8 ==> parsed(text.push(digit)) == Ok::<nat, NameError>(
            (parsed(text)->Ok_0 * 16 + digit - 'A' as u8 + 10) as nat,
        ),
{
    if is_hex_digit(digit) {
        let digits = without_prefix(text);
        let more = without_prefix(text.push(digit));
        assert(!is_hex_digit(0x78));
        assert(more =~= digits.push(digit));
        assert(more.drop_last() =~= digits);
        assert forall|i: int| 0 <= i < more.len() implies is_hex_digit(#[trigger] more[i]) by {
            if i < digits.len() {
                assert(is_hex_digit(digits[i]));
            }
        }
    }
}

/// A leading `0x` is passed over, once.
pub proof fn law_prefix_is_passed_over(text: Seq<u8>)
    requires
        !begins_with_prefix(text),
    ensures
        parsed(seq!['0' as u8, 'x' as u8] + text) == parsed(text),
{
    let prefixed = seq!['0' as u8, 'x' as u8] + text;
    assert(prefixed.skip(2) =~= text);
}

/// The empty text names zero. A text is refused for its length exactly where more than 64 bytes
/// are left without a leading `0x`, and otherwise for a character exactly where one of those bytes
/// is no hexadecimal digit.
pub proof fn law_when_a_name_is_refused(text: Seq<u8>)
    ensures
        parsed(Seq::<u8>::empty()) == Ok::<nat, NameError>(0),
        ({
            let start: int = if begins_with_prefix(text) {
                2
            } else {
                0
            };
            let too_long = text.len() - start > 64;
            let strange = exists|i: int|
                start <= i < text.len() && !{
                    ||| '0' as u8 <= #[trigger] text[i] <= '9' as u8
                    ||| 'a' as u8 <= text[i] <= 'f' as u8
                    ||| 'A' as u8 <= text[i] <= 'F' as u8
                };
            &&& parsed(text) == Err::<nat, NameError>(NameError::InvalidLength) <==> too_long
            &&& parsed(text) == Err::<nat, NameError>(NameError::InvalidCharacter) <==> !too_long
                && strange
            &&& parsed(text) is Ok <==> !too_long && !strange
        }),
{
    let start: int = if begins_with_prefix(text) {
        2
    } else {
        0
    };
    let digits = without_prefix(text);
    assert(digits =~= text.skip(start));
    assert forall|i: int| start <= i < text.len() implies #[trigger] text[i] == digits[i
        - start] by {}
    assert forall|i: int| 0 <= i < digits.len() implies #[trigger] digits[i] == text[i
        + start] by {}
}

/// A text names what its encoding names.
pub proof fn law_name_is_read_from_its_encoding(text: Seq<char>)
    ensures
        name_number(text) == parsed(encode_utf8(text)),
{
}


} // verus!
