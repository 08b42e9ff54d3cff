//! What numbers and bytes are as text.

use vstd::prelude::*;

use crate::text::{
    all_digits, decimal_value, hex_digit, hex_text, is_digit, lower_hex, NumberError,
};

verus! {

/// Whether a text is a number in decimal: its last digit is the remainder by
/// ten, and the digits before it are the quotient.
pub open spec fn writes(text: Seq<char>, number: int) -> bool
    decreases text.len(),
{
    &&& text.len() > 0
    &&& '0' <= text.last() <= '9'
    &&& number >= 0
    &&& number % 10 == text.last() as int - '0' as int
    &&& if text.len() == 1 {
        number < 10
    } else {
        writes(text.drop_last(), number / 10)
    }
}

/// A text of digits is the number of its value and no other.
pub(crate) proof fn writing_is_valuing(text: Seq<char>, number: int)
    ensures
        writes(text, number) <==> text.len() > 0 && all_digits(text) && decimal_value(text)
            == number,
    decreases text.len(),
{
    if text.len() > 0 {
        let front = text.drop_last();
        writing_is_valuing(front, number / 10);
        writing_is_valuing(front, decimal_value(front) as int);
        assert(decimal_value(Seq::<char>::empty()) == 0);
        assert(front.len() == 0 ==> front =~= Seq::empty());
        assert(all_digits(text) <==> all_digits(front) && is_digit(text.last())) by {
            if all_digits(text) {
                assert forall|i: int| 0 <= i < front.len() implies is_digit(#[trigger] front[i]) by {
                    assert(is_digit(text[i]));
                }
                assert(is_digit(text[text.len() - 1]));
            }
            if all_digits(front) && is_digit(text.last()) {
                assert forall|i: int| 0 <= i < text.len() implies is_digit(#[trigger] text[i]) by {
                    if i < front.len() {
                        assert(is_digit(front[i]));
                    }
                }
            }
        }
    }
}

/// The number that a hexadecimal digit stands for; none for any other character.
pub open spec fn hex_value(c: char) -> Option<int> {
    if '0' <= c <= '9' {
        Some(c as int - '0' as int)
    } else if 'a' <= c <= 'f' {
        Some(c as int - 'a' as int + 10)
    } else {
        None
    }
}

/// Whether a text gives every byte of a byte string, and no other, as two
/// hexadecimal digits with the higher one first.
pub open spec fn spells_bytes(text: Seq<char>, bytes: Seq<u8>) -> bool {
    &&& text.len() == 2 * bytes.len()
    &&& forall|i: int|
        0 <= i < bytes.len() ==> {
            &&& hex_value(text[2 * i]) is Some
            &&& hex_value(text[2 * i + 1]) is Some
            &&& #[trigger] bytes[i] == 16 * hex_value(text[2 * i])->0 + hex_value(
                text[2 * i + 1],
            )->0
        }
}

/// Hexadecimal text spells the bytes that it is made of.
pub(crate) proof fn hex_text_spells_bytes(bytes: Seq<u8>)
    ensures
        spells_bytes(hex_text(bytes), bytes),
{
    let text = hex_text(bytes);
    assert forall|i: int| 0 <= i < bytes.len() implies {
        &&& hex_value(text[2 * i]) is Some
        &&& hex_value(text[2 * i + 1]) is Some
        &&& #[trigger] bytes[i] == 16 * hex_value(text[2 * i])->0 + hex_value(text[2 * i + 1])->0
    } by {
        let byte = bytes[i] as int;
        assert(text[2 * i] == hex_digit(byte / 16));
        assert(text[2 * i + 1] == hex_digit(byte % 16));
    }
}

/// The bytes that are written can be read back from the text.
pub proof fn written_bytes_can_be_read_back(bytes: &[u8], text: String)
    requires
        call_ensures(lower_hex, (bytes,), text),
    ensures
        spells_bytes(text@, bytes@),
{
    hex_text_spells_bytes(bytes@);
}

/// What is said of a text that is no number tells the faults apart.
pub proof fn faults_of_numbers_are_told(error: NumberError, text: String)
    requires
        call_ensures(NumberError::to_string, (&error,), text),
    ensures
        error is Empty ==> text@ == "cannot parse integer from empty string"@,
        error is InvalidDigit ==> text@ == "invalid digit found in string"@,
        error is TooLarge ==> text@ == "number too large to fit in target type"@,
        error is Other ==> text@ == "invalid number"@,
{
}

} // verus!
