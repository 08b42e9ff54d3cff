//! Text as numbers and bytes as text.

use vstd::prelude::*;

verus! {

/// Whether a character is a decimal digit.
pub open spec fn is_digit(c: char) -> bool {
    '0' <= c <= '9'
}

/// The number that a run of decimal digits writes.
pub open spec fn decimal_value(digits: Seq<char>) -> nat
    decreases digits.len(),
{
    if digits.len() == 0 {
        0
    } else {
        10 * decimal_value(digits.drop_last()) + (digits.last() as nat - '0' as nat) as nat
    }
}

/// The digits of a number's text: what follows the `+`, where there is one.
pub open spec fn unsigned_digits(text: Seq<char>) -> Seq<char> {
    if text.len() > 0 && text[0] == '+' {
        text.skip(1)
    } else {
        text
    }
}

/// Whether all characters of a text are decimal digits.
pub open spec fn all_digits(text: Seq<char>) -> bool {
    forall|i: int| 0 <= i < text.len() ==> is_digit(#[trigger] text[i])
}

/// The machine number that a text writes: an optional `+`, then one or more
/// decimal digits whose value fits.
pub open spec fn decimal_usize(text: Seq<char>) -> Option<usize> {
    let digits = unsigned_digits(text);
    if digits.len() > 0 && all_digits(digits) && decimal_value(digits) <= usize::MAX {
        Some(decimal_value(digits) as usize)
    } else {
        None
    }
}

/// Why a text writes no machine number.
#[derive(Clone, Copy, Debug, PartialEq, Eq, Structural)]
pub enum NumberError {
    /// There is no text.
    Empty,
    /// A character is not a digit where one is due.
    InvalidDigit,
    /// The number does not fit.
    TooLarge,
    /// Something else.
    Other,
}

impl NumberError {
    /// What is said of a text that writes no number.
    pub open spec fn message(self) -> Seq<char> {
        match self {
            NumberError::Empty => "cannot parse integer from empty string"@,
            NumberError::InvalidDigit => "invalid digit found in string"@,
            NumberError::TooLarge => "number too large to fit in target type"@,
            NumberError::Other => "invalid number"@,
        }
    }

    /// Writes what is said of a text that writes no number.
    pub fn to_string(&self) -> (text: String)
        ensures
            text@ == self.message(),
    {
        let text = match self {
            NumberError::Empty => "cannot parse integer from empty string",
            NumberError::InvalidDigit => "invalid digit found in string",
            NumberError::TooLarge => "number too large to fit in target type",
            NumberError::Other => "invalid number",
        };
        text.to_owned()
    }
}

/// Whether the first character that is not a digit stands here, after digits
/// whose value fits.
pub open spec fn breaks_off_at(digits: Seq<char>, i: int) -> bool {
    &&& 0 <= i < digits.len()
    &&& !is_digit(digits[i])
    &&& all_digits(digits.take(i))
    &&& decimal_value(digits.take(i)) <= usize::MAX
}

/// Why a text writes no machine number, where it is one thing. It is none for a
/// text that writes a number, and for one that breaks off after more digits than
/// fit.
pub open spec fn number_error(text: Seq<char>) -> Option<NumberError> {
    let digits = unsigned_digits(text);
    if text.len() == 0 {
        Some(NumberError::Empty)
    } else if digits.len() == 0 || exists|i: int| breaks_off_at(digits, i) {
        Some(NumberError::InvalidDigit)
    } else if all_digits(digits) && decimal_value(digits) > usize::MAX {
        Some(NumberError::TooLarge)
    } else {
        None
    }
}

/// A text that writes a machine number has nothing wrong with it.
pub proof fn numbers_have_no_error(text: Seq<char>)
    ensures
        decimal_usize(text) is Some ==> number_error(text) is None,
{
    let digits = unsigned_digits(text);
    assert(all_digits(digits) ==> forall|i: int| !breaks_off_at(digits, i));
}

/// The lower-case hexadecimal digit of a number below sixteen.
pub open spec fn hex_digit(n: int) -> char {
    if n < 10 {
        ('0' as int + n) as char
    } else {
        ('a' as int + (n - 10)) as char
    }
}

/// A byte string written in lower-case hexadecimal, two digits to a byte.
pub open spec fn hex_text(bytes: Seq<u8>) -> Seq<char> {
    Seq::new(
        2 * bytes.len(),
        |i: int|
            if i % 2 == 0 {
                hex_digit(bytes[i / 2] as int / 16)
            } else {
                hex_digit(bytes[i / 2] as int % 16)
            },
    )
}

/// The text of one hexadecimal digit.
fn hex_digit_text(n: u8) -> (text: &'static str)
    requires
        n < 16,
    ensures
        text@ == seq![hex_digit(n as int)],
{
    proof {
        reveal_strlit("0");
        reveal_strlit("1");
        reveal_strlit("2");
        reveal_strlit("3");
        reveal_strlit("4");
        reveal_strlit("5");
        reveal_strlit("6");
        reveal_strlit("7");
        reveal_strlit("8");
        reveal_strlit("9");
        reveal_strlit("a");
        reveal_strlit("b");
        reveal_strlit("c");
        reveal_strlit("d");
        reveal_strlit("e");
        reveal_strlit("f");
    }
    match n {
        0 => "0",
        1 => "1",
        2 => "2",
        3 => "3",
        4 => "4",
        5 => "5",
        6 => "6",
        7 => "7",
        8 => "8",
        9 => "9",
        10 => "a",
        11 => "b",
        12 => "c",
        13 => "d",
        14 => "e",
        _ => "f",
    }
}

/// Writes a byte string in lower-case hexadecimal.
pub fn lower_hex(bytes: &[u8]) -> (text: String)
    ensures
        text@ == hex_text(bytes@),
{
    let mut text = String::new();
    for i in 0..bytes.len()
        invariant
            text@ == hex_text(bytes@.take(i as int)),
    {
        let byte: u8 = bytes[i];
        text.append(hex_digit_text(byte / 16));
        text.append(hex_digit_text(byte % 16));
        proof {
            let done = bytes@.take(i as int);
            let next = bytes@.take(i as int + 1);
            assert(text@ =~= hex_text(done) + seq![hex_digit(byte as int / 16)] + seq![
                hex_digit(byte as int % 16),
            ]);
            assert(hex_text(next) =~= text@) by {
                assert forall|k: int| 0 <= k < hex_text(next).len() implies hex_text(next)[k]
                    == text@[k] by {
                    if k < 2 * i {
                        assert(next[k / 2] == done[k / 2]);
                    } else {
                        assert(next[k / 2] == byte);
                    }
                }
            }
        }
    }
    assert(bytes@.take(bytes@.len() as int) =~= bytes@);
    text
}

/// Hexadecimal text has two characters for every byte, each of them a digit or
/// a letter from `a` to `f`.
pub proof fn hex_text_is_lower_hex(bytes: Seq<u8>)
    ensures
        hex_text(bytes).len() == 2 * bytes.len(),
        forall|i: int|
            0 <= i < hex_text(bytes).len() ==> is_digit(#[trigger] hex_text(bytes)[i]) || 'a'
                <= hex_text(bytes)[i] <= 'f',
{
    assert forall|i: int| 0 <= i < hex_text(bytes).len() implies is_digit(
        #[trigger] hex_text(bytes)[i],
    ) || 'a' <= hex_text(bytes)[i] <= 'f' by {
        let n = if i % 2 == 0 {
            bytes[i / 2] as int / 16
        } else {
            bytes[i / 2] as int % 16
        };
        assert(0 <= n < 16);
        assert(hex_text(bytes)[i] == hex_digit(n));
    }
}

/// Different byte strings have different hexadecimal texts.
pub proof fn hex_text_tells_bytes_apart(a: Seq<u8>, b: Seq<u8>)
    requires
        hex_text(a) == hex_text(b),
    ensures
        a == b,
{
    assert(hex_text(a).len() == 2 * a.len());
    assert(hex_text(b).len() == 2 * b.len());
    assert forall|i: int| 0 <= i < a.len() implies a[i] == b[i] by {
        let high = hex_text(a)[2 * i];
        let low = hex_text(a)[2 * i + 1];
        assert(high == hex_digit(a[i] as int / 16) && high == hex_digit(b[i] as int / 16));
        assert(low == hex_digit(a[i] as int % 16) && low == hex_digit(b[i] as int % 16));
    }
    assert(a =~= b);
}

} // verus!
