//! Text that error messages are made of.

use vstd::prelude::*;

verus! {

/// The digit `d` of a number written in base sixteen, in lower case.
pub open spec fn digit_text(d: int) -> Seq<char> {
    if d == 0 {
        "0"@
    } else if d == 1 {
        "1"@
    } else if d == 2 {
        "2"@
    } else if d == 3 {
        "3"@
    } else if d == 4 {
        "4"@
    } else if d == 5 {
        "5"@
    } else if d == 6 {
        "6"@
    } else if d == 7 {
        "7"@
    } else if d == 8 {
        "8"@
    } else if d == 9 {
        "9"@
    } else if d == 10 {
        "a"@
    } else if d == 11 {
        "b"@
    } else if d == 12 {
        "c"@
    } else if d == 13 {
        "d"@
    } else if d == 14 {
        "e"@
    } else {
        "f"@
    }
}

/// A byte written as `0x` and two hexadecimal digits.
pub open spec fn hex_text(byte: u8) -> Seq<char> {
    "0x"@ + digit_text(byte as int / 16) + digit_text(byte as int % 16)
}

/// A number written in base ten, without leading zeros.
pub open spec fn decimal_text(n: nat) -> Seq<char>
    decreases n,
{
    if n < 10 {
        digit_text(n as int)
    } else {
        decimal_text(n / 10) + digit_text(n as int % 10)
    }
}

fn digit(d: u8) -> (text: &'static str)
    requires
        d < 16,
    ensures
        text@ == digit_text(d as int),
{
    if d == 0 {
        "0"
    } else if d == 1 {
        "1"
    } else if d == 2 {
        "2"
    } else if d == 3 {
        "3"
    } else if d == 4 {
        "4"
    } else if d == 5 {
        "5"
    } else if d == 6 {
        "6"
    } else if d == 7 {
        "7"
    } else if d == 8 {
        "8"
    } else if d == 9 {
        "9"
    } else if d == 10 {
        "a"
    } else if d == 11 {
        "b"
    } else if d == 12 {
        "c"
    } else if d == 13 {
        "d"
    } else if d == 14 {
        "e"
    } else {
        "f"
    }
}

/// Appends a byte as `0x` and two hexadecimal digits.
pub(crate) fn push_hex(text: &mut String, byte: u8)
    ensures
        final(text)@ == old(text)@ + hex_text(byte),
{
    text.append("0x");
    text.append(digit(byte / 16));
    text.append(digit(byte % 16));
    assert(text@ =~= old(text)@ + hex_text(byte));
}

/// Appends a number in base ten.
pub(crate) fn push_decimal(text: &mut String, n: u64)
    ensures
        final(text)@ == old(text)@ + decimal_text(n as nat),
    decreases n,
{
    if n < 10 {
        text.append(digit(n as u8));
    } else {
        push_decimal(text, n / 10);
        text.append(digit((n % 10) as u8));
    }
    assert(text@ =~= old(text)@ + decimal_text(n as nat));
}

/// `str::from_utf8` returns the text whose UTF-8 encoding the bytes are, and
/// fails where they are no valid UTF-8.
#[verifier::external_body]
pub(crate) fn utf8_text(bytes: &[u8]) -> (text: Option<&str>)
    ensures
        text is Some == vstd::utf8::valid_utf8(bytes@),
        text matches Some(text) ==> text@ == vstd::utf8::decode_utf8(bytes@),
{
    std::str::from_utf8(bytes).ok()
}

/// `String::from_utf8` returns the text whose UTF-8 encoding the bytes are, and
/// fails where they are no valid UTF-8.
#[verifier::external_body]
pub(crate) fn utf8_string(bytes: Vec<u8>) -> (text: Option<String>)
    ensures
        text is Some == vstd::utf8::valid_utf8(bytes@),
        text matches Some(text) ==> text@ == vstd::utf8::decode_utf8(bytes@),
{
    String::from_utf8(bytes).ok()
}

/// A text in quotes, with the escapes that [`quoted`] writes.
pub uninterp spec fn quoted_text(text: Seq<char>) -> Seq<char>;

/// `format!` writes a `str` by `{:?}` in quotes, and escapes what does not print.
/// The result is a function of the text.
#[verifier::external_body]
pub(crate) fn quoted(text: &str) -> (inside: String)
    ensures
        inside@ == quoted_text(text@),
{
    format!("{:?}", text)
}

/// `==` on `str` tells whether two texts are the same, character by character.
#[verifier::external_body]
pub(crate) fn same_text(a: &str, b: &str) -> (same: bool)
    ensures
        same == (a@ == b@),
{
    a == b
}

/// A digit is the character at its place in the row of digits.
pub proof fn law_digits(d: int)
    requires
        0 <= d < 16,
    ensures
        digit_text(d) == seq!["0123456789abcdef"@[d]],
{
    reveal_strlit("0123456789abcdef");
    reveal_strlit("0");
    reveal_strlit("1");
    reveal_strlit("2");
    reveal_strlit("3");
    reveal_strlit("4");
    reveal_strlit("5");
    reveal_strlit("6");
    reveal_strlit("7");
    reveal_strlit("8");
    reveal_strlit("9");
    reveal_strlit("a");
    reveal_strlit("b");
    reveal_strlit("c");
    reveal_strlit("d");
    reveal_strlit("e");
    reveal_strlit("f");
    assert(digit_text(d) =~= seq!["0123456789abcdef"@[d]]);
}

/// A byte is written as `0x`, its high and its low digit.
pub proof fn law_bytes_are_written_in_hexadecimal(byte: u8)
    ensures
        hex_text(byte) == seq![
            '0',
            'x',
            "0123456789abcdef"@[byte as int / 16],
            "0123456789abcdef"@[byte as int % 16],
        ],
{
    reveal_strlit("0x");
    law_digits(byte as int / 16);
    law_digits(byte as int % 16);
    assert(hex_text(byte) =~= seq![
        '0',
        'x',
        "0123456789abcdef"@[byte as int / 16],
        "0123456789abcdef"@[byte as int % 16],
    ]);
}

/// The number that a row of decimal digits stands for.
pub open spec fn decimal_value(text: Seq<char>) -> int
    decreases text.len(),
{
    if text.len() == 0 {
        0
    } else {
        10 * decimal_value(text.drop_last()) + (text.last() as int - '0' as int)
    }
}

/// A number is written as the row of digits that stands for it, with no 0 in front.
pub proof fn law_numbers_are_written_in_decimal(n: nat)
    ensures
        decimal_value(decimal_text(n)) == n,
        decimal_text(n).len() > 0,
        n > 0 ==> decimal_text(n)[0] != '0',
        forall|i: int| 0 <= i < decimal_text(n).len() ==> '0' <= #[trigger] decimal_text(n)[i]
            <= '9',
    decreases n,
{
    reveal_strlit("0123456789abcdef");
    reveal_with_fuel(decimal_value, 2);
    law_digits(n as int % 10);
    let text = decimal_text(n);
    if n < 10 {
        assert(text.drop_last() =~= Seq::empty());
    } else {
        law_numbers_are_written_in_decimal(n / 10);
        assert(text.drop_last() =~= decimal_text(n / 10));
    }
}

} // verus!
