//! Text building: numbers in decimal, characters and UTF-8.

use vstd::prelude::*;
use vstd::string::*;
use vstd::utf8::decode_utf8;
use vstd::utf8::encode_utf8;
use vstd::utf8::valid_utf8;

verus! {

/// The character of one decimal digit.
pub open spec fn digit_char(d: int) -> char {
    (('0' as u32) + d) as char
}

/// The decimal digits of a number, without leading zeros.
pub open spec fn digits(n: nat) -> Seq<char>
    decreases n,
{
    if n < 10 {
        seq![digit_char(n as int)]
    } else {
        digits(n / 10).push(digit_char((n % 10) as int))
    }
}

/// A number in decimal, with a minus sign where it is negative.
pub open spec fn decimal(n: int) -> Seq<char> {
    if n < 0 {
        seq!['-'] + digits((-n) as nat)
    } else {
        digits(n as nat)
    }
}

/// Calls `String::push`, which appends one character to a string.
#[verifier::external_body]
pub(crate) fn push_char(text: &mut String, c: char)
    ensures
        final(text)@ == old(text)@.push(c),
{
    text.push(c)
}

/// The text in which `std::str::Utf8Error` tells where bytes are not UTF-8.
pub uninterp spec fn utf8_error_text(bytes: Seq<u8>) -> Seq<char>;

/// Calls `std::str::from_utf8`, which gives the text that bytes encode, or fails
/// where they are not UTF-8. The text of the error depends on the bytes alone.
#[verifier::external_body]
pub(crate) fn utf8_text(bytes: &[u8]) -> (text: Result<String, String>)
    ensures
        text is Ok <==> valid_utf8(bytes@),
        text is Ok ==> text->Ok_0@ == decode_utf8(bytes@),
        text is Err ==> text->Err_0@ == utf8_error_text(bytes@),
{
    match std::str::from_utf8(bytes) {
        Ok(text) => Ok(text.to_owned()),
        Err(error) => Err(error.to_string()),
    }
}

/// Text of a single character.
pub fn char_text(c: char) -> (text: String)
    ensures
        text@ == seq![c],
{
    let mut text = String::new();
    push_char(&mut text, c);
    assert(text@ =~= seq![c]);
    text
}

fn digit(d: u64) -> (c: char)
    requires
        d < 10,
    ensures
        c == digit_char(d as int),
{
    let code: u8 = 48u8 + d as u8;
    code as char
}

/// Appends a number in decimal.
pub fn push_number(text: &mut String, n: u64)
    ensures
        final(text)@ == old(text)@ + digits(n as nat),
    decreases n,
{
    if n >= 10 {
        push_number(text, n / 10);
    }
    push_char(text, digit(n % 10));
    assert(text@ =~= old(text)@ + digits(n as nat));
}

/// Appends a signed number in decimal.
pub fn push_signed(text: &mut String, n: i64)
    ensures
        final(text)@ == old(text)@ + decimal(n as int),
{
    if n < 0 {
        push_char(text, '-');
        let magnitude: u64 = (-(n as i128)) as u64;
        push_number(text, magnitude);
        assert(text@ =~= old(text)@ + decimal(n as int));
    } else {
        push_number(text, n as u64);
    }
}

/// Joins two pieces of text.
pub fn joined(a: &str, b: &str) -> (text: String)
    ensures
        text@ == a@ + b@,
{
    let mut text = a.to_owned();
    text.append(b);
    text
}

/// The bytes of a text in UTF-8.
pub fn utf8_bytes(text: &str) -> (bytes: Vec<u8>)
    ensures
        bytes@ == encode_utf8(text@),
{
    text.as_bytes_vec()
}

/// The number that decimal digits stand for.
pub open spec fn number(text: Seq<char>) -> int
    decreases text.len(),
{
    if text.len() == 0 {
        0
    } else {
        10 * number(text.drop_last()) + (text.last() as int - '0' as int)
    }
}

/// The decimal digits of a number are digits, stand for that number and do not start
/// with a zero unless there is just one.
pub proof fn law_digits_read_back(n: nat)
    ensures
        number(digits(n)) == n,
        digits(n).len() > 0,
        forall|i: int| 0 <= i < digits(n).len() ==> '0' <= #[trigger] digits(n)[i] <= '9',
        digits(n).len() > 1 <==> n >= 10,
        digits(n).len() > 1 ==> digits(n)[0] != '0',
    decreases n,
{
    if n >= 10 {
        law_digits_read_back(n / 10);
        assert(digits(n).drop_last() =~= digits(n / 10));
        if n / 10 < 10 {
            assert(digits(n)[0] == digit_char((n / 10) as int));
        } else {
            assert(digits(n)[0] == digits(n / 10)[0]);
        }
    } else {
        assert(digits(n).drop_last() =~= seq![]);
        assert(number(digits(n).drop_last()) == 0);
    }
}

/// A number in decimal stands for that number: a negative one is a minus sign and the
/// digits of its magnitude, any other has no sign.
pub proof fn law_decimal_reads_back(n: int)
    ensures
        n >= 0 ==> number(decimal(n)) == n && decimal(n)[0] != '-',
        n < 0 ==> decimal(n)[0] == '-' && number(decimal(n).skip(1)) == -n && decimal(n)[1]
            != '-',
{
    if n < 0 {
        law_digits_read_back((-n) as nat);
        assert(decimal(n).skip(1) =~= digits((-n) as nat));
    } else {
        law_digits_read_back(n as nat);
    }
}

} // verus!
