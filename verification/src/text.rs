//! Text that the library puts together: decimal numbers, hexadecimal digests
//! and the reading of byte strings as text.

use vstd::prelude::*;
use vstd::utf8::*;

verus! {

/// The character of one decimal or hexadecimal digit, letters in lower case.
pub open spec fn digit_char(digit: int) -> char
    recommends
        0 <= digit < 16,
{
    if digit < 10 {
        (48 + digit) as char
    } else {
        (87 + digit) as char
    }
}

/// `n` in decimal, without leading zeros.
pub open spec fn decimal_text(n: nat) -> Seq<char>
    decreases n,
{
    if n < 10 {
        seq![digit_char(n as int)]
    } else {
        decimal_text(n / 10).push(digit_char((n % 10) as int))
    }
}

/// Every byte of `data` as two hexadecimal digits in lower case, the high digit
/// first.
pub open spec fn hex_text(data: Seq<u8>) -> Seq<char> {
    Seq::new(
        2 * data.len(),
        |i: int|
            if i % 2 == 0 {
                digit_char(data[i / 2] as int / 16)
            } else {
                digit_char(data[i / 2] as int % 16)
            },
    )
}

/// One decimal digit as a string of one character.
fn digit_str(digit: u64) -> (text: &'static str)
    requires
        digit < 10,
    ensures
        text@ == seq![digit_char(digit as int)],
{
    proof {
        reveal_strlit("0");
        reveal_strlit("1");
        reveal_strlit("2");
        reveal_strlit("3");
        reveal_strlit("4");
        reveal_strlit("5");
        reveal_strlit("6");
        reveal_strlit("7");
        reveal_strlit("8");
        reveal_strlit("9");
    }
    match digit {
        0 => "0",
        1 => "1",
        2 => "2",
        3 => "3",
        4 => "4",
        5 => "5",
        6 => "6",
        7 => "7",
        8 => "8",
        _ => "9",
    }
}

/// Writes `n` in decimal.
pub fn decimal(n: u64) -> (text: String)
    ensures
        text@ == decimal_text(n as nat),
    decreases n,
{
    if n < 10 {
        digit_str(n).to_owned()
    } else {
        let mut text = decimal(n / 10);
        text.append(digit_str(n % 10));
        text
    }
}

/// Joins two pieces of text.
pub fn join_text(first: &str, second: &str) -> (text: String)
    ensures
        text@ == first@ + second@,
{
    let mut text = first.to_owned();
    text.append(second);
    text
}

/// The view of a byte string that may be missing.
pub open spec fn optional_bytes(bytes: Option<Vec<u8>>) -> Option<Seq<u8>> {
    match bytes {
        Some(bytes) => Some(bytes@),
        None => None,
    }
}

/// The lines of a report.
pub open spec fn lines_of(lines: Seq<String>) -> Seq<Seq<char>> {
    Seq::new(lines.len(), |i: int| lines[i]@)
}

/// What `String::from_utf8_lossy` makes of a byte string.
pub uninterp spec fn utf8_lossy(bytes: Seq<u8>) -> Seq<char>;

/// Calls `String::from_utf8_lossy`: the text of a byte string, in which every
/// sequence that is not UTF-8 is replaced by U+FFFD. The text depends on the
/// bytes alone, and bytes that are UTF-8 throughout are decoded unchanged.
#[verifier::external_body]
pub(crate) fn text_of_bytes(bytes: &[u8]) -> (text: String)
    ensures
        text@ == utf8_lossy(bytes@),
        valid_utf8(bytes@) ==> text@ == decode_utf8(bytes@),
{
    String::from_utf8_lossy(bytes).into_owned()
}

/// Different byte strings are different in hexadecimal.
pub proof fn law_hex_is_unambiguous(data1: Seq<u8>, data2: Seq<u8>)
    requires
        hex_text(data1) == hex_text(data2),
    ensures
        data1 == data2,
{
    let text1 = hex_text(data1);
    let text2 = hex_text(data2);
    assert(text1.len() == text2.len());
    assert forall|i: int| 0 <= i < data1.len() implies data1[i] == data2[i] by {
        assert(text1[2 * i] == text2[2 * i]);
        assert(text1[2 * i + 1] == text2[2 * i + 1]);
        assert((2 * i) / 2 == i && (2 * i) % 2 == 0);
        assert((2 * i + 1) / 2 == i && (2 * i + 1) % 2 == 1);
    }
    assert(data1 =~= data2);
}

/// A decimal number is its digits, from the first to the last: one digit stands
/// for itself, and to put a digit behind a number other than zero is to multiply
/// it by ten and to count the digit on.
pub proof fn law_decimal_digits(n: nat, digit: nat)
    requires
        digit < 10,
    ensures
        decimal_text(digit) == seq!["0123456789"@[digit as int]],
        n > 0 ==> decimal_text(10 * n + digit) == decimal_text(n) + seq![
            "0123456789"@[digit as int],
        ],
{
    reveal_strlit("0123456789");
    if n > 0 {
        let m: nat = 10 * n + digit;
        assert(m / 10 == n && m % 10 == digit);
        assert(decimal_text(m) =~= decimal_text(n) + seq!["0123456789"@[digit as int]]);
    }
}

/// In hexadecimal a byte string has two characters for each byte: the digit of
/// its sixteens, then the digit of its ones.
pub proof fn law_hex_digits(data: Seq<u8>, i: int)
    requires
        0 <= i < data.len(),
    ensures
        hex_text(data).len() == 2 * data.len(),
        hex_text(data)[2 * i] == "0123456789abcdef"@[data[i] as int / 16],
        hex_text(data)[2 * i + 1] == "0123456789abcdef"@[data[i] as int % 16],
{
    reveal_strlit("0123456789abcdef");
    assert((2 * i) / 2 == i && (2 * i) % 2 == 0);
    assert((2 * i + 1) / 2 == i && (2 * i + 1) % 2 == 1);
}

/// Bytes and lines keep all that they hold, and a missing byte string is missing.
pub proof fn law_views_keep_contents(bytes: Vec<u8>, lines: Seq<String>)
    ensures
        optional_bytes(Some(bytes)) == Some(bytes@),
        optional_bytes(None) is None,
        lines_of(lines).len() == lines.len(),
        forall|i: int| 0 <= i < lines.len() ==> #[trigger] lines_of(lines)[i] == lines[i]@,
{
}

} // verus!
