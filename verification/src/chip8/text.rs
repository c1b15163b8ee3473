//! Text formatting for the disassembler and the diagnostic views:
//! hexadecimal numbers and padded columns.

use vstd::prelude::*;
use vstd::string::*;

verus! {

/// The character for one hexadecimal digit, `0 <= digit < 16`, in lower or
/// upper case.
pub open spec fn hex_digit(digit: int, upper: bool) -> char {
    if digit == 0 {
        '0'
    } else if digit == 1 {
        '1'
    } else if digit == 2 {
        '2'
    } else if digit == 3 {
        '3'
    } else if digit == 4 {
        '4'
    } else if digit == 5 {
        '5'
    } else if digit == 6 {
        '6'
    } else if digit == 7 {
        '7'
    } else if digit == 8 {
        '8'
    } else if digit == 9 {
        '9'
    } else if digit == 10 {
        if upper { 'A' } else { 'a' }
    } else if digit == 11 {
        if upper { 'B' } else { 'b' }
    } else if digit == 12 {
        if upper { 'C' } else { 'c' }
    } else if digit == 13 {
        if upper { 'D' } else { 'd' }
    } else if digit == 14 {
        if upper { 'E' } else { 'e' }
    } else {
        if upper { 'F' } else { 'f' }
    }
}

/// `value` written in base sixteen, most significant digit first, with as
/// many digits as the value needs and at least `width` of them (padded with
/// leading zeros).
pub open spec fn hex(value: nat, width: nat, upper: bool) -> Seq<char>
    decreases value, width,
{
    if value < 16 && width <= 1 {
        seq![hex_digit(value as int, upper)]
    } else {
        hex(value / 16, if width > 0 { (width - 1) as nat } else { 0 }, upper).push(
            hex_digit((value % 16) as int, upper),
        )
    }
}

/// A one-character string holding the hexadecimal digit `digit`.
fn hex_digit_str(digit: u8, upper: bool) -> (s: &'static str)
    requires
        digit < 16,
    ensures
        s@ == seq![hex_digit(digit as int, upper)],
{
    proof {
        reveal_strlit("0");
        reveal_strlit("1");
        reveal_strlit("2");
        reveal_strlit("3");
        reveal_strlit("4");
        reveal_strlit("5");
        reveal_strlit("6");
        reveal_strlit("7");
        reveal_strlit("8");
        reveal_strlit("9");
        reveal_strlit("a");
        reveal_strlit("b");
        reveal_strlit("c");
        reveal_strlit("d");
        reveal_strlit("e");
        reveal_strlit("f");
        reveal_strlit("A");
        reveal_strlit("B");
        reveal_strlit("C");
        reveal_strlit("D");
        reveal_strlit("E");
        reveal_strlit("F");
    }
    let s = match digit {
        0 => "0",
        1 => "1",
        2 => "2",
        3 => "3",
        4 => "4",
        5 => "5",
        6 => "6",
        7 => "7",
        8 => "8",
        9 => "9",
        10 => if upper { "A" } else { "a" },
        11 => if upper { "B" } else { "b" },
        12 => if upper { "C" } else { "c" },
        13 => if upper { "D" } else { "d" },
        14 => if upper { "E" } else { "e" },
        _ => if upper { "F" } else { "f" },
    };
    s
}

/// Appends `value` in hexadecimal to `text`, at least `width` digits wide.
pub fn push_hex(text: &mut String, value: u16, width: u8, upper: bool)
    ensures
        final(text)@ == old(text)@ + hex(value as nat, width as nat, upper),
    decreases value, width,
{
    if value < 16 && width <= 1 {
        text.append(hex_digit_str(value as u8, upper));
    } else {
        let rest: u8 = if width > 0 { width - 1 } else { 0 };
        push_hex(text, value / 16, rest, upper);
        text.append(hex_digit_str((value % 16) as u8, upper));
    }
}

/// `text`, followed by as many spaces as it takes to make it `width`
/// characters long.
pub open spec fn left_aligned(text: Seq<char>, width: nat) -> Seq<char> {
    if text.len() >= width {
        text
    } else {
        text + Seq::new((width - text.len()) as nat, |i: int| ' ')
    }
}

/// `text` padded with spaces on the right to at least `width` characters.
pub fn pad_right(text: &str, width: usize) -> (padded: String)
    ensures
        padded@ == left_aligned(text@, width as nat),
{
    let mut padded = String::from_str(text);
    let mut length: usize = text.unicode_len();
    proof {
        reveal_strlit(" ");
    }
    while length < width
        invariant
            text@.len() <= length,
            length == text@.len() || length <= width,
            padded@ == text@ + Seq::new((length - text@.len()) as nat, |i: int| ' '),
            " "@ == seq![' '],
        decreases width - length,
    {
        padded.append(" ");
        length += 1;
    }
    padded
}

} // verus!
