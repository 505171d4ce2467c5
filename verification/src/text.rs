//! Numbers as text.

use vstd::prelude::*;
use vstd::string::StringExecFns;

verus! {

/// The digit that stands for `value`, which is below sixteen.
pub open spec fn digit(value: int) -> Seq<char> {
    if value == 0 {
        "0"@
    } else if value == 1 {
        "1"@
    } else if value == 2 {
        "2"@
    } else if value == 3 {
        "3"@
    } else if value == 4 {
        "4"@
    } else if value == 5 {
        "5"@
    } else if value == 6 {
        "6"@
    } else if value == 7 {
        "7"@
    } else if value == 8 {
        "8"@
    } else if value == 9 {
        "9"@
    } else if value == 10 {
        "a"@
    } else if value == 11 {
        "b"@
    } else if value == 12 {
        "c"@
    } else if value == 13 {
        "d"@
    } else if value == 14 {
        "e"@
    } else {
        "f"@
    }
}

/// The decimal digits of a natural number, without leading zeros.
pub open spec fn decimal_digits(value: nat) -> Seq<char>
    decreases value,
{
    if value < 10 {
        digit(value as int)
    } else {
        decimal_digits(value / 10) + digit((value % 10) as int)
    }
}

/// A number in decimal notation.
pub open spec fn decimal(value: int) -> Seq<char> {
    if value < 0 {
        "-"@ + decimal_digits((-value) as nat)
    } else {
        decimal_digits(value as nat)
    }
}

/// The last `width` hexadecimal digits of a number, leading zeros included.
pub open spec fn hexadecimal(value: nat, width: nat) -> Seq<char>
    decreases width,
{
    if width == 0 {
        Seq::empty()
    } else {
        hexadecimal(value / 16, (width - 1) as nat) + digit((value % 16) as int)
    }
}

/// The digit that stands for `value`.
fn digit_text(value: u32) -> (text: &'static str)
    requires
        value < 16,
    ensures
        text@ == digit(value as int),
{
    match value {
        0 => "0",
        1 => "1",
        2 => "2",
        3 => "3",
        4 => "4",
        5 => "5",
        6 => "6",
        7 => "7",
        8 => "8",
        9 => "9",
        10 => "a",
        11 => "b",
        12 => "c",
        13 => "d",
        14 => "e",
        _ => "f",
    }
}

/// Appends the decimal digits of `value`.
fn append_digits(text: &mut String, value: u32)
    ensures
        final(text)@ == old(text)@ + decimal_digits(value as nat),
    decreases value,
{
    if value >= 10 {
        append_digits(text, value / 10);
    }
    text.append(digit_text(value % 10));
}

/// Appends `value` in decimal notation.
pub fn append_decimal(text: &mut String, value: i32)
    ensures
        final(text)@ == old(text)@ + decimal(value as int),
{
    if value < 0 {
        text.append("-");
        append_digits(text, (-(value as i64)) as u32);
    } else {
        append_digits(text, value as u32);
    }
}

/// Appends the last `width` hexadecimal digits of `value`.
pub fn append_hexadecimal(text: &mut String, value: u32, width: u32)
    ensures
        final(text)@ == old(text)@ + hexadecimal(value as nat, width as nat),
    decreases width,
{
    if width > 0 {
        append_hexadecimal(text, value / 16, width - 1);
        text.append(digit_text(value % 16));
    }
}

} // verus!
