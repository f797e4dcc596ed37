//! Numbers written out in decimal.

use vstd::prelude::*;
use vstd::string::StringExecFns;

verus! {

/// The digit `digit` as text, for a digit below ten.
pub open spec fn digit_text(digit: nat) -> Seq<char>
    recommends
        digit < 10,
{
    if digit == 0 {
        "0"@
    } else if digit == 1 {
        "1"@
    } else if digit == 2 {
        "2"@
    } else if digit == 3 {
        "3"@
    } else if digit == 4 {
        "4"@
    } else if digit == 5 {
        "5"@
    } else if digit == 6 {
        "6"@
    } else if digit == 7 {
        "7"@
    } else if digit == 8 {
        "8"@
    } else {
        "9"@
    }
}

/// A natural number in decimal, without leading zeros.
pub open spec fn decimal_text(number: nat) -> Seq<char>
    decreases number,
{
    if number < 10 {
        digit_text(number)
    } else {
        decimal_text(number / 10) + digit_text(number % 10)
    }
}

/// An integer in decimal, with a minus sign where it is negative.
pub open spec fn signed_text(number: int) -> Seq<char> {
    if number < 0 {
        "-"@ + decimal_text((-number) as nat)
    } else {
        decimal_text(number as nat)
    }
}

/// One digit as text.
fn digit(value: u128) -> (text: &'static str)
    requires
        value < 10,
    ensures
        text@ == digit_text(value as nat),
{
    if value == 0 {
        "0"
    } else if value == 1 {
        "1"
    } else if value == 2 {
        "2"
    } else if value == 3 {
        "3"
    } else if value == 4 {
        "4"
    } else if value == 5 {
        "5"
    } else if value == 6 {
        "6"
    } else if value == 7 {
        "7"
    } else if value == 8 {
        "8"
    } else {
        "9"
    }
}

/// Writes a number out in decimal.
pub fn decimal(number: u128) -> (text: String)
    ensures
        text@ == decimal_text(number as nat),
    decreases number,
{
    if number < 10 {
        String::from_str(digit(number))
    } else {
        let mut text = decimal(number / 10);
        text.append(digit(number % 10));
        text
    }
}

/// Writes a signed number out in decimal.
pub fn signed(number: i64) -> (text: String)
    ensures
        text@ == signed_text(number as int),
{
    if number < 0 {
        let magnitude: u128 = (-(number as i128)) as u128;
        let mut text = String::from_str("-");
        let digits = decimal(magnitude);
        text.append(digits.as_str());
        text
    } else {
        decimal(number as u128)
    }
}

} // verus!
