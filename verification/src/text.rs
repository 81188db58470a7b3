//! Text helpers: comparing string slices and writing integers in decimal.

use vstd::prelude::*;
use vstd::string::StringExecFns;

verus! {

/// Whether two string slices hold the same characters.
pub fn str_eq(a: &str, b: &str) -> (same: bool)
    ensures
        same == (a@ == b@),
{
    let left = a.to_owned();
    let right = b.to_owned();
    left == right
}

/// The decimal digit `d` as text; digits above nine read as `9`.
pub open spec fn digit_text(d: int) -> Seq<char> {
    if d <= 0 {
        "0"@
    } else if d == 1 {
        "1"@
    } else if d == 2 {
        "2"@
    } else if d == 3 {
        "3"@
    } else if d == 4 {
        "4"@
    } else if d == 5 {
        "5"@
    } else if d == 6 {
        "6"@
    } else if d == 7 {
        "7"@
    } else if d == 8 {
        "8"@
    } else {
        "9"@
    }
}

/// The usual decimal numeral of `n`, without sign or leading zeros.
pub open spec fn decimal_text(n: nat) -> Seq<char>
    decreases n,
{
    if n < 10 {
        digit_text(n as int)
    } else {
        decimal_text(n / 10) + digit_text((n % 10) as int)
    }
}

/// The text of one decimal digit; digits above nine read as `9`.
pub fn digit(d: u8) -> (text: &'static str)
    ensures
        text@ == digit_text(d as int),
{
    if d == 0 {
        "0"
    } else if d == 1 {
        "1"
    } else if d == 2 {
        "2"
    } else if d == 3 {
        "3"
    } else if d == 4 {
        "4"
    } else if d == 5 {
        "5"
    } else if d == 6 {
        "6"
    } else if d == 7 {
        "7"
    } else if d == 8 {
        "8"
    } else {
        "9"
    }
}

/// Writes `n` in decimal.
pub fn decimal(n: u64) -> (text: String)
    ensures
        text@ == decimal_text(n as nat),
    decreases n,
{
    if n < 10 {
        String::from_str(digit(n as u8))
    } else {
        let mut text = decimal(n / 10);
        text.append(digit((n % 10) as u8));
        text
    }
}

/// A count of tenths as text: the whole part, then a point and one digit
/// unless that digit is zero.
pub open spec fn tenths_text(n: nat) -> Seq<char> {
    if n % 10 == 0 {
        decimal_text(n / 10)
    } else {
        decimal_text(n / 10) + "."@ + digit_text((n % 10) as int)
    }
}

/// Writes a count of tenths with at most one decimal place.
pub fn tenths(n: u64) -> (text: String)
    ensures
        text@ == tenths_text(n as nat),
{
    let mut text = decimal(n / 10);
    if n % 10 != 0 {
        text.append(".");
        text.append(digit((n % 10) as u8));
    }
    text
}

} // verus!
