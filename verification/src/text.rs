//! Small verified helpers that render bounded integers as the decimal
//! fragments used inside display commands.
use vstd::prelude::*;

verus! {

/// The single decimal digit character for `d`.
pub open spec fn spec_digit(d: int) -> Seq<char> {
    if d == 0 {
        "0"@
    } else if d == 1 {
        "1"@
    } else if d == 2 {
        "2"@
    } else if d == 3 {
        "3"@
    } else if d == 4 {
        "4"@
    } else if d == 5 {
        "5"@
    } else if d == 6 {
        "6"@
    } else if d == 7 {
        "7"@
    } else if d == 8 {
        "8"@
    } else {
        "9"@
    }
}

pub fn digit_str(d: u8) -> (r: &'static str)
    requires
        d < 10,
    ensures
        r@ == spec_digit(d as int),
{
    match d {
        0 => "0",
        1 => "1",
        2 => "2",
        3 => "3",
        4 => "4",
        5 => "5",
        6 => "6",
        7 => "7",
        8 => "8",
        _ => "9",
    }
}

/// `n` rendered as exactly two digits, zero-padded on the left.
pub open spec fn spec_two_digits(n: int) -> Seq<char> {
    spec_digit(n / 10) + spec_digit(n % 10)
}

pub fn two_digits(n: u8) -> (r: String)
    requires
        n < 100,
    ensures
        r@ == spec_two_digits(n as int),
{
    let mut s = String::from_str(digit_str(n / 10));
    s.append(digit_str(n % 10));
    s
}

/// A whole-percent label in the range 0..=100, without leading zeros,
/// as `{:.0}` renders a rounded percentage.
pub open spec fn spec_percent_label(h: int) -> Seq<char> {
    if h >= 100 {
        "100"@
    } else if h >= 10 {
        spec_two_digits(h)
    } else {
        spec_digit(h)
    }
}

pub fn percent_label(h: u8) -> (r: String)
    requires
        h <= 100,
    ensures
        r@ == spec_percent_label(h as int),
{
    if h >= 100 {
        String::from_str("100")
    } else if h >= 10 {
        two_digits(h)
    } else {
        String::from_str(digit_str(h))
    }
}

/// A fraction given in hundredths, rendered with two decimal places the way
/// `{:.2}` renders a value in [0, 1]: `0.07`, `0.70`, `1.00`.
pub open spec fn spec_fraction(h: int) -> Seq<char> {
    if h >= 100 {
        "1.00"@
    } else {
        "0."@ + spec_two_digits(h)
    }
}

pub fn fraction_string(h: u8) -> (r: String)
    requires
        h <= 100,
    ensures
        r@ == spec_fraction(h as int),
{
    if h >= 100 {
        String::from_str("1.00")
    } else {
        let mut s = String::from_str("0.");
        let tail = two_digits(h);
        s.append(tail.as_str());
        s
    }
}

} // verus!
