//! The parts of string handling that the verifier's library leaves open.

use vstd::prelude::*;

verus! {

/// Equality of string slices: `str`'s own `==` compares their characters.
pub assume_specification[ <str as PartialEq>::eq ](left: &str, right: &str) -> (res: bool)
    ensures
        res == (left@ == right@),
;

/// What `Debug` prints for a string: the text in double quotes, with the escapes
/// that the standard library chooses.
pub uninterp spec fn debug_text(text: Seq<char>) -> Seq<char>;

/// The decimal digits of a natural number, without leading zeros.
pub open spec fn decimal_digits(number: nat) -> Seq<char>
    decreases number,
{
    let digit = (0x30 + number % 10) as char;
    if number < 10 {
        seq![digit]
    } else {
        decimal_digits(number / 10).push(digit)
    }
}

/// An integer in decimal, with a minus sign where it is negative.
pub open spec fn decimal(number: int) -> Seq<char> {
    if number < 0 {
        seq!['-'] + decimal_digits((-number) as nat)
    } else {
        decimal_digits(number as nat)
    }
}

/// `Debug` of a string slice, through `format!`. The outcome is a function of
/// the text alone.
#[verifier::external_body]
pub(crate) fn debug_string(text: &str) -> (res: String)
    ensures
        res@ == debug_text(text@),
{
    format!("{text:?}")
}

fn digit_text(digit: u64) -> (res: &'static str)
    requires
        digit < 10,
    ensures
        res@ == seq![(0x30 + digit) as char],
{
    proof {
        reveal_strlit("0");
        reveal_strlit("1");
        reveal_strlit("2");
        reveal_strlit("3");
        reveal_strlit("4");
        reveal_strlit("5");
        reveal_strlit("6");
        reveal_strlit("7");
        reveal_strlit("8");
        reveal_strlit("9");
    }
    match digit {
        0 => "0",
        1 => "1",
        2 => "2",
        3 => "3",
        4 => "4",
        5 => "5",
        6 => "6",
        7 => "7",
        8 => "8",
        _ => "9",
    }
}

fn digits_string(number: u64) -> (res: String)
    ensures
        res@ == decimal_digits(number as nat),
    decreases number,
{
    let last = digit_text(number % 10);
    if number < 10 {
        last.to_owned()
    } else {
        let text = digits_string(number / 10).concat(last);
        assert(text@ =~= decimal_digits(number as nat));
        text
    }
}

/// An integer in decimal.
pub(crate) fn decimal_string(number: i64) -> (res: String)
    ensures
        res@ == decimal(number as int),
{
    if number < 0 {
        proof {
            reveal_strlit("-");
        }
        let magnitude: u64 = (-(number + 1)) as u64 + 1;
        let text = joined("-", digits_string(magnitude).as_str());
        assert(text@ =~= decimal(number as int));
        text
    } else {
        digits_string(number as u64)
    }
}

/// The second text after the first.
pub(crate) fn joined(first: &str, second: &str) -> (res: String)
    ensures
        res@ == first@ + second@,
{
    first.to_owned().concat(second)
}

} // verus!
