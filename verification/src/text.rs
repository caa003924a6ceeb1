//! Text helpers: comparing a string with a literal, and writing a number in decimal.

use vstd::prelude::*;
use vstd::string::*;

verus! {

/// The character that stands for the digit `d`, for `d` below ten.
pub open spec fn digit_char(d: nat) -> char {
    if d == 0 {
        '0'
    } else if d == 1 {
        '1'
    } else if d == 2 {
        '2'
    } else if d == 3 {
        '3'
    } else if d == 4 {
        '4'
    } else if d == 5 {
        '5'
    } else if d == 6 {
        '6'
    } else if d == 7 {
        '7'
    } else if d == 8 {
        '8'
    } else {
        '9'
    }
}

/// The decimal numeral of `n`: its digits, most significant first, with no
/// leading zero except for zero itself.
pub open spec fn decimal_text(n: nat) -> Seq<char>
    decreases n,
{
    if n < 10 {
        seq![digit_char(n)]
    } else {
        decimal_text(n / 10).push(digit_char(n % 10))
    }
}

/// Whether the string `s` reads exactly as `literal`.
pub fn text_is(s: &String, literal: &str) -> (same: bool)
    ensures
        same == (s@ == literal@),
{
    let other = literal.to_owned();
    *s == other
}

fn digit_text(d: u8) -> (t: &'static str)
    requires
        d < 10,
    ensures
        t@ == seq![digit_char(d as nat)],
{
    proof {
        reveal_strlit("0");
        reveal_strlit("1");
        reveal_strlit("2");
        reveal_strlit("3");
        reveal_strlit("4");
        reveal_strlit("5");
        reveal_strlit("6");
        reveal_strlit("7");
        reveal_strlit("8");
        reveal_strlit("9");
    }
    let t = match d {
        0 => "0",
        1 => "1",
        2 => "2",
        3 => "3",
        4 => "4",
        5 => "5",
        6 => "6",
        7 => "7",
        8 => "8",
        _ => "9",
    };
    assert(t@ =~= seq![digit_char(d as nat)]);
    t
}

/// Writes `n` in decimal.
pub fn to_decimal(n: u128) -> (s: String)
    ensures
        s@ == decimal_text(n as nat),
{
    let mut text = String::from_str(digit_text((n % 10) as u8));
    let mut rest: u128 = n / 10;
    while rest > 0
        invariant
            rest > 0 ==> decimal_text(n as nat) == decimal_text(rest as nat) + text@,
            rest == 0 ==> decimal_text(n as nat) == text@,
        decreases rest,
    {
        let digit = String::from_str(digit_text((rest % 10) as u8));
        let ghost before = text@;
        text = digit.concat(text.as_str());
        proof {
            let r = rest as nat;
            if r < 10 {
                assert(decimal_text(r) + before =~= text@);
            } else {
                assert(decimal_text(r / 10).push(digit_char(r % 10)) + before =~= decimal_text(
                    r / 10,
                ) + text@);
            }
        }
        rest = rest / 10;
    }
    text
}

} // verus!
