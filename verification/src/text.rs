//! Numbers as text.

use vstd::prelude::*;

verus! {

/// The character of the digit `d`.
pub open spec fn digit_char(d: nat) -> char
    recommends
        d < 10,
{
    (('0' as u8) + d) as u8 as char
}

/// The digit `d` as text.
pub open spec fn digit_text(d: nat) -> Seq<char> {
    seq![digit_char(d)]
}

/// The number `n` in decimal digits, without leading zeros.
pub open spec fn decimal_text(n: nat) -> Seq<char>
    decreases n,
{
    if n < 10 {
        digit_text(n)
    } else {
        decimal_text(n / 10) + digit_text(n % 10)
    }
}

/// A time of `ms` milliseconds in seconds, with three decimal places.
pub open spec fn seconds_text(ms: nat) -> Seq<char> {
    decimal_text(ms / 1000) + "."@ + digit_text(ms / 100 % 10) + digit_text(ms / 10 % 10)
        + digit_text(ms % 10)
}

fn digit(d: u64) -> (r: &'static str)
    requires
        d < 10,
    ensures
        r@ == digit_text(d as nat),
{
    proof {
        reveal_strlit("0");
        reveal_strlit("1");
        reveal_strlit("2");
        reveal_strlit("3");
        reveal_strlit("4");
        reveal_strlit("5");
        reveal_strlit("6");
        reveal_strlit("7");
        reveal_strlit("8");
        reveal_strlit("9");
    }
    let r = if d == 0 {
        "0"
    } else if d == 1 {
        "1"
    } else if d == 2 {
        "2"
    } else if d == 3 {
        "3"
    } else if d == 4 {
        "4"
    } else if d == 5 {
        "5"
    } else if d == 6 {
        "6"
    } else if d == 7 {
        "7"
    } else if d == 8 {
        "8"
    } else {
        "9"
    };
    assert(r@ =~= digit_text(d as nat));
    r
}

/// Writes `n` in decimal digits.
pub fn decimal(n: u64) -> (r: String)
    ensures
        r@ == decimal_text(n as nat),
    decreases n,
{
    if n < 10 {
        digit(n).to_owned()
    } else {
        let mut r = decimal(n / 10);
        r.append(digit(n % 10));
        r
    }
}

/// Writes a time of `ms` milliseconds in seconds, with three decimal places.
pub fn seconds(ms: u64) -> (r: String)
    ensures
        r@ == seconds_text(ms as nat),
{
    let mut r = decimal(ms / 1000);
    r.append(".");
    r.append(digit(ms / 100 % 10));
    r.append(digit(ms / 10 % 10));
    r.append(digit(ms % 10));
    r
}

} // verus!
