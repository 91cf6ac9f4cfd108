//! Decimal rendering of machine integers.
use vstd::prelude::*;

verus! {

/// The character of a single decimal digit.
pub open spec fn digit_char(d: nat) -> char
    recommends
        d < 10,
{
    if d == 0 {
        '0'
    } else if d == 1 {
        '1'
    } else if d == 2 {
        '2'
    } else if d == 3 {
        '3'
    } else if d == 4 {
        '4'
    } else if d == 5 {
        '5'
    } else if d == 6 {
        '6'
    } else if d == 7 {
        '7'
    } else if d == 8 {
        '8'
    } else {
        '9'
    }
}

/// The digits of `n` in base ten, most significant first, with no leading zeros.
pub open spec fn digits(n: nat) -> Seq<char>
    decreases n,
{
    if n < 10 {
        seq![digit_char(n)]
    } else {
        digits(n / 10).push(digit_char(n % 10))
    }
}

/// The text of `i` in base ten, with a leading `-` when it is negative.
pub open spec fn decimal(i: int) -> Seq<char> {
    if i < 0 {
        seq!['-'] + digits((-i) as nat)
    } else {
        digits(i as nat)
    }
}

/// The one-character string literal for the digit `d`.
fn digit_str(d: u32) -> (r: &'static str)
    requires
        d < 10,
    ensures
        r@ == seq![digit_char(d as nat)],
{
    proof {
        reveal_strlit("0");
        reveal_strlit("1");
        reveal_strlit("2");
        reveal_strlit("3");
        reveal_strlit("4");
        reveal_strlit("5");
        reveal_strlit("6");
        reveal_strlit("7");
        reveal_strlit("8");
        reveal_strlit("9");
    }
    if d == 0 {
        "0"
    } else if d == 1 {
        "1"
    } else if d == 2 {
        "2"
    } else if d == 3 {
        "3"
    } else if d == 4 {
        "4"
    } else if d == 5 {
        "5"
    } else if d == 6 {
        "6"
    } else if d == 7 {
        "7"
    } else if d == 8 {
        "8"
    } else {
        "9"
    }
}

/// Appends the base-ten digits of `n` to `s`.
pub(crate) fn push_digits(s: &mut String, n: u32)
    ensures
        final(s)@ == old(s)@ + digits(n as nat),
    decreases n,
{
    if n < 10 {
        s.append(digit_str(n));
    } else {
        push_digits(s, n / 10);
        s.append(digit_str(n % 10));
        assert(digits(n as nat) == digits((n / 10) as nat).push(digit_char((n % 10) as nat)));
    }
}

/// Appends the base-ten text of `i` to `s`, sign included.
pub fn push_decimal(s: &mut String, i: i32)
    ensures
        final(s)@ == old(s)@ + decimal(i as int),
{
    if i < 0 {
        s.append("-");
        proof {
            reveal_strlit("-");
        }
        let magnitude: u32 = if i == i32::MIN {
            2147483648u32
        } else {
            (-i) as u32
        };
        push_digits(s, magnitude);
    } else {
        push_digits(s, i as u32);
    }
}

/// The base-ten text of `i`, sign included.
pub fn to_decimal(i: i32) -> (r: String)
    ensures
        r@ == decimal(i as int),
{
    let mut s = String::new();
    push_decimal(&mut s, i);
    s
}

} // verus!
