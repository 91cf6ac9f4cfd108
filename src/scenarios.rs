//! The tour's scenarios, each reduced to the line of text it prints.
use vstd::prelude::*;

use crate::decimal::{decimal, push_decimal};

verus! {

/// The value of the mutable global counter that the tour reads.
pub const POINTS: i32 = 10;

/// A tagged medal: the variant says which field holds the value.
#[derive(Clone, Copy, Debug, PartialEq, Eq, Structural)]
pub enum Medal {
    Bronze(i32),
    Silver(i32),
    Gold(i32),
}

/// The value held by a bronze medal, and `None` for the other variants.
pub fn bronze_value(m: Medal) -> (r: Option<i32>)
    ensures
        r == (match m {
            Medal::Bronze(v) => Some(v),
            _ => None,
        }),
{
    if let Medal::Bronze(v) = m {
        Some(v)
    } else {
        None
    }
}

/// `prefix` followed by the base-ten text of `v`.
pub fn value_line(prefix: &str, v: i32) -> (r: String)
    ensures
        r@ == prefix@ + decimal(v as int),
{
    let mut s = String::from_str(prefix);
    push_decimal(&mut s, v);
    s
}

/// What the tour prints after checking a pointer for null: `p` is the
/// pointee's value, or `None` for a null pointer, which is never read.
pub fn pointer_line(p: Option<i32>) -> (r: String)
    ensures
        r@ == (match p {
            Some(v) => "SCENARIO 3: the value of ptrC is "@ + decimal(v as int),
            None => "SCENARIO 3: ptrC is null"@,
        }),
{
    match p {
        Some(v) => value_line("SCENARIO 3: the value of ptrC is ", v),
        None => String::from_str("SCENARIO 3: ptrC is null"),
    }
}

/// What the tour prints after matching a medal against the bronze variant.
pub fn medal_line(m: Medal) -> (r: String)
    ensures
        r@ == (match m {
            Medal::Bronze(v) => "SCENARIO 7: the value of win is "@ + decimal(v as int),
            _ => "SCENARIO 7: not a bronze"@,
        }),
{
    match bronze_value(m) {
        Some(v) => value_line("SCENARIO 7: the value of win is ", v),
        None => String::from_str("SCENARIO 7: not a bronze"),
    }
}

/// The line that the wrapped function prints for the value `a` it reads
/// through a pointer.
pub fn wrapped_line(a: i32) -> (r: String)
    ensures
        r@ == "the value of a is "@ + decimal(a as int),
{
    value_line("the value of a is ", a)
}

/// The lines that the tour prints, in order, one per step.
pub open spec fn transcript_lines() -> Seq<Seq<char>> {
    seq![
        "SCENARIO 1: the value of a is 10"@,
        "SCENARIO 2: the value of b is 10"@,
        "SCENARIO 3: ptrC is null"@,
        "SCENARIO 4: before wraps_unsafe_code() functionc all:"@,
        "the value of a is 10"@,
        "SCENARIO 4: after wraps_unsafe_code() functionc all:"@,
        "SCENARIO 5: the value of POINTS is 10"@,
        "SCENARIO 6: the value of win is 10"@,
        "SCENARIO 7: the value of win is 10"@,
    ]
}

/// The view of each line, in order.
pub open spec fn line_views(v: Seq<String>) -> Seq<Seq<char>> {
    v.map_values(|s: String| s@)
}

/// Every line that the tour prints, in order.
pub fn transcript() -> (r: Vec<String>)
    ensures
        line_views(r@) == transcript_lines(),
{
    let a: i32 = 10;
    let a_ref: &i32 = &a;
    let b: Box<i32> = Box::new(10);
    let pointer: Option<i32> = None;
    let win: i32 = 10;
    let medal = Medal::Bronze(10);

    let mut lines: Vec<String> = Vec::new();
    lines.push(value_line("SCENARIO 1: the value of a is ", *a_ref));
    lines.push(value_line("SCENARIO 2: the value of b is ", *b));
    lines.push(pointer_line(pointer));
    lines.push(String::from_str("SCENARIO 4: before wraps_unsafe_code() functionc all:"));
    lines.push(wrapped_line(a));
    lines.push(String::from_str("SCENARIO 4: after wraps_unsafe_code() functionc all:"));
    lines.push(value_line("SCENARIO 5: the value of POINTS is ", POINTS));
    lines.push(value_line("SCENARIO 6: the value of win is ", win));
    lines.push(medal_line(medal));
    proof {
        reveal_strlit("10");
        reveal_strlit("SCENARIO 1: the value of a is ");
        reveal_strlit("SCENARIO 1: the value of a is 10");
        reveal_strlit("SCENARIO 2: the value of b is ");
        reveal_strlit("SCENARIO 2: the value of b is 10");
        reveal_strlit("the value of a is ");
        reveal_strlit("the value of a is 10");
        reveal_strlit("SCENARIO 5: the value of POINTS is ");
        reveal_strlit("SCENARIO 5: the value of POINTS is 10");
        reveal_strlit("SCENARIO 6: the value of win is ");
        reveal_strlit("SCENARIO 6: the value of win is 10");
        reveal_strlit("SCENARIO 7: the value of win is ");
        reveal_strlit("SCENARIO 7: the value of win is 10");
        reveal_with_fuel(crate::decimal::digits, 2);
        assert(decimal(10) =~= "10"@);
        assert(lines@[0]@ =~= "SCENARIO 1: the value of a is 10"@);
        assert(lines@[1]@ =~= "SCENARIO 2: the value of b is 10"@);
        assert(lines@[2]@ =~= "SCENARIO 3: ptrC is null"@);
        assert(lines@[3]@ =~= "SCENARIO 4: before wraps_unsafe_code() functionc all:"@);
        assert(lines@[4]@ =~= "the value of a is 10"@);
        assert(lines@[5]@ =~= "SCENARIO 4: after wraps_unsafe_code() functionc all:"@);
        assert(lines@[6]@ =~= "SCENARIO 5: the value of POINTS is 10"@);
        assert(lines@[7]@ =~= "SCENARIO 6: the value of win is 10"@);
        assert(lines@[8]@ =~= "SCENARIO 7: the value of win is 10"@);
        assert(line_views(lines@) =~= transcript_lines());
    }
    lines
}

} // verus!
