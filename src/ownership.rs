//! Ownership in a few lines: a value moved into a function, one borrowed
//! by it, and a `Copy` integer passed twice. Each function gives the line
//! that is printed for its argument.
use vstd::prelude::*;
use crate::text::{decimal, push_decimal};

verus! {

/// The line printed for a value whose text is `s`.
pub open spec fn number_line(s: Seq<char>) -> Seq<char> {
    "number: "@ + s
}

/// The text that the ownership walk-through moves and borrows.
pub open spec fn greeting() -> Seq<char> {
    "Hello"@
}

/// The integer that the ownership walk-through copies.
pub const ANSWER: u16 = 42;

/// The lines of the ownership walk-through, in order: the greeting moved
/// once, borrowed twice, the integer copied three times, then the greeting
/// borrowed and moved again.
pub open spec fn single_owner_lines() -> Seq<Seq<char>> {
    let g = number_line(greeting());
    let n = number_line(decimal(ANSWER as nat));
    seq![g, g, g, n, n, n, g, g]
}

/// The line for an integer, which is copied into the call.
pub fn format_u16(num: u16) -> (r: String)
    ensures
        r@ == number_line(decimal(num as nat)),
{
    let mut line = String::from_str("number: ");
    push_decimal(&mut line, num as u64);
    line
}

/// The line for a string that the call takes ownership of.
pub fn format_string(num: String) -> (r: String)
    ensures
        r@ == number_line(num@),
{
    let line = String::from_str("number: ");
    line.concat(num.as_str())
}

/// The line for a string that the call only borrows.
pub fn format_borrowed_string(num: &String) -> (r: String)
    ensures
        r@ == number_line(num@),
{
    let line = String::from_str("number: ");
    line.concat(num.as_str())
}

/// Moves, borrows and copies values as the walk-through does, and returns
/// the lines it prints.
pub fn single_owner() -> (lines: Vec<String>)
    ensures
        lines@.map_values(|l: String| l@) == single_owner_lines(),
{
    let mut lines: Vec<String> = Vec::new();
    let owned_string = String::from_str("Hello");
    lines.push(format_string(owned_string));
    // The first string was moved; a new binding of the same name takes its place.
    let owned_string = String::from_str("Hello");
    lines.push(format_borrowed_string(&owned_string));
    lines.push(format_borrowed_string(&owned_string));
    let x: u16 = ANSWER;
    lines.push(format_u16(x));
    lines.push(format_u16(x));
    lines.push(format_u16(x));
    lines.push(format_borrowed_string(&owned_string));
    lines.push(format_string(owned_string));
    assert(lines@.map_values(|l: String| l@) =~= single_owner_lines());
    lines
}

} // verus!
