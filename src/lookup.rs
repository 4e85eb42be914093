//! A lookup that can fail: the first element of a possibly empty vector,
//! with a typed error in place of a crash, and the caller that reports
//! either outcome and carries on.
use vstd::prelude::*;
use crate::text::{decimal, push_decimal};

verus! {

/// The error of a lookup that found nothing.
#[derive(Clone, Copy, Debug, PartialEq, Eq, Structural)]
pub struct RazorSecureError;

/// The text of a `RazorSecureError`, ending in a line break.
pub open spec fn error_text() -> Seq<char> {
    "it must be Lewis' fault\n"@
}

impl RazorSecureError {
    /// The error's text.
    pub fn message(&self) -> (r: String)
        ensures
            r@ == error_text(),
    {
        String::from_str("it must be Lewis' fault\n")
    }
}

/// The first element of `vec`, or `RazorSecureError` when it is empty.
pub fn alex_get_first_or_a_default(vec: Vec<u32>) -> (r: Result<u32, RazorSecureError>)
    ensures
        vec@.len() > 0 <==> r is Ok,
        vec@.len() > 0 ==> r == Ok::<u32, RazorSecureError>(vec@[0]),
        vec@.len() == 0 ==> r == Err::<u32, RazorSecureError>(RazorSecureError),
{
    if vec.len() == 0 {
        Err(RazorSecureError)
    } else {
        Ok(vec[0])
    }
}

/// The line reported when a lookup fails.
pub open spec fn failure_line() -> Seq<char> {
    "Alex's function didn't work again, "@ + error_text()
}

/// The line reported when a lookup finds `x`.
pub open spec fn found_line(x: nat) -> Seq<char> {
    "Managed to get the first value "@ + decimal(x)
}

/// The line that reports the outcome of a lookup.
pub fn outcome_line(r: Result<u32, RazorSecureError>) -> (line: String)
    ensures
        r is Ok ==> line@ == found_line(r->Ok_0 as nat),
        r is Err ==> line@ == failure_line(),
{
    match r {
        Ok(x) => {
            let mut line = String::from_str("Managed to get the first value ");
            push_decimal(&mut line, x as u64);
            line
        },
        Err(e) => {
            let line = String::from_str("Alex's function didn't work again, ");
            let text = e.message();
            line.concat(text.as_str())
        },
    }
}

/// The lines of the walk-through: a lookup in an empty vector fails and
/// is reported, one in `[4, 3, 2, 1]` finds `4` and is reported.
pub open spec fn control_flow_lines() -> Seq<Seq<char>> {
    seq![failure_line(), found_line(4)]
}

/// Looks up the first element of an empty vector and of `[4, 3, 2, 1]`,
/// reporting each outcome, and returns the lines reported.
pub fn control_flow() -> (lines: Vec<String>)
    ensures
        lines@.map_values(|l: String| l@) == control_flow_lines(),
{
    let mut lines: Vec<String> = Vec::new();
    let empty: Vec<u32> = Vec::new();
    match alex_get_first_or_a_default(empty) {
        Ok(_) => {},
        Err(e) => {
            lines.push(outcome_line(Err(e)));
        },
    }
    let four = vec![4u32, 3, 2, 1];
    let found = alex_get_first_or_a_default(four);
    lines.push(outcome_line(found));
    assert(lines@.map_values(|l: String| l@) =~= control_flow_lines());
    lines
}

} // verus!
