//! What the kernel reports when it stops on an error.

use vstd::prelude::*;
use vstd::string::*;

verus! {

/// The first line of the report: whether the kernel unwinds or aborts, and
/// where the error arose, if that is known.
pub open spec fn spec_header(location: Option<Seq<char>>, unwind: bool) -> Seq<char> {
    match location {
        Some(loc) => if unwind {
            "Unwinding panic caused at "@ + loc + ": "@
        } else {
            "abort: panic caused at "@ + loc + ": "@
        },
        None => if unwind {
            "Unwinding panic caused at unknown location: "@
        } else {
            "abort: panic caused at unknown location: "@
        },
    }
}

/// The first line of the report.
pub fn header(location: Option<&str>, unwind: bool) -> (line: String)
    ensures
        line@ == spec_header(
            match location {
                Some(loc) => Some(loc@),
                None => None,
            },
            unwind,
        ),
{
    match location {
        Some(loc) => {
            let mut line = if unwind {
                String::from_str("Unwinding panic caused at ")
            } else {
                String::from_str("abort: panic caused at ")
            };
            line.append(loc);
            line.append(": ");
            line
        },
        None => {
            if unwind {
                String::from_str("Unwinding panic caused at unknown location: ")
            } else {
                String::from_str("abort: panic caused at unknown location: ")
            }
        },
    }
}

/// The note on debug assertions that ends the report.
pub fn note(debug_assertions: bool) -> (line: &'static str)
    ensures
        line@ == if debug_assertions {
            "=> note: debug assertions are ON."@
        } else {
            "=> note: Debug assertions are OFF."@
        },
{
    if debug_assertions {
        "=> note: debug assertions are ON."
    } else {
        "=> note: Debug assertions are OFF."
    }
}

/// The advice that follows the note where debug assertions are off.
pub fn help(debug_assertions: bool) -> (line: Option<&'static str>)
    ensures
        line is Some <==> !debug_assertions,
        line matches Some(text) ==> text@
            == "=> help: It is recommended to use debug assertions when developing."@,
{
    if debug_assertions {
        None
    } else {
        Some("=> help: It is recommended to use debug assertions when developing.")
    }
}

} // verus!
