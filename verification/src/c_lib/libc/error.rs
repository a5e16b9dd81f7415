//! The last-error slot and the meaning of its codes.

use crate::lib_alloc::heap::Heap;
use vstd::prelude::*;
use vstd::string::*;

verus! {

/// The operation succeeded.
pub const OK: i32 = 0;

/// The operation failed for no more specific reason.
pub const FAILED: i32 = 1;

/// Memory was found corrupted.
pub const MEMORY_CORRUPTION: i32 = 2;

/// The CPU raised an exception.
pub const CPU_EXCEPTION: i32 = 3;

/// A process failed.
pub const PROCESS_FAILURE: i32 = 4;

/// Capacity exhausted, a zero-size request, or a size computation that
/// overflowed.
pub const ALLOCATION_FAILURE: i32 = 5;

/// An argument was not acceptable.
pub const INVALID_INPUT: i32 = 6;

/// A feature that is needed is missing.
pub const MISSING_FEATURE: i32 = 7;

/// An error code.
#[derive(Debug, Clone, Copy, PartialEq, Eq, Structural)]
pub struct ErrCode(pub i32);

/// The meaning of an error code: defined for 0 to 7, undefined beyond.
pub open spec fn meaning_of(code: int) -> Option<Seq<char>> {
    if code == 0 {
        Some("Ok"@)
    } else if code == 1 {
        Some("Failed"@)
    } else if code == 2 {
        Some("Memory Corruption"@)
    } else if code == 3 {
        Some("CPU Exception"@)
    } else if code == 4 {
        Some("Process Failure"@)
    } else if code == 5 {
        Some("Allocation Failure"@)
    } else if code == 6 {
        Some("Invalid Input"@)
    } else if code == 7 {
        Some("Missing Feature"@)
    } else {
        None
    }
}

impl ErrCode {
    /// Returns the meaning of the code, if it has one.
    pub fn meaning(&self) -> (text: Option<&'static str>)
        ensures
            text is Some <==> 0 <= self.0 <= 7,
            text is Some <==> meaning_of(self.0 as int) is Some,
            text is Some ==> text.unwrap()@ == meaning_of(self.0 as int).unwrap(),
    {
        match self.0 {
            0 => Some("Ok"),
            1 => Some("Failed"),
            2 => Some("Memory Corruption"),
            3 => Some("CPU Exception"),
            4 => Some("Process Failure"),
            5 => Some("Allocation Failure"),
            6 => Some("Invalid Input"),
            7 => Some("Missing Feature"),
            _ => None,
        }
    }

    /// The code as a number.
    pub fn code(&self) -> (code: i32)
        ensures
            code == self.0,
    {
        self.0
    }
}

impl Default for ErrCode {
    fn default() -> (code: ErrCode)
        ensures
            code == ErrCode(0),
    {
        ErrCode(0)
    }
}

/// Sets the last error of `heap`'s execution context; nothing else changes.
pub fn set_errno(heap: &mut Heap, e: i32)
    ensures
        final(heap)@ == old(heap)@.with_errno(e as int),
        old(heap).wf() ==> final(heap).wf(),
{
    heap.set_errno(e);
}

/// The last error of `heap`'s execution context. Reading it changes nothing.
pub fn get_errno(heap: &Heap) -> (code: ErrCode)
    ensures
        code.0 == heap@.errno,
{
    ErrCode(heap.errno())
}

/// The text of one decimal digit.
pub open spec fn digit_text(d: int) -> Seq<char> {
    if d == 0 {
        "0"@
    } else if d == 1 {
        "1"@
    } else if d == 2 {
        "2"@
    } else if d == 3 {
        "3"@
    } else if d == 4 {
        "4"@
    } else if d == 5 {
        "5"@
    } else if d == 6 {
        "6"@
    } else if d == 7 {
        "7"@
    } else if d == 8 {
        "8"@
    } else {
        "9"@
    }
}

/// The decimal digits of a natural number, most significant first, without
/// leading zeros.
pub open spec fn digits(n: nat) -> Seq<char>
    decreases n,
{
    if n < 10 {
        digit_text(n as int)
    } else {
        digits(n / 10) + digit_text((n % 10) as int)
    }
}

/// The decimal text of a number: its digits, after a minus sign where it is
/// negative.
pub open spec fn decimal(x: int) -> Seq<char> {
    if x < 0 {
        "-"@ + digits((-x) as nat)
    } else {
        digits(x as nat)
    }
}

fn digit_str(d: u64) -> (text: &'static str)
    requires
        d < 10,
    ensures
        text@ == digit_text(d as int),
{
    match d {
        0 => "0",
        1 => "1",
        2 => "2",
        3 => "3",
        4 => "4",
        5 => "5",
        6 => "6",
        7 => "7",
        8 => "8",
        _ => "9",
    }
}

/// The decimal text of a number without a sign.
pub fn render_digits(n: u64) -> (text: String)
    ensures
        text@ == digits(n as nat),
    decreases n,
{
    if n < 10 {
        String::from_str(digit_str(n))
    } else {
        let mut text = render_digits(n / 10);
        text.append(digit_str(n % 10));
        text
    }
}

/// The decimal text of `x`.
pub fn render_i32(x: i32) -> (text: String)
    ensures
        text@ == decimal(x as int),
{
    if x < 0 {
        let magnitude = (-(x as i64)) as u64;
        let digits = render_digits(magnitude);
        let mut text = String::from_str("-");
        text.append(digits.as_str());
        text
    } else {
        render_digits(x as u64)
    }
}

/// The diagnostic line for `code` under the context `prefix`:
/// `"<prefix>: <meaning> (os error <code>)"`, without the meaning and its
/// trailing space where the code has none.
pub open spec fn perror_text(prefix: Seq<char>, code: int) -> Seq<char> {
    match meaning_of(code) {
        Some(m) => prefix + ": "@ + m + " (os error "@ + decimal(code) + ")"@,
        None => prefix + ": (os error "@ + decimal(code) + ")"@,
    }
}

/// The diagnostic line for `code` under the context `prefix`.
pub fn format_error(prefix: &str, code: ErrCode) -> (line: String)
    ensures
        line@ == perror_text(prefix@, code.0 as int),
{
    let digits = render_i32(code.0);
    let mut line = String::from_str(prefix);
    match code.meaning() {
        Some(m) => {
            line.append(": ");
            line.append(m);
            line.append(" (os error ");
        },
        None => {
            line.append(": (os error ");
        },
    }
    line.append(digits.as_str());
    line.append(")");
    line
}

/// The diagnostic line for the last error of `heap`'s execution context, to be
/// written to the diagnostic sink.
pub fn perror(heap: &Heap, text: &str) -> (line: String)
    ensures
        line@ == perror_text(text@, heap@.errno),
{
    format_error(text, get_errno(heap))
}

} // verus!
