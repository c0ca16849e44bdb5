//! Structured errors raised by the const-expression evaluator.
//!
//! Every recoverable failure carries a kind, an optional source location
//! (`Location::Unknown` for errors raised purely from compile-time
//! evaluation) and a rendered message naming the offending value.

use vstd::prelude::*;

verus! {

/// The taxonomy of recoverable evaluator errors.
#[derive(Debug, Clone, Copy, PartialEq, Eq, Structural)]
pub enum ErrorKind {
    /// A value of the wrong kind was passed where a type/class/trait was required.
    TypeError,
    /// A required named argument was not supplied.
    KeyError,
    /// A numeric index outside a container's bound, or a dictionary key not present.
    IndexError,
}

/// Source position attached to an error, when one exists.
#[derive(Debug, Clone, Copy, PartialEq, Eq, Structural)]
pub enum Location {
    /// No originating source span (constant-function evaluation).
    Unknown,
    /// A single source line.
    Line(u64),
    /// A full span: begin line/column and end line/column.
    Span(u64, u64, u64, u64),
}

/// A structured evaluator error: kind, optional location, rendered message.
#[derive(Debug, Clone)]
pub struct ErrorCore {
    pub kind: ErrorKind,
    pub loc: Location,
    pub msg: String,
}

impl ErrorCore {
    /// Builds an error from its parts.
    pub fn new(kind: ErrorKind, loc: Location, msg: String) -> (r: ErrorCore)
        ensures
            r.kind == kind,
            r.loc == loc,
            r.msg@ == msg@,
    {
        ErrorCore { kind, loc, msg }
    }
}

/// The decimal digit character for `d`, which must be below ten.
pub open spec fn digit_char(d: nat) -> char {
    if d == 0 {
        '0'
    } else if d == 1 {
        '1'
    } else if d == 2 {
        '2'
    } else if d == 3 {
        '3'
    } else if d == 4 {
        '4'
    } else if d == 5 {
        '5'
    } else if d == 6 {
        '6'
    } else if d == 7 {
        '7'
    } else if d == 8 {
        '8'
    } else {
        '9'
    }
}

/// The decimal rendering of a natural number, most significant digit first.
pub open spec fn dec_digits(n: nat) -> Seq<char>
    decreases n,
{
    if n < 10 {
        seq![digit_char(n)]
    } else {
        dec_digits(n / 10) + seq![digit_char(n % 10)]
    }
}

/// The one-character string for a decimal digit.
fn digit_str(d: u64) -> (r: &'static str)
    requires
        d < 10,
    ensures
        r@ == seq![digit_char(d as nat)],
{
    proof {
        reveal_strlit("0");
        reveal_strlit("1");
        reveal_strlit("2");
        reveal_strlit("3");
        reveal_strlit("4");
        reveal_strlit("5");
        reveal_strlit("6");
        reveal_strlit("7");
        reveal_strlit("8");
        reveal_strlit("9");
    }
    if d == 0 {
        "0"
    } else if d == 1 {
        "1"
    } else if d == 2 {
        "2"
    } else if d == 3 {
        "3"
    } else if d == 4 {
        "4"
    } else if d == 5 {
        "5"
    } else if d == 6 {
        "6"
    } else if d == 7 {
        "7"
    } else if d == 8 {
        "8"
    } else {
        "9"
    }
}

/// Renders a natural number in decimal.
pub fn nat_to_string(n: u64) -> (r: String)
    ensures
        r@ == dec_digits(n as nat),
    decreases n,
{
    if n < 10 {
        digit_str(n).to_owned()
    } else {
        let mut s = nat_to_string(n / 10);
        s.append(digit_str(n % 10));
        s
    }
}

} // verus!
