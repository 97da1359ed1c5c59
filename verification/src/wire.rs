//! Wire-level model of an HTTP exchange: methods, status codes, completed
//! responses, and transport outcomes.

use vstd::prelude::*;
use vstd::string::StringExecFns;

verus! {

/// The character for one decimal digit.
pub open spec fn spec_digit(d: int) -> char {
    if d == 0 {
        '0'
    } else if d == 1 {
        '1'
    } else if d == 2 {
        '2'
    } else if d == 3 {
        '3'
    } else if d == 4 {
        '4'
    } else if d == 5 {
        '5'
    } else if d == 6 {
        '6'
    } else if d == 7 {
        '7'
    } else if d == 8 {
        '8'
    } else {
        '9'
    }
}

/// The decimal rendering of a non-negative number, most significant digit
/// first, without leading zeroes (except for zero itself).
pub open spec fn spec_decimal(n: int) -> Seq<char>
    decreases n,
{
    if n < 10 {
        seq![spec_digit(n)]
    } else {
        spec_decimal(n / 10).push(spec_digit(n % 10))
    }
}

fn digit_str(d: u16) -> (r: &'static str)
    requires
        d < 10,
    ensures
        r@ == seq![spec_digit(d as int)],
{
    proof {
        reveal_strlit("0");
        reveal_strlit("1");
        reveal_strlit("2");
        reveal_strlit("3");
        reveal_strlit("4");
        reveal_strlit("5");
        reveal_strlit("6");
        reveal_strlit("7");
        reveal_strlit("8");
        reveal_strlit("9");
    }
    let r: &'static str = match d {
        0 => "0",
        1 => "1",
        2 => "2",
        3 => "3",
        4 => "4",
        5 => "5",
        6 => "6",
        7 => "7",
        8 => "8",
        _ => "9",
    };
    proof {
        assert(r@ =~= seq![spec_digit(d as int)]);
    }
    r
}

/// An HTTP request method.
#[derive(Clone, Copy, PartialEq, Eq, Structural, Debug)]
pub enum Method {
    Get,
    Post,
    Put,
    Delete,
    Head,
    Options,
    Connect,
    Patch,
    Trace,
}

/// A three-digit HTTP status code.
#[derive(Clone, Copy, PartialEq, Eq, Structural, Debug)]
pub struct StatusCode(pub u16);

impl StatusCode {
    /// A status indicates success exactly when it lies in the 2xx range.
    pub open spec fn is_success_spec(self) -> bool {
        200 <= self.0 < 300
    }

    /// Whether this status indicates success.
    pub fn is_success(&self) -> (r: bool)
        ensures
            r == self.is_success_spec(),
    {
        200 <= self.0 && self.0 < 300
    }

    /// The decimal rendering of this status code.
    pub fn decimal_string(&self) -> (r: String)
        ensures
            r@ == spec_decimal(self.0 as int),
    {
        decimal_string_u16(self.0)
    }
}

fn decimal_string_u16(n: u16) -> (r: String)
    ensures
        r@ == spec_decimal(n as int),
    decreases n,
{
    if n < 10 {
        digit_str(n).to_owned()
    } else {
        let mut s = decimal_string_u16(n / 10);
        s.append(digit_str(n % 10));
        proof {
            assert(spec_decimal(n as int) =~= spec_decimal(n as int / 10) + seq![
                spec_digit(n as int % 10),
            ]);
        }
        s
    }
}

/// A completed transport response: the status line and the raw body bytes,
/// buffered so that classification and decoding each read them at most once.
pub struct Response {
    pub status: StatusCode,
    pub body: Vec<u8>,
}

/// What came of dispatching a built request through the transport.
pub enum TransportOutcome {
    /// The transport failed before producing a complete response
    /// (connection error, timeout, interrupted body).
    Failed,
    /// The transport produced a complete response.
    Completed(Response),
}

} // verus!
