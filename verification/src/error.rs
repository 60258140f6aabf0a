//! Errors reported by failed remote calls, and their textual form.

use vstd::prelude::*;
use vstd::string::StringExecFns;

verus! {

/// The numeric code and message text with which a remote call failed,
/// exactly as the transport layer or the rejecting peer reported them.
/// Transport failures and explicit rejections share this one shape.
pub struct CallError {
    pub code: u32,
    pub message: String,
}

/// The character standing for a single decimal digit.
pub open spec fn digit_char(d: nat) -> char {
    if d == 0 {
        '0'
    } else if d == 1 {
        '1'
    } else if d == 2 {
        '2'
    } else if d == 3 {
        '3'
    } else if d == 4 {
        '4'
    } else if d == 5 {
        '5'
    } else if d == 6 {
        '6'
    } else if d == 7 {
        '7'
    } else if d == 8 {
        '8'
    } else {
        '9'
    }
}

/// The decimal form of a natural number, most significant digit first,
/// with no leading zeros (zero itself is the single digit `0`).
pub open spec fn dec_digits(n: nat) -> Seq<char>
    decreases n,
{
    if n < 10 {
        seq![digit_char(n)]
    } else {
        dec_digits(n / 10) + seq![digit_char(n % 10)]
    }
}

/// The full line reported to the caller for a failed remote call.
pub open spec fn error_text(code: u32, message: Seq<char>) -> Seq<char> {
    "An error happened during the call: "@ + dec_digits(code as nat) + ": "@ + message
}

/// The one-character string for a single decimal digit.
fn digit_str(d: u32) -> (r: &'static str)
    requires
        d < 10,
    ensures
        r@ == seq![digit_char(d as nat)],
{
    proof {
        reveal_strlit("0");
        reveal_strlit("1");
        reveal_strlit("2");
        reveal_strlit("3");
        reveal_strlit("4");
        reveal_strlit("5");
        reveal_strlit("6");
        reveal_strlit("7");
        reveal_strlit("8");
        reveal_strlit("9");
    }
    let r: &'static str = if d == 0 {
        "0"
    } else if d == 1 {
        "1"
    } else if d == 2 {
        "2"
    } else if d == 3 {
        "3"
    } else if d == 4 {
        "4"
    } else if d == 5 {
        "5"
    } else if d == 6 {
        "6"
    } else if d == 7 {
        "7"
    } else if d == 8 {
        "8"
    } else {
        "9"
    };
    proof {
        assert(r@ =~= seq![digit_char(d as nat)]);
    }
    r
}

/// Renders a number in decimal, matching `dec_digits`.
pub fn decimal_string(n: u32) -> (r: String)
    ensures
        r@ == dec_digits(n as nat),
    decreases n,
{
    if n < 10 {
        String::from_str(digit_str(n))
    } else {
        let mut s = decimal_string(n / 10);
        s.append(digit_str(n % 10));
        proof {
            assert(s@ =~= dec_digits(n as nat));
        }
        s
    }
}

impl CallError {
    /// The text this failure presents to the caller.
    pub fn render(&self) -> (r: String)
        ensures
            r@ == error_text(self.code, self.message@),
    {
        let mut s = String::from_str("An error happened during the call: ");
        let digits = decimal_string(self.code);
        s.append(digits.as_str());
        s.append(": ");
        s.append(self.message.as_str());
        proof {
            assert(s@ =~= error_text(self.code, self.message@));
        }
        s
    }
}

} // verus!
