//! The RESP value model: the kinds of encodable values, their framing rules,
//! and the capability that lets containers hold any encodable type uniformly.

use vstd::prelude::*;

mod array;
mod bulk_string;
mod command;
mod kind;
mod simple_string;

pub use array::elems_encoding;
pub use array::lemma_elems_encoding_push;
pub use array::Array;
pub use bulk_string::lemma_bulk_string_frame;
pub use bulk_string::BulkString;
pub use command::Command;
pub use kind::Kind;
pub use simple_string::lemma_simple_string_frame;
pub use simple_string::no_banned;
pub use simple_string::SimpleString;

verus! {

use vstd::string::StringExecFns;

/// The two-character frame terminator: a carriage return followed by a line
/// feed.
pub open spec fn crlf() -> Seq<char> {
    seq!['\r', '\n']
}

/// The length of a text in bytes (not characters): the length of its UTF-8
/// encoding.
pub open spec fn byte_len_of(s: Seq<char>) -> nat {
    vstd::utf8::encode_utf8(s).len()
}

/// The character a single decimal digit prints as.
pub open spec fn dec_digit(d: nat) -> char {
    if d == 0 {
        '0'
    } else if d == 1 {
        '1'
    } else if d == 2 {
        '2'
    } else if d == 3 {
        '3'
    } else if d == 4 {
        '4'
    } else if d == 5 {
        '5'
    } else if d == 6 {
        '6'
    } else if d == 7 {
        '7'
    } else if d == 8 {
        '8'
    } else {
        '9'
    }
}

/// The usual decimal rendering of a number: most significant digit first, no
/// leading zeros (zero itself prints as "0").
pub open spec fn dec_rep(n: nat) -> Seq<char>
    decreases n,
{
    if n < 10 {
        seq![dec_digit(n)]
    } else {
        dec_rep(n / 10) + seq![dec_digit(n % 10)]
    }
}

/// Every encodable RESP value can render itself to its exact wire frame.
pub trait Resp {
    /// The exact character sequence this value's frame consists of.
    spec fn encoding(&self) -> Seq<char>;

    /// Render the value to its RESP frame.
    fn encode(&self) -> (r: String)
        ensures
            r@ == self.encoding(),
    ;
}

/// The one domain error: the supplied text held a forbidden byte sequence.
/// The payload is the offending pattern itself.
#[derive(Debug)]
pub enum Error<'a> {
    BannedPatterns(&'a str),
}

impl<'a> Error<'a> {
    /// A human-readable description of the error.
    pub fn message(&self) -> (r: String)
        ensures
            (match self {
                Error::BannedPatterns(p) => r@ == "the value contains banned patterns: "@
                    + p@,
            }),
    {
        match self {
            Error::BannedPatterns(p) => String::from_str(
                "the value contains banned patterns: ",
            ).concat(p),
        }
    }
}

fn digit_str(d: usize) -> (r: &'static str)
    requires
        d < 10,
    ensures
        r@ == seq![dec_digit(d as nat)],
{
    proof {
        reveal_strlit("0");
        reveal_strlit("1");
        reveal_strlit("2");
        reveal_strlit("3");
        reveal_strlit("4");
        reveal_strlit("5");
        reveal_strlit("6");
        reveal_strlit("7");
        reveal_strlit("8");
        reveal_strlit("9");
    }
    if d == 0 {
        proof {
            assert("0"@ =~= seq![dec_digit(d as nat)]);
        }
        "0"
    } else if d == 1 {
        proof {
            assert("1"@ =~= seq![dec_digit(d as nat)]);
        }
        "1"
    } else if d == 2 {
        proof {
            assert("2"@ =~= seq![dec_digit(d as nat)]);
        }
        "2"
    } else if d == 3 {
        proof {
            assert("3"@ =~= seq![dec_digit(d as nat)]);
        }
        "3"
    } else if d == 4 {
        proof {
            assert("4"@ =~= seq![dec_digit(d as nat)]);
        }
        "4"
    } else if d == 5 {
        proof {
            assert("5"@ =~= seq![dec_digit(d as nat)]);
        }
        "5"
    } else if d == 6 {
        proof {
            assert("6"@ =~= seq![dec_digit(d as nat)]);
        }
        "6"
    } else if d == 7 {
        proof {
            assert("7"@ =~= seq![dec_digit(d as nat)]);
        }
        "7"
    } else if d == 8 {
        proof {
            assert("8"@ =~= seq![dec_digit(d as nat)]);
        }
        "8"
    } else {
        proof {
            assert("9"@ =~= seq![dec_digit(d as nat)]);
        }
        "9"
    }
}

/// Render a length or count as decimal text.
pub(crate) fn usize_to_dec(n: usize) -> (r: String)
    ensures
        r@ == dec_rep(n as nat),
    decreases n,
{
    if n < 10 {
        String::from_str(digit_str(n))
    } else {
        let mut s = usize_to_dec(n / 10);
        s.append(digit_str(n % 10));
        s
    }
}

} // verus!
