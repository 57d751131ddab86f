//! The three protocol markers and their single-byte sigils.

use vstd::prelude::*;

verus! {

/// The kinds of encodable RESP values.
pub enum Kind {
    SimpleString,
    BulkString,
    Array,
}

impl Kind {
    /// The single leading character identifying a value's encoded kind.
    pub open spec fn sigil(&self) -> Seq<char> {
        match self {
            Kind::SimpleString => seq!['+'],
            Kind::BulkString => seq!['$'],
            Kind::Array => seq!['*'],
        }
    }

    /// The variant's protocol sigil as a string slice.
    pub fn as_str(&self) -> (r: &str)
        ensures
            r@ == self.sigil(),
    {
        match self {
            Kind::SimpleString => {
                proof {
                    reveal_strlit("+");
                    assert("+"@ =~= self.sigil());
                }
                "+"
            },
            Kind::BulkString => {
                proof {
                    reveal_strlit("$");
                    assert("$"@ =~= self.sigil());
                }
                "$"
            },
            Kind::Array => {
                proof {
                    reveal_strlit("*");
                    assert("*"@ =~= self.sigil());
                }
                "*"
            },
        }
    }
}

} // verus!
