//! Bulk strings: binary-safe, length-prefixed text values.

use vstd::prelude::*;

use super::byte_len_of;
use super::crlf;
use super::dec_rep;
use super::kind::Kind;
use super::usize_to_dec;
use super::Resp;

verus! {

use vstd::string::StringExecFns;

/// A bulk string represents a single binary string of arbitrary length; the
/// text may hold any bytes, embedded control bytes included. Its frame is
/// length-prefixed rather than terminator-delimited for the body.
#[derive(Debug, Clone, PartialEq, Eq)]
pub struct BulkString(pub String);

impl View for BulkString {
    type V = Seq<char>;

    open spec fn view(&self) -> Seq<char> {
        self.0@
    }
}

/// Any text at all — control bytes included — frames as the sigil, the byte
/// length of the text in decimal, a terminator, the text verbatim, and a
/// terminator.
pub proof fn lemma_bulk_string_frame(b: BulkString, text: Seq<char>)
    requires
        b@ == text,
    ensures
        b.encoding() == seq!['$'] + dec_rep(byte_len_of(text)) + crlf() + text + crlf(),
{
    assert(b.encoding() =~= seq!['$'] + dec_rep(byte_len_of(text)) + crlf() + text + crlf());
}

impl Resp for BulkString {
    /// The frame of a bulk string: the sigil, the byte length of the text in
    /// decimal, a terminator, the text itself, a terminator.
    open spec fn encoding(&self) -> Seq<char> {
        Kind::BulkString.sigil() + dec_rep(byte_len_of(self@)) + crlf() + self@ + crlf()
    }

    fn encode(&self) -> (r: String) {
        let len: usize = self.0.as_str().as_bytes().len();
        assert(len as nat == byte_len_of(self@));
        let mut s = String::from_str(Kind::BulkString.as_str());
        let num = usize_to_dec(len);
        s.append(num.as_str());
        s.append("\r\n");
        s.append(self.0.as_str());
        s.append("\r\n");
        proof {
            reveal_strlit("\r\n");
            assert("\r\n"@ =~= crlf());
            assert(s@ =~= self.encoding());
        }
        s
    }
}

} // verus!
