//! Simple strings: short, control-byte-free text values framed with a leading
//! sigil and trailing terminator.

use vstd::prelude::*;

use super::crlf;
use super::kind::Kind;
use super::Error;
use super::Resp;

verus! {

use vstd::string::StringExecFns;

/// Text is clean when it holds no carriage return and no line feed anywhere.
pub open spec fn no_banned(s: Seq<char>) -> bool {
    !s.contains('\r') && !s.contains('\n')
}

/// Simple strings are encoded as a plus (`+`) character, followed by a string.
/// The string mustn't contain a CR (`\r`) or LF (`\n`) character and is
/// terminated by CRLF (i.e., `\r\n`).
///
/// Simple strings transmit short, non-binary strings with minimal overhead.
/// For example, many Redis commands reply with just "OK" on success. The
/// encoding of this simple string is the following 5 bytes:
///
/// ```text
/// +OK\r\n
/// ```
///
/// To send binary strings, use bulk strings instead.
pub struct SimpleString(String);

impl View for SimpleString {
    type V = Seq<char>;

    closed spec fn view(&self) -> Seq<char> {
        self.0@
    }
}

/// Scan the text once for either banned pattern, and report which was found.
///
/// Relies on `aho_corasick::AhoCorasick::{new, find}`: an automaton built over
/// the two patterns `"\r"` and `"\n"` reports a match exactly when the
/// haystack holds one of those bytes (a one-byte pattern below 0x80 occurs in
/// a string's UTF-8 bytes exactly when the corresponding character occurs in
/// its text), and the reported pattern identifier names a pattern that does
/// occur. Building the automaton from two one-byte literal patterns cannot
/// fail, and an unanchored search over a plain string cannot either.
#[verifier::external_body]
fn find_banned(value: &str) -> (r: Option<usize>)
    ensures
        r is None <==> no_banned(value@),
        r is Some ==> r.unwrap() < 2,
        r == Some(0usize) ==> value@.contains('\r'),
        r == Some(1usize) ==> value@.contains('\n'),
{
    let matcher = aho_corasick::AhoCorasick::new(["\r", "\n"]).unwrap();
    matcher.find(value).map(|m| m.pattern().as_usize())
}

impl SimpleString {
    /// The invariant every constructed simple string carries: its text holds
    /// neither frame-terminator byte.
    pub open spec fn wf(&self) -> bool {
        no_banned(self@)
    }

    /// Attempts to create a new simple string.
    ///
    /// This function will return an error if the value contains banned
    /// patterns (`\r` or `\n`).
    ///
    /// ## Errors
    /// This function will return `Error::BannedPatterns` if the value
    /// contains banned patterns.
    pub fn try_new<'a>(value: String) -> (r: Result<SimpleString, Error<'a>>)
        ensures
            r is Ok <==> no_banned(value@),
            (match r {
                Ok(s) => s@ == value@ && s.wf(),
                Err(Error::BannedPatterns(p)) => (p@ == seq!['\r'] && value@.contains('\r')) || (
                p@ == seq!['\n'] && value@.contains('\n')),
            }),
    {
        match Self::is_valid(&value) {
            Ok(_) => Ok(SimpleString(value)),
            Err(e) => Err(e),
        }
    }

    /// Gets the value of the simple string, as a reference.
    pub fn value(&self) -> (r: &String)
        ensures
            r@ == self@,
    {
        &self.0
    }

    /// Checks if the value is valid: `Ok` exactly when the text holds no
    /// carriage return and no line feed, and otherwise an error naming a
    /// banned pattern that does occur in the text.
    pub fn is_valid<'a>(value: &String) -> (r: Result<(), Error<'a>>)
        ensures
            r is Ok <==> no_banned(value@),
            (match r {
                Ok(_) => true,
                Err(Error::BannedPatterns(p)) => (p@ == seq!['\r'] && value@.contains('\r')) || (
                p@ == seq!['\n'] && value@.contains('\n')),
            }),
    {
        match find_banned(value.as_str()) {
            None => Ok(()),
            Some(i) => {
                if i == 0 {
                    proof {
                        reveal_strlit("\r");
                        assert("\r"@ =~= seq!['\r']);
                    }
                    Err(Error::BannedPatterns("\r"))
                } else {
                    proof {
                        reveal_strlit("\n");
                        assert("\n"@ =~= seq!['\n']);
                    }
                    Err(Error::BannedPatterns("\n"))
                }
            },
        }
    }
}

/// For any text holding no carriage return and no line feed, a simple string
/// carrying that text frames it as the sigil, the text itself, and the
/// terminator — nothing is escaped, truncated, or reordered.
pub proof fn lemma_simple_string_frame(s: SimpleString, text: Seq<char>)
    requires
        no_banned(text),
        s@ == text,
    ensures
        s.encoding() == seq!['+'] + text + crlf(),
{
    assert(s.encoding() =~= seq!['+'] + text + crlf());
}

impl Resp for SimpleString {
    /// The frame of a simple string: the sigil, the text, the terminator.
    open spec fn encoding(&self) -> Seq<char> {
        Kind::SimpleString.sigil() + self@ + crlf()
    }

    fn encode(&self) -> (r: String) {
        let mut s = String::from_str(Kind::SimpleString.as_str());
        s.append(self.0.as_str());
        s.append("\r\n");
        proof {
            reveal_strlit("\r\n");
            assert("\r\n"@ =~= crlf());
            assert(s@ =~= self.encoding());
        }
        s
    }
}

} // verus!
