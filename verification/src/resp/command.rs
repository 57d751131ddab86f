//! Commands: a bulk-string array whose first element names an operation and
//! whose remainder are its arguments.

use vstd::prelude::*;

use super::Array;
use super::BulkString;
use super::Resp;

verus! {

use vstd::slice::slice_subrange;

/// A semantic wrapper over `Array<BulkString>`: the first element, if any, is
/// the command's name; the remaining elements are its positional arguments.
pub struct Command(pub Array<BulkString>);

impl Command {
    /// The text of the command's name, or nothing for an empty array (absence
    /// is a valid, representable state, not an error).
    pub fn name(&self) -> (r: Option<&String>)
        ensures
            r is Some <==> self.0.0@.len() > 0,
            self.0.0@.len() > 0 ==> r.unwrap()@ == self.0.0@[0]@,
    {
        match self.0.0.as_slice().first() {
            Some(b) => Some(&b.0),
            None => None,
        }
    }

    /// The arguments: every element after the name, in order. With zero or
    /// one elements this is the empty sequence.
    pub fn args(&self) -> (r: &[BulkString])
        ensures
            r@ == (if self.0.0@.len() == 0 {
                Seq::<BulkString>::empty()
            } else {
                self.0.0@.drop_first()
            }),
    {
        let s: &[BulkString] = self.0.0.as_slice();
        if s.len() == 0 {
            proof {
                assert(s@ =~= Seq::<BulkString>::empty());
            }
            s
        } else {
            let r = slice_subrange(s, 1, s.len());
            proof {
                assert(r@ =~= self.0.0@.drop_first());
            }
            r
        }
    }
}

impl Resp for Command {
    /// A command has no framing of its own: its frame is its array's frame.
    open spec fn encoding(&self) -> Seq<char> {
        self.0.encoding()
    }

    fn encode(&self) -> (r: String) {
        self.0.encode()
    }
}

} // verus!
