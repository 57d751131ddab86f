//! Arrays: ordered, length-prefixed sequences of framed values.

use vstd::prelude::*;

use super::crlf;
use super::dec_rep;
use super::kind::Kind;
use super::usize_to_dec;
use super::Resp;

verus! {

use vstd::string::StringExecFns;

/// An ordered sequence of encodable values of one type. The empty sequence is
/// valid, and caller-supplied order is the wire order.
pub struct Array<T: Resp>(pub Vec<T>);

/// The concatenation of each element's own frame, in sequence order.
pub open spec fn elems_encoding<T: Resp>(elems: Seq<T>) -> Seq<char>
    decreases elems.len(),
{
    if elems.len() == 0 {
        Seq::empty()
    } else {
        elems[0].encoding() + elems_encoding(elems.drop_first())
    }
}

/// Elements encode in their original order: extending a sequence by one
/// element appends exactly that element's frame to the concatenated encoding.
pub proof fn lemma_elems_encoding_push<T: Resp>(elems: Seq<T>, e: T)
    ensures
        elems_encoding(elems.push(e)) == elems_encoding(elems) + e.encoding(),
    decreases elems.len(),
{
    if elems.len() == 0 {
        assert(elems_encoding(Seq::<T>::empty()) =~= Seq::<char>::empty());
        assert(elems.push(e).drop_first() =~= Seq::<T>::empty());
        assert(elems.push(e)[0] == e);
        assert(elems_encoding(elems.push(e)) =~= elems_encoding(elems) + e.encoding());
    } else {
        assert(elems.push(e).drop_first() =~= elems.drop_first().push(e));
        assert(elems.push(e)[0] == elems[0]);
        lemma_elems_encoding_push(elems.drop_first(), e);
        assert(elems_encoding(elems.push(e)) =~= elems_encoding(elems) + e.encoding());
    }
}

impl<T: Resp> Resp for Array<T> {
    /// The frame of an array: the sigil, the element count in decimal, a
    /// terminator, then every element's own frame in order. Length zero
    /// encodes to the header alone.
    open spec fn encoding(&self) -> Seq<char> {
        Kind::Array.sigil() + dec_rep(self.0@.len()) + crlf() + elems_encoding(self.0@)
    }

    fn encode(&self) -> (r: String) {
        let n: usize = self.0.len();
        let mut s = String::from_str(Kind::Array.as_str());
        let num = usize_to_dec(n);
        s.append(num.as_str());
        s.append("\r\n");
        let ghost header: Seq<char> = Kind::Array.sigil() + dec_rep(n as nat) + crlf();
        proof {
            reveal_strlit("\r\n");
            assert("\r\n"@ =~= crlf());
            assert(s@ =~= header);
            assert(self.0@.take(0) =~= Seq::<T>::empty());
        }
        let mut i: usize = 0;
        while i < n
            invariant
                i <= n,
                n == self.0@.len(),
                s@ == header + elems_encoding(self.0@.take(i as int)),
            decreases n - i,
        {
            let e: String = self.0[i].encode();
            s.append(e.as_str());
            proof {
                assert(self.0@.take(i + 1) =~= self.0@.take(i as int).push(self.0@[i as int]));
                lemma_elems_encoding_push(self.0@.take(i as int), self.0@[i as int]);
                assert(s@ =~= header + elems_encoding(self.0@.take(i + 1)));
            }
            i = i + 1;
        }
        proof {
            assert(self.0@.take(n as int) =~= self.0@);
            assert(s@ =~= self.encoding());
        }
        s
    }
}

} // verus!
