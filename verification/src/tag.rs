//! Tag identifiers as the reader hands them over.

use vstd::prelude::*;
use vstd::slice::slice_to_vec;

verus! {

/// The identifier lengths that the three cascade levels of the tag protocol yield.
pub open spec fn valid_length(n: nat) -> bool {
    n == 4 || n == 7 || n == 10
}

/// The identifier of one detected tag: 4, 7 or 10 bytes.
#[derive(Debug)]
pub struct TagIdentifier {
    bytes: Vec<u8>,
}

impl View for TagIdentifier {
    type V = Seq<u8>;

    closed spec fn view(&self) -> Seq<u8> {
        self.bytes@
    }
}

impl TagIdentifier {
    #[verifier::type_invariant]
    spec fn well_formed(&self) -> bool {
        valid_length(self.bytes@.len())
    }

    /// Takes the bytes of a select answer; refuses any length that no
    /// cascade level produces.
    pub fn new(bytes: &[u8]) -> (r: Option<TagIdentifier>)
        ensures
            valid_length(bytes@.len()) ==> r is Some && r->0@ == bytes@,
            !valid_length(bytes@.len()) ==> r is None,
    {
        let n: usize = bytes.len();
        if n == 4 || n == 7 || n == 10 {
            Some(TagIdentifier { bytes: slice_to_vec(bytes) })
        } else {
            None
        }
    }

    /// The identifier's bytes, in the order the reader gave them.
    pub fn as_bytes(&self) -> (r: &[u8])
        ensures
            r@ == self@,
            valid_length(r@.len()),
    {
        proof {
            use_type_invariant(self);
        }
        self.bytes.as_slice()
    }

    /// The number of bytes: 4, 7 or 10.
    pub fn len(&self) -> (n: usize)
        ensures
            n == self@.len(),
            valid_length(n as nat),
    {
        proof {
            use_type_invariant(self);
        }
        self.bytes.len()
    }
}

} // verus!
