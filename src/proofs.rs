//! Proofs: opaque byte strings of bounded length, compared byte for byte.
use vstd::prelude::*;

verus! {

/// An opaque byte string that an account may claim.
///
/// Its length bound is checked when it is built (see [`Proof::bounded`]);
/// the registry only compares proofs for exact equality.
#[derive(Debug)]
pub struct Proof {
    bytes: Vec<u8>,
}

impl View for Proof {
    type V = Seq<u8>;

    closed spec fn view(&self) -> Seq<u8> {
        self.bytes@
    }
}

impl Proof {
    /// Builds a proof from `bytes` when they are at most `max_len` long.
    pub fn bounded(bytes: Vec<u8>, max_len: u32) -> (r: Option<Proof>)
        ensures
            r is Some <==> bytes@.len() <= max_len,
            r matches Some(p) ==> p@ == bytes@,
    {
        if bytes.len() <= max_len as usize {
            Some(Proof { bytes })
        } else {
            None
        }
    }

    /// The number of bytes in the proof.
    pub fn len(&self) -> (r: usize)
        ensures
            r == self@.len(),
    {
        self.bytes.len()
    }

    /// The proof's bytes.
    pub fn as_bytes(&self) -> (r: &[u8])
        ensures
            r@ == self@,
    {
        self.bytes.as_slice()
    }

    /// Whether `self` and `other` hold the same bytes.
    pub fn same_as(&self, other: &Proof) -> (r: bool)
        ensures
            r == (self@ == other@),
    {
        let r = self.bytes == other.bytes;
        proof {
            if r {
                assert(self@ =~= other@);
            }
        }
        r
    }

    /// A second proof with the same bytes.
    pub fn copy(&self) -> (r: Proof)
        ensures
            r@ == self@,
    {
        let bytes = self.bytes.clone();
        proof {
            assert(bytes@ =~= self.bytes@);
        }
        Proof { bytes }
    }
}

} // verus!
