//! Node public keys: the fixed-length identifier that joins the two cache
//! tiers, with its canonical lowercase-hex string form.

use crate::text::bytes_to_hex;
use crate::text::hex_chars;
use vstd::prelude::*;

verus! {

/// A network node's public key, held as the 33 bytes of its compressed
/// encoding.
#[derive(Debug)]
pub struct PublicKey {
    bytes: Vec<u8>,
}

impl View for PublicKey {
    type V = Seq<u8>;

    closed spec fn view(&self) -> Seq<u8> {
        self.bytes@
    }
}

impl PublicKey {
    /// A compressed-encoded public key is exactly 33 bytes.
    pub open spec fn wf(&self) -> bool {
        self@.len() == 33
    }

    /// Wraps a compressed encoding; any other length is rejected.
    pub fn from_bytes(bytes: Vec<u8>) -> (r: Option<PublicKey>)
        ensures
            r is Some <==> bytes@.len() == 33,
            r matches Some(pk) ==> pk@ == bytes@,
    {
        if bytes.len() == 33 {
            Some(PublicKey { bytes })
        } else {
            None
        }
    }

    /// The key's bytes.
    pub fn as_bytes(&self) -> (r: &Vec<u8>)
        ensures
            r@ == self@,
    {
        &self.bytes
    }

    /// An owned copy of the key's bytes.
    pub fn to_byte_vec(&self) -> (r: Vec<u8>)
        ensures
            r@ == self@,
    {
        let r = self.bytes.clone();
        proof {
            assert forall|i: int| 0 <= i < self.bytes@.len() implies r@[i] == self.bytes@[i] by {
                assert(cloned::<u8>(self.bytes[i], r[i]));
            }
            assert(r@ =~= self.bytes@);
        }
        r
    }

    /// An independent copy of the key.
    pub fn duplicate(&self) -> (r: PublicKey)
        ensures
            r@ == self@,
    {
        PublicKey { bytes: self.to_byte_vec() }
    }

    /// Byte-wise equality of two keys.
    pub fn key_eq(&self, other: &PublicKey) -> (r: bool)
        ensures
            r == (self@ == other@),
    {
        if self.bytes.len() != other.bytes.len() {
            return false;
        }
        let mut i: usize = 0;
        while i < self.bytes.len()
            invariant
                i <= self.bytes@.len(),
                self.bytes@.len() == other.bytes@.len(),
                forall|k: int| 0 <= k < i ==> self.bytes@[k] == other.bytes@[k],
            decreases self.bytes@.len() - i,
        {
            if self.bytes[i] != other.bytes[i] {
                return false;
            }
            i = i + 1;
        }
        proof {
            assert(self@ =~= other@);
        }
        true
    }

    /// The canonical lowercase-hex string form: the display-name fallback
    /// for a node that advertises no alias.
    pub fn to_hex(&self) -> (s: String)
        ensures
            s@ == hex_chars(self@),
    {
        bytes_to_hex(&self.bytes)
    }
}

} // verus!
