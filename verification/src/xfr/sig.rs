//! Keys and signatures of transfers, as the bytes that stand for them.

use crate::bytes::array_eq;
use vstd::prelude::*;

verus! {

/// The public key that owns a record.
#[derive(Clone, Copy, Debug, PartialEq, Eq)]
pub struct XfrPublicKey(pub [u8; 32]);

/// The secret key that spends a record.
#[derive(Clone, Copy, Debug, PartialEq, Eq)]
pub struct XfrSecretKey(pub [u8; 32]);

/// A secret key with its public key.
#[derive(Clone, Copy, Debug, PartialEq, Eq)]
pub struct XfrKeyPair {
    pub public: XfrPublicKey,
    pub secret: XfrSecretKey,
}

/// One signature over a transfer body.
#[derive(Clone, Copy, Debug, PartialEq, Eq)]
pub struct XfrSignature(pub [u8; 64]);

/// The signatures of all input owners over a transfer body, in input order.
#[derive(Debug, PartialEq, Eq)]
pub struct XfrMultiSig {
    pub signatures: Vec<XfrSignature>,
}

impl XfrPublicKey {
    /// Whether two public keys are the same key.
    pub fn same_key(&self, other: &XfrPublicKey) -> (same: bool)
        ensures
            same == (*self == *other),
    {
        array_eq(&self.0, &other.0)
    }
}

impl XfrKeyPair {
    /// The public half of the pair.
    pub fn get_pk_ref(&self) -> (pk: &XfrPublicKey)
        ensures
            *pk == self.public,
    {
        &self.public
    }

    /// A copy of the public half of the pair.
    pub fn get_pk(&self) -> (pk: XfrPublicKey)
        ensures
            pk == self.public,
    {
        self.public
    }
}

impl DeepView for XfrMultiSig {
    type V = Seq<XfrSignature>;

    open spec fn deep_view(&self) -> Seq<XfrSignature> {
        self.signatures@
    }
}

impl Clone for XfrMultiSig {
    fn clone(&self) -> (copy: Self)
        ensures
            copy.deep_view() == self.deep_view(),
    {
        let mut signatures: Vec<XfrSignature> = Vec::new();
        let mut i: usize = 0;
        while i < self.signatures.len()
            invariant
                i <= self.signatures.len(),
                signatures@ == self.signatures@.take(i as int),
            decreases self.signatures.len() - i,
        {
            signatures.push(self.signatures[i]);
            i += 1;
            assert(signatures@ =~= self.signatures@.take(i as int));
        }
        assert(self.signatures@.take(self.signatures.len() as int) =~= self.signatures@);
        XfrMultiSig { signatures }
    }
}

} // verus!
