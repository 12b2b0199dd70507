//! Basic value types: hashes, node identifiers, signatures and keys.
use vstd::prelude::*;

use crate::error::Error;

verus! {

/// A hash, one byte wide.
#[derive(Clone, Copy, Debug, PartialEq, Eq, Hash, Structural)]
pub struct MockHash(pub u8);

/// A node identifier (the same representation as a hash).
pub type MockNodeId = MockHash;

impl MockHash {
    /// The zero hash.
    pub fn zero() -> (h: MockHash)
        ensures
            h == MockHash(0),
    {
        MockHash(0)
    }

    /// Reads a hash from the first byte of `bytes`.
    pub fn from_bytes(bytes: &[u8]) -> (r: Result<MockHash, Error>)
        ensures
            bytes@.len() == 0 ==> r == Err::<MockHash, Error>(Error::EmptyBytes),
            bytes@.len() > 0 ==> r == Ok::<MockHash, Error>(MockHash(bytes@[0])),
    {
        if bytes.len() == 0 {
            return Err(Error::EmptyBytes);
        }
        Ok(MockHash(bytes[0]))
    }

    /// The byte representation of the hash (empty).
    pub fn as_bytes(&self) -> (b: &'static [u8])
        ensures
            b@.len() == 0,
    {
        let e: &'static [u8] = &[];
        e
    }

    /// The inner byte value.
    pub fn inner(&self) -> (b: u8)
        ensures
            b == self.0,
    {
        self.0
    }
}

/// A signature, one byte wide.
#[derive(Clone, Copy, Debug, PartialEq, Eq, Hash, Structural)]
pub struct MockSignature(pub u8);

/// An aggregated signature.
#[derive(Clone, Copy, Debug, PartialEq, Eq, Structural)]
pub struct MockAggregatedSignature;

/// A public key.
#[derive(Clone, Copy, Debug)]
pub struct MockPublicKey;

impl MockSignature {
    /// Verifies the signature over `message`; every signature is valid.
    pub fn verify(&self, message: &[u8], public_key: &MockPublicKey) -> (r: Result<(), core::convert::Infallible>)
        ensures
            r is Ok,
    {
        Ok(())
    }

    /// The byte representation: the single signature byte.
    pub fn to_bytes(&self) -> (b: Vec<u8>)
        ensures
            b@ == seq![self.0],
    {
        let mut b = Vec::new();
        b.push(self.0);
        b
    }

    /// Reads a signature from the first byte of `bytes`.
    pub fn from_bytes(bytes: &[u8]) -> (r: Result<MockSignature, Error>)
        ensures
            bytes@.len() == 0 ==> r == Err::<MockSignature, Error>(Error::EmptyBytes),
            bytes@.len() > 0 ==> r == Ok::<MockSignature, Error>(MockSignature(bytes@[0])),
    {
        if bytes.len() == 0 {
            return Err(Error::EmptyBytes);
        }
        Ok(MockSignature(bytes[0]))
    }

    /// Aggregates signatures; aggregation always succeeds.
    pub fn aggregate(signatures: &[MockSignature]) -> (r: Result<MockAggregatedSignature, Error>)
        ensures
            r == Ok::<MockAggregatedSignature, Error>(MockAggregatedSignature),
    {
        Ok(MockAggregatedSignature)
    }
}

impl MockPublicKey {
    /// The byte representation of the key (empty).
    pub fn to_bytes(&self) -> (b: Vec<u8>)
        ensures
            b@.len() == 0,
    {
        Vec::new()
    }

    /// Reads a key; every byte string names the key.
    pub fn from_bytes(bytes: &[u8]) -> (r: Result<MockPublicKey, Error>)
        ensures
            r is Ok,
    {
        Ok(MockPublicKey)
    }
}

} // verus!
