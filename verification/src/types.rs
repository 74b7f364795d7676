//! Plain-value forms of the host's cryptographic types.
//!
//! The hash function and the signature scheme live in the host; this core
//! only carries their outputs around. A digest is 256 bits held as four
//! 64-bit limbs, and a public key is carried the same way.
use vstd::prelude::*;

verus! {

/// A 256-bit digest, as four 64-bit limbs.
#[derive(Clone, Copy, Debug, PartialEq, Eq, Structural)]
pub struct Digest {
    pub d0: u64,
    pub d1: u64,
    pub d2: u64,
    pub d3: u64,
}

impl Digest {
    /// The all-zero digest.
    pub open spec fn spec_zero() -> Digest {
        Digest { d0: 0, d1: 0, d2: 0, d3: 0 }
    }

    pub fn zero() -> (r: Digest)
        ensures
            r == Digest::spec_zero(),
    {
        Digest { d0: 0, d1: 0, d2: 0, d3: 0 }
    }

    pub fn new(d0: u64, d1: u64, d2: u64, d3: u64) -> (r: Digest)
        ensures
            r == (Digest { d0, d1, d2, d3 }),
    {
        Digest { d0, d1, d2, d3 }
    }
}

/// A public key of the host's signature scheme, as four 64-bit limbs.
#[derive(Clone, Copy, Debug, PartialEq, Eq, Structural)]
pub struct PublicKey {
    pub k0: u64,
    pub k1: u64,
    pub k2: u64,
    pub k3: u64,
}

impl PublicKey {
    pub fn new(k0: u64, k1: u64, k2: u64, k3: u64) -> (r: PublicKey)
        ensures
            r == (PublicKey { k0, k1, k2, k3 }),
    {
        PublicKey { k0, k1, k2, k3 }
    }
}

} // verus!
