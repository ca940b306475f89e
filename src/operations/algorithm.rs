//! Cryptographic algorithms that a key policy may name.
use vstd::prelude::*;

verus! {

/// Hash algorithms.
#[derive(Clone, Copy, Debug, PartialEq, Eq, Structural)]
pub enum Hash {
    Sha1,
    Sha224,
    Sha256,
    Sha384,
    Sha512,
}

/// Asymmetric signature algorithms, each with the hash it signs over.
#[derive(Clone, Copy, Debug, PartialEq, Eq, Structural)]
pub enum AsymmetricSignature {
    RsaPkcs1v15Sign { hash_alg: Hash },
    RsaPss { hash_alg: Hash },
    Ecdsa { hash_alg: Hash },
}

/// An algorithm, or `Unspecified` where the policy names none.
#[derive(Clone, Copy, Debug, PartialEq, Eq, Structural)]
pub enum Algorithm {
    Unspecified,
    Hash(Hash),
    AsymmetricSignature(AsymmetricSignature),
}

} // verus!
