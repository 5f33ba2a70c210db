//! Capability interfaces: key encapsulation and signatures.
//!
//! Randomness is an associated value type (`Seed`, `Coins`) that the caller
//! fills from a cryptographically secure generator.
use vstd::prelude::*;
use crate::error::PrimitivesError;

verus! {

/// A key-encapsulation mechanism.
pub trait Kem {
    type PublicKey;
    type SecretKey;
    type Ciphertext;
    type SharedSecret;
    /// Random bytes consumed by key generation.
    type Seed;
    /// Random bytes consumed by encapsulation.
    type Coins;

    /// `(sk, pk)` is the key pair generated from `seed`.
    spec fn is_keypair(seed: Self::Seed, sk: Self::SecretKey, pk: Self::PublicKey) -> bool;

    /// `(ct, ss)` is the result of encapsulating to `pk` with `coins`.
    spec fn encapsulates(pk: Self::PublicKey, coins: Self::Coins, ct: Self::Ciphertext, ss: Self::SharedSecret) -> bool;

    /// `ss` is the shared secret that `sk` recovers from `ct`.
    spec fn decapsulates(sk: Self::SecretKey, ct: Self::Ciphertext, ss: Self::SharedSecret) -> bool;

    /// A fresh key pair; never fails.
    fn generate_keypair(seed: &Self::Seed) -> (r: (Self::SecretKey, Self::PublicKey))
        ensures
            Self::is_keypair(*seed, r.0, r.1),
    ;

    /// A ciphertext and the shared secret it carries.
    fn encapsulate(pk: &Self::PublicKey, coins: &Self::Coins) -> (r: Result<
        (Self::Ciphertext, Self::SharedSecret),
        PrimitivesError,
    >)
        ensures
            r matches Ok(v) ==> Self::encapsulates(*pk, *coins, v.0, v.1),
    ;

    /// The shared secret carried by `ct`. A scheme with implicit rejection
    /// answers an invalid ciphertext with a secret, not an error.
    fn decapsulate(sk: &Self::SecretKey, ct: &Self::Ciphertext) -> (r: Result<
        Self::SharedSecret,
        PrimitivesError,
    >)
        ensures
            r matches Ok(v) ==> Self::decapsulates(*sk, *ct, v),
    ;
}

/// A KEM combining a classical and a post-quantum KEM.
pub trait HybridKem: Kem {}

/// A digital-signature scheme.
pub trait Signature {
    type PublicKey;
    type SecretKey;
    type Sig;
    /// Random bytes consumed by key generation.
    type Seed;

    /// `(sk, pk)` is the key pair generated from `seed`.
    spec fn is_keypair(seed: Self::Seed, sk: Self::SecretKey, pk: Self::PublicKey) -> bool;

    /// `sk` is a secret key that `sign` accepts.
    spec fn accepts_signing_key(sk: Self::SecretKey) -> bool;

    /// `sig` is the signature of `message` under `sk`.
    spec fn signs(sk: Self::SecretKey, message: Seq<u8>, sig: Self::Sig) -> bool;

    /// `sig` verifies for `message` under `pk`.
    spec fn verifies(pk: Self::PublicKey, message: Seq<u8>, sig: Self::Sig) -> bool;

    /// A fresh key pair, whose secret key `sign` accepts; never fails.
    fn generate_keypair(seed: &Self::Seed) -> (r: (Self::SecretKey, Self::PublicKey))
        ensures
            Self::is_keypair(*seed, r.0, r.1),
            Self::accepts_signing_key(r.0),
    ;

    /// The signature of `message`.
    fn sign(sk: &Self::SecretKey, message: &[u8]) -> (r: Self::Sig)
        requires
            Self::accepts_signing_key(*sk),
        ensures
            Self::signs(*sk, message@, r),
    ;

    /// One boolean-shaped outcome: `Ok` exactly when the signature verifies.
    fn verify(pk: &Self::PublicKey, message: &[u8], sig: &Self::Sig) -> (r: Result<(), PrimitivesError>)
        ensures
            r is Ok <==> Self::verifies(*pk, message@, *sig),
    ;
}

} // verus!
