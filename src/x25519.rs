//! X25519 Diffie-Hellman presented as a key-encapsulation mechanism: the
//! ephemeral public key is the ciphertext.
use vstd::prelude::*;
use crate::bytes::{copy_out, wipe};
use crate::error::PrimitivesError;
use crate::traits::Kem;

verus! {

/// Length of every X25519 value.
pub const X25519_LEN: usize = 32;

/// The public key of the X25519 secret `sk`.
pub uninterp spec fn x25519_public_of(sk: Seq<u8>) -> [u8; 32];

/// The shared secret of the X25519 secret `sk` with the public point `pk`.
pub uninterp spec fn x25519_dh_of(sk: Seq<u8>, pk: Seq<u8>) -> [u8; 32];

/// Relies on x25519_dalek's `PublicKey::from(&StaticSecret)`: the public key of
/// a secret given as 32 bytes (clamped inside the crate).
#[verifier::external_body]
fn x25519_public_key(sk: &[u8; 32]) -> (r: [u8; 32])
    ensures
        r == x25519_public_of(sk@),
{
    let secret = x25519_dalek::StaticSecret::from(*sk);
    x25519_dalek::PublicKey::from(&secret).to_bytes()
}

/// Relies on x25519_dalek's `StaticSecret::diffie_hellman`: the shared secret of
/// a 32-byte secret with any 32-byte point; no point is rejected.
#[verifier::external_body]
fn x25519_diffie_hellman(sk: &[u8; 32], pk: &[u8; 32]) -> (r: [u8; 32])
    ensures
        r == x25519_dh_of(sk@, pk@),
{
    let secret = x25519_dalek::StaticSecret::from(*sk);
    secret.diffie_hellman(&x25519_dalek::PublicKey::from(*pk)).to_bytes()
}

/// An X25519 public key.
#[derive(Clone)]
pub struct X25519PublicKey(pub [u8; 32]);

impl X25519PublicKey {
    /// Parses exactly X25519_LEN bytes; any other length is `InvalidLength`.
    pub fn try_from(bytes: &[u8]) -> (r: Result<Self, PrimitivesError>)
        ensures
            bytes@.len() == X25519_LEN ==> (r matches Ok(v) && v.0@ == bytes@),
            bytes@.len() != X25519_LEN ==> r == Err::<Self, PrimitivesError>(PrimitivesError::InvalidLength),
    {
        if bytes.len() != X25519_LEN {
            return Err(PrimitivesError::InvalidLength);
        }
        let mut arr = [0u8; 32];
        copy_out(bytes, 0, &mut arr);
        Ok(Self(arr))
    }

    /// The encoded bytes.
    pub fn as_ref(&self) -> (r: &[u8])
        ensures
            r@ == self.0@,
    {
        &self.0
    }
}

/// An X25519 secret scalar (clamped when used).
#[derive(Clone)]
pub struct X25519SecretKey(pub [u8; 32]);

impl X25519SecretKey {
    /// Parses exactly X25519_LEN bytes; any other length is `InvalidLength`.
    pub fn try_from(bytes: &[u8]) -> (r: Result<Self, PrimitivesError>)
        ensures
            bytes@.len() == X25519_LEN ==> (r matches Ok(v) && v.0@ == bytes@),
            bytes@.len() != X25519_LEN ==> r == Err::<Self, PrimitivesError>(PrimitivesError::InvalidLength),
    {
        if bytes.len() != X25519_LEN {
            return Err(PrimitivesError::InvalidLength);
        }
        let mut arr = [0u8; 32];
        copy_out(bytes, 0, &mut arr);
        Ok(Self(arr))
    }

    /// The encoded bytes.
    pub fn as_ref(&self) -> (r: &[u8])
        ensures
            r@ == self.0@,
    {
        &self.0
    }
}

/// An X25519 ciphertext: the sender's ephemeral public key.
#[derive(Clone)]
pub struct X25519Ciphertext(pub [u8; 32]);

impl X25519Ciphertext {
    /// Parses exactly X25519_LEN bytes; any other length is `InvalidLength`.
    pub fn try_from(bytes: &[u8]) -> (r: Result<Self, PrimitivesError>)
        ensures
            bytes@.len() == X25519_LEN ==> (r matches Ok(v) && v.0@ == bytes@),
            bytes@.len() != X25519_LEN ==> r == Err::<Self, PrimitivesError>(PrimitivesError::InvalidLength),
    {
        if bytes.len() != X25519_LEN {
            return Err(PrimitivesError::InvalidLength);
        }
        let mut arr = [0u8; 32];
        copy_out(bytes, 0, &mut arr);
        Ok(Self(arr))
    }

    /// The encoded bytes.
    pub fn as_ref(&self) -> (r: &[u8])
        ensures
            r@ == self.0@,
    {
        &self.0
    }
}

/// An X25519 shared secret.
#[derive(Clone)]
pub struct X25519SharedSecret(pub [u8; 32]);

impl X25519SharedSecret {
    /// The encoded bytes.
    pub fn as_ref(&self) -> (r: &[u8])
        ensures
            r@ == self.0@,
    {
        &self.0
    }
}

impl Drop for X25519SecretKey {
    /// Erases the secret.
    fn drop(&mut self)
        opens_invariants none
        no_unwind
    {
        wipe(&mut self.0);
    }
}

impl Drop for X25519SharedSecret {
    /// Erases the secret.
    fn drop(&mut self)
        opens_invariants none
        no_unwind
    {
        wipe(&mut self.0);
    }
}

/// The X25519 key-encapsulation adapter.
pub struct X25519;

impl Kem for X25519 {
    type PublicKey = X25519PublicKey;
    type SecretKey = X25519SecretKey;
    type Ciphertext = X25519Ciphertext;
    type SharedSecret = X25519SharedSecret;
    type Seed = [u8; 32];
    type Coins = [u8; 32];

    open spec fn is_keypair(seed: [u8; 32], sk: X25519SecretKey, pk: X25519PublicKey) -> bool {
        sk.0 == seed && pk.0 == x25519_public_of(seed@)
    }

    open spec fn encapsulates(
        pk: X25519PublicKey,
        coins: [u8; 32],
        ct: X25519Ciphertext,
        ss: X25519SharedSecret,
    ) -> bool {
        ct.0 == x25519_public_of(coins@) && ss.0 == x25519_dh_of(coins@, pk.0@)
    }

    open spec fn decapsulates(sk: X25519SecretKey, ct: X25519Ciphertext, ss: X25519SharedSecret) -> bool {
        ss.0 == x25519_dh_of(sk.0@, ct.0@)
    }

    /// Key pair from 32 random bytes: the secret is those bytes, the public key
    /// its X25519 image.
    fn generate_keypair(seed: &[u8; 32]) -> (r: (X25519SecretKey, X25519PublicKey))
        ensures
            r.0.0 == *seed,
            r.1.0 == x25519_public_of(seed@),
    {
        let pk = x25519_public_key(seed);
        (X25519SecretKey(*seed), X25519PublicKey(pk))
    }

    /// Encapsulation with the 32 random bytes `coins` as ephemeral secret: the
    /// ciphertext is the ephemeral public key, the shared secret the
    /// Diffie-Hellman value with `pk`. Never fails.
    fn encapsulate(pk: &X25519PublicKey, coins: &[u8; 32]) -> (r: Result<
        (X25519Ciphertext, X25519SharedSecret),
        PrimitivesError,
    >)
        ensures
            r matches Ok(v) && v.0.0 == x25519_public_of(coins@) && v.1.0 == x25519_dh_of(
                coins@,
                pk.0@,
            ),
    {
        let ct = x25519_public_key(coins);
        let ss = x25519_diffie_hellman(coins, &pk.0);
        Ok((X25519Ciphertext(ct), X25519SharedSecret(ss)))
    }

    /// Decapsulation: the Diffie-Hellman value of `sk` with the received
    /// ephemeral key. Never fails; low-order points are not rejected.
    fn decapsulate(sk: &X25519SecretKey, ct: &X25519Ciphertext) -> (r: Result<
        X25519SharedSecret,
        PrimitivesError,
    >)
        ensures
            r matches Ok(v) && v.0 == x25519_dh_of(sk.0@, ct.0@),
    {
        let ss = x25519_diffie_hellman(&sk.0, &ct.0);
        Ok(X25519SharedSecret(ss))
    }
}

} // verus!
