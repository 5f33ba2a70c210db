//! The top-level key types: hybrid keys as plain byte arrays.
use vstd::prelude::*;
use crate::bytes::{copy_out, wipe};
use crate::combiner::{hybrid_keypair_spec, CombinerX25519MlKem768, HYBRID_PUBLIC_KEY_LEN, HYBRID_SECRET_KEY_LEN};
use crate::traits::Kem;
use crate::error::TollwayError;

verus! {

/// A hybrid public key: X25519 key then ML-KEM-768 key.
pub struct PublicKey(pub [u8; 1216]);

/// A hybrid secret key: X25519 key then ML-KEM-768 key.
pub struct SecretKey(pub [u8; 2432]);

impl Drop for SecretKey {
    /// Erases the secret.
    fn drop(&mut self)
        opens_invariants none
        no_unwind
    {
        wipe(&mut self.0);
    }
}

impl PublicKey {
    /// Parses exactly 1216 bytes; any other length is `InvalidKeyBytes`.
    pub fn from_bytes(bytes: &[u8]) -> (r: Result<PublicKey, TollwayError>)
        ensures
            bytes@.len() == HYBRID_PUBLIC_KEY_LEN ==> (r matches Ok(k) && k.0@ == bytes@),
            bytes@.len() != HYBRID_PUBLIC_KEY_LEN ==> r == Err::<PublicKey, TollwayError>(
                TollwayError::InvalidKeyBytes,
            ),
    {
        if bytes.len() != HYBRID_PUBLIC_KEY_LEN {
            return Err(TollwayError::InvalidKeyBytes);
        }
        let mut arr = [0u8; 1216];
        copy_out(bytes, 0, &mut arr);
        Ok(PublicKey(arr))
    }

    /// The encoded key.
    pub fn to_bytes(&self) -> (r: &[u8])
        ensures
            r@ == self.0@,
    {
        &self.0
    }
}

impl SecretKey {
    /// A fresh key pair from 96 random bytes, as the hybrid KEM generates it.
    pub fn generate(seed: &[u8; 96]) -> (r: (SecretKey, PublicKey))
        ensures
            (r.0.0@, r.1.0@) == hybrid_keypair_spec(seed@),
    {
        let (sk, pk) = CombinerX25519MlKem768::generate_keypair(seed);
        (SecretKey(sk.0), PublicKey(pk.0))
    }

    /// Parses exactly 2432 bytes; any other length is `InvalidKeyBytes`.
    pub fn from_bytes(bytes: &[u8]) -> (r: Result<SecretKey, TollwayError>)
        ensures
            bytes@.len() == HYBRID_SECRET_KEY_LEN ==> (r matches Ok(k) && k.0@ == bytes@),
            bytes@.len() != HYBRID_SECRET_KEY_LEN ==> r == Err::<SecretKey, TollwayError>(
                TollwayError::InvalidKeyBytes,
            ),
    {
        if bytes.len() != HYBRID_SECRET_KEY_LEN {
            return Err(TollwayError::InvalidKeyBytes);
        }
        let mut arr = [0u8; 2432];
        copy_out(bytes, 0, &mut arr);
        Ok(SecretKey(arr))
    }
}

} // verus!
