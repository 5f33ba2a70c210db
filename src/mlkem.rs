//! ML-KEM-768 behind the key-encapsulation adapter: exact-length byte arrays at
//! every boundary, conversion to and from the primitive's encodings.
use vstd::prelude::*;
use crate::bytes::{copy_out, wipe};
use crate::error::PrimitivesError;
use crate::traits::Kem;
use ml_kem::kem::{Decapsulate, DecapsulationKey, EncapsulationKey};
use ml_kem::{EncapsulateDeterministic, EncodedSizeUser, KemCore, MlKem768Params};

verus! {

/// Length of an ML-KEM-768 encapsulation (public) key.
pub const MLKEM768_PUBLIC_KEY_LEN: usize = 1184;

/// Length of an ML-KEM-768 decapsulation (secret) key.
pub const MLKEM768_SECRET_KEY_LEN: usize = 2400;

/// Length of an ML-KEM-768 ciphertext.
pub const MLKEM768_CIPHERTEXT_LEN: usize = 1088;

/// Length of an ML-KEM-768 shared secret.
pub const MLKEM768_SHARED_SECRET_LEN: usize = 32;

/// The (decapsulation key, encapsulation key) pair derived from the seeds `d` and `z`.
pub uninterp spec fn mlkem768_keypair_of(d: Seq<u8>, z: Seq<u8>) -> ([u8; 2400], [u8; 1184]);

/// The (ciphertext, shared secret) pair of encapsulating to `ek` with message `m`.
pub uninterp spec fn mlkem768_encaps_of(ek: Seq<u8>, m: Seq<u8>) -> ([u8; 1088], [u8; 32]);

/// The shared secret that `dk` recovers from `ct`; for a ciphertext that does not
/// re-encrypt, the implicit-rejection value derived from `dk` and `ct`.
pub uninterp spec fn mlkem768_decaps_of(dk: Seq<u8>, ct: Seq<u8>) -> [u8; 32];

/// Relies on ml_kem's `KemCore::generate_deterministic` for `MlKem768` and the
/// keys' `as_bytes`: the encoded key pair derived from the two 32-byte seeds.
#[verifier::external_body]
fn mlkem768_generate(d: &[u8; 32], z: &[u8; 32]) -> (r: ([u8; 2400], [u8; 1184]))
    ensures
        r == mlkem768_keypair_of(d@, z@),
{
    let (dk, ek) = ml_kem::MlKem768::generate_deterministic(&(*d).into(), &(*z).into());
    (dk.as_bytes().into(), ek.as_bytes().into())
}

/// Relies on ml_kem's `EncapsulateDeterministic::encapsulate_deterministic`,
/// whose source always returns `Ok`: the ciphertext and shared secret for the
/// encoded key `ek` and the 32-byte message `m`.
#[verifier::external_body]
fn mlkem768_encapsulate(ek: &[u8; 1184], m: &[u8; 32]) -> (r: Option<([u8; 1088], [u8; 32])>)
    ensures
        r == Some(mlkem768_encaps_of(ek@, m@)),
{
    let key = EncapsulationKey::<MlKem768Params>::from_bytes(&(*ek).into());
    match key.encapsulate_deterministic(&(*m).into()) {
        Ok((ct, ss)) => Some((ct.into(), ss.into())),
        Err(_) => None,
    }
}

/// Relies on ml_kem's `Decapsulate::decapsulate`, whose source always returns
/// `Ok` and selects the implicit-rejection value in constant time: the shared
/// secret for the encoded key `dk` and ciphertext `ct`.
#[verifier::external_body]
fn mlkem768_decapsulate(dk: &[u8; 2400], ct: &[u8; 1088]) -> (r: Option<[u8; 32]>)
    ensures
        r == Some(mlkem768_decaps_of(dk@, ct@)),
{
    let key = DecapsulationKey::<MlKem768Params>::from_bytes(&(*dk).into());
    match key.decapsulate(&(*ct).into()) {
        Ok(ss) => Some(ss.into()),
        Err(_) => None,
    }
}

/// An ML-KEM-768 encapsulation key.
#[derive(Clone)]
pub struct MlKem768PublicKey(pub [u8; 1184]);

impl MlKem768PublicKey {
    /// Parses exactly MLKEM768_PUBLIC_KEY_LEN bytes; any other length is `InvalidLength`.
    pub fn try_from(bytes: &[u8]) -> (r: Result<Self, PrimitivesError>)
        ensures
            bytes@.len() == MLKEM768_PUBLIC_KEY_LEN ==> (r matches Ok(v) && v.0@ == bytes@),
            bytes@.len() != MLKEM768_PUBLIC_KEY_LEN ==> r == Err::<Self, PrimitivesError>(PrimitivesError::InvalidLength),
    {
        if bytes.len() != MLKEM768_PUBLIC_KEY_LEN {
            return Err(PrimitivesError::InvalidLength);
        }
        let mut arr = [0u8; 1184];
        copy_out(bytes, 0, &mut arr);
        Ok(Self(arr))
    }

    /// The encoded bytes.
    pub fn as_ref(&self) -> (r: &[u8])
        ensures
            r@ == self.0@,
    {
        &self.0
    }
}

/// An ML-KEM-768 decapsulation key.
#[derive(Clone)]
pub struct MlKem768SecretKey(pub [u8; 2400]);

impl MlKem768SecretKey {
    /// Parses exactly MLKEM768_SECRET_KEY_LEN bytes; any other length is `InvalidLength`.
    pub fn try_from(bytes: &[u8]) -> (r: Result<Self, PrimitivesError>)
        ensures
            bytes@.len() == MLKEM768_SECRET_KEY_LEN ==> (r matches Ok(v) && v.0@ == bytes@),
            bytes@.len() != MLKEM768_SECRET_KEY_LEN ==> r == Err::<Self, PrimitivesError>(PrimitivesError::InvalidLength),
    {
        if bytes.len() != MLKEM768_SECRET_KEY_LEN {
            return Err(PrimitivesError::InvalidLength);
        }
        let mut arr = [0u8; 2400];
        copy_out(bytes, 0, &mut arr);
        Ok(Self(arr))
    }

    /// The encoded bytes.
    pub fn as_ref(&self) -> (r: &[u8])
        ensures
            r@ == self.0@,
    {
        &self.0
    }
}

/// An ML-KEM-768 ciphertext.
#[derive(Clone)]
pub struct MlKem768Ciphertext(pub [u8; 1088]);

impl MlKem768Ciphertext {
    /// Parses exactly MLKEM768_CIPHERTEXT_LEN bytes; any other length is `InvalidLength`.
    pub fn try_from(bytes: &[u8]) -> (r: Result<Self, PrimitivesError>)
        ensures
            bytes@.len() == MLKEM768_CIPHERTEXT_LEN ==> (r matches Ok(v) && v.0@ == bytes@),
            bytes@.len() != MLKEM768_CIPHERTEXT_LEN ==> r == Err::<Self, PrimitivesError>(PrimitivesError::InvalidLength),
    {
        if bytes.len() != MLKEM768_CIPHERTEXT_LEN {
            return Err(PrimitivesError::InvalidLength);
        }
        let mut arr = [0u8; 1088];
        copy_out(bytes, 0, &mut arr);
        Ok(Self(arr))
    }

    /// The encoded bytes.
    pub fn as_ref(&self) -> (r: &[u8])
        ensures
            r@ == self.0@,
    {
        &self.0
    }
}

/// An ML-KEM-768 shared secret.
#[derive(Clone)]
pub struct MlKem768SharedSecret(pub [u8; 32]);

impl MlKem768SharedSecret {
    /// The encoded bytes.
    pub fn as_ref(&self) -> (r: &[u8])
        ensures
            r@ == self.0@,
    {
        &self.0
    }
}

impl Drop for MlKem768SecretKey {
    /// Erases the secret.
    fn drop(&mut self)
        opens_invariants none
        no_unwind
    {
        wipe(&mut self.0);
    }
}

impl Drop for MlKem768SharedSecret {
    /// Erases the secret.
    fn drop(&mut self)
        opens_invariants none
        no_unwind
    {
        wipe(&mut self.0);
    }
}

/// The ML-KEM-768 key-encapsulation adapter.
pub struct MlKem768;

impl Kem for MlKem768 {
    type PublicKey = MlKem768PublicKey;
    type SecretKey = MlKem768SecretKey;
    type Ciphertext = MlKem768Ciphertext;
    type SharedSecret = MlKem768SharedSecret;
    type Seed = [u8; 64];
    type Coins = [u8; 32];

    open spec fn is_keypair(seed: [u8; 64], sk: MlKem768SecretKey, pk: MlKem768PublicKey) -> bool {
        (sk.0, pk.0) == mlkem768_keypair_of(seed@.subrange(0, 32), seed@.subrange(32, 64))
    }

    open spec fn encapsulates(
        pk: MlKem768PublicKey,
        coins: [u8; 32],
        ct: MlKem768Ciphertext,
        ss: MlKem768SharedSecret,
    ) -> bool {
        (ct.0, ss.0) == mlkem768_encaps_of(pk.0@, coins@)
    }

    open spec fn decapsulates(sk: MlKem768SecretKey, ct: MlKem768Ciphertext, ss: MlKem768SharedSecret) -> bool {
        ss.0 == mlkem768_decaps_of(sk.0@, ct.0@)
    }

    /// Key pair from 64 random bytes: the seeds `d` (first half) and `z` (second half).
    fn generate_keypair(seed: &[u8; 64]) -> (r: (MlKem768SecretKey, MlKem768PublicKey))
        ensures
            (r.0.0, r.1.0) == mlkem768_keypair_of(seed@.subrange(0, 32), seed@.subrange(32, 64)),
    {
        let mut d = [0u8; 32];
        let mut z = [0u8; 32];
        copy_out(seed, 0, &mut d);
        copy_out(seed, 32, &mut z);
        let (dk, ek) = mlkem768_generate(&d, &z);
        (MlKem768SecretKey(dk), MlKem768PublicKey(ek))
    }

    /// Encapsulation to `pk` with the 32 random bytes `m`. Never fails.
    fn encapsulate(pk: &MlKem768PublicKey, m: &[u8; 32]) -> (r: Result<
        (MlKem768Ciphertext, MlKem768SharedSecret),
        PrimitivesError,
    >)
        ensures
            r matches Ok(v) && (v.0.0, v.1.0) == mlkem768_encaps_of(pk.0@, m@),
    {
        match mlkem768_encapsulate(&pk.0, m) {
            Some((ct, ss)) => Ok((MlKem768Ciphertext(ct), MlKem768SharedSecret(ss))),
            None => Err(PrimitivesError::CiphertextVerificationFailed),
        }
    }

    /// Decapsulation of `ct` with `sk`. Never fails: a ciphertext that does not
    /// verify yields the implicit-rejection secret, on the same path.
    fn decapsulate(sk: &MlKem768SecretKey, ct: &MlKem768Ciphertext) -> (r: Result<
        MlKem768SharedSecret,
        PrimitivesError,
    >)
        ensures
            r matches Ok(v) && v.0 == mlkem768_decaps_of(sk.0@, ct.0@),
    {
        match mlkem768_decapsulate(&sk.0, &ct.0) {
            Some(ss) => Ok(MlKem768SharedSecret(ss)),
            None => Err(PrimitivesError::CiphertextVerificationFailed),
        }
    }
}

} // verus!
