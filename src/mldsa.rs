//! ML-DSA-65 signatures behind exact-length byte arrays.
use vstd::prelude::*;
use crate::bytes::{copy_out, wipe};
use crate::error::PrimitivesError;
use crate::traits::Signature as SignatureScheme;
use ml_dsa::{KeyGen, Signature, SigningKey, VerifyingKey};

verus! {

/// Length of an ML-DSA-65 public key.
pub const MLDSA65_PUBLIC_KEY_LEN: usize = 1952;

/// Length of an ML-DSA-65 secret key.
pub const MLDSA65_SECRET_KEY_LEN: usize = 4032;

/// Length of an ML-DSA-65 signature.
pub const MLDSA65_SIGNATURE_LEN: usize = 3309;

/// The encoded (signing key, verifying key) pair derived from the seed `xi`.
pub uninterp spec fn mldsa65_keypair_of(xi: Seq<u8>) -> ([u8; 4032], [u8; 1952]);

/// The deterministic signature of `msg` (empty context) under the encoded key `sk`.
pub uninterp spec fn mldsa65_sign_of(sk: Seq<u8>, msg: Seq<u8>) -> [u8; 3309];

/// Whether `sig` decodes and verifies for `msg` (empty context) under the encoded key `pk`.
pub uninterp spec fn mldsa65_verify_of(pk: Seq<u8>, msg: Seq<u8>, sig: Seq<u8>) -> bool;

/// The encoded secret vectors s1 and s2 (bytes 128..1536) hold only 4-bit
/// coefficients of at most 2 * eta = 8, the range that decoding a signing key
/// accepts.
pub open spec fn mldsa65_secret_key_well_formed(sk: Seq<u8>) -> bool {
    forall|i: int| 128 <= i < 1536 ==> (#[trigger] sk[i]) % 16 <= 8 && sk[i] / 16 <= 8
}

/// Relies on ml_dsa's `KeyGen::key_gen_internal` for `MlDsa65` and the keys'
/// `encode`: the encoded key pair derived from the 32-byte seed. `expand_s`
/// keeps s1 and s2 within [-eta, eta], which `encode` packs as eta - x in
/// [0, 2 * eta].
#[verifier::external_body]
fn mldsa65_generate(xi: &[u8; 32]) -> (r: ([u8; 4032], [u8; 1952]))
    ensures
        r == mldsa65_keypair_of(xi@),
        mldsa65_secret_key_well_formed(r.0@),
{
    let kp = ml_dsa::MlDsa65::key_gen_internal(&(*xi).into());
    (kp.signing_key().encode().into(), kp.verifying_key().encode().into())
}

/// Relies on ml_dsa's `SigningKey::decode` and `SigningKey::sign_deterministic`.
/// Decoding asserts that every s1 and s2 coefficient is at most 2 * eta, which
/// the `requires` demands. Signing refuses only a context longer than 255
/// bytes (the context here is empty); its rejection-sampling loop, which panics
/// after 13107 rejections in a row, is assumed to end.
#[verifier::external_body]
fn mldsa65_sign(sk: &[u8; 4032], msg: &[u8]) -> (r: Option<[u8; 3309]>)
    requires
        mldsa65_secret_key_well_formed(sk@),
    ensures
        r == Some(mldsa65_sign_of(sk@, msg@)),
{
    let key = SigningKey::<ml_dsa::MlDsa65>::decode(&(*sk).into());
    match key.sign_deterministic(msg, &[]) {
        Ok(sig) => Some(sig.encode().into()),
        Err(_) => None,
    }
}

/// Relies on ml_dsa's `VerifyingKey::decode`, `Signature::decode` and
/// `VerifyingKey::verify_with_context` with an empty context.
#[verifier::external_body]
fn mldsa65_verify(pk: &[u8; 1952], msg: &[u8], sig: &[u8; 3309]) -> (r: bool)
    ensures
        r == mldsa65_verify_of(pk@, msg@, sig@),
{
    let key = VerifyingKey::<ml_dsa::MlDsa65>::decode(&(*pk).into());
    match Signature::<ml_dsa::MlDsa65>::decode(&(*sig).into()) {
        Some(s) => key.verify_with_context(msg, &[], &s),
        None => false,
    }
}

/// An ML-DSA-65 public key.
#[derive(Clone)]
pub struct MlDsa65PublicKey(pub [u8; 1952]);

impl MlDsa65PublicKey {
    /// Parses exactly MLDSA65_PUBLIC_KEY_LEN bytes; any other length is `InvalidLength`.
    pub fn try_from(bytes: &[u8]) -> (r: Result<Self, PrimitivesError>)
        ensures
            bytes@.len() == MLDSA65_PUBLIC_KEY_LEN ==> (r matches Ok(v) && v.0@ == bytes@),
            bytes@.len() != MLDSA65_PUBLIC_KEY_LEN ==> r == Err::<Self, PrimitivesError>(PrimitivesError::InvalidLength),
    {
        if bytes.len() != MLDSA65_PUBLIC_KEY_LEN {
            return Err(PrimitivesError::InvalidLength);
        }
        let mut arr = [0u8; 1952];
        copy_out(bytes, 0, &mut arr);
        Ok(Self(arr))
    }

    /// The encoded bytes.
    pub fn as_ref(&self) -> (r: &[u8])
        ensures
            r@ == self.0@,
    {
        &self.0
    }
}

/// An ML-DSA-65 secret key.
#[derive(Clone)]
pub struct MlDsa65SecretKey(pub [u8; 4032]);

impl MlDsa65SecretKey {
    /// Whether `sign` accepts this key: every s1 and s2 coefficient is in range.
    pub fn is_well_formed(&self) -> (r: bool)
        ensures
            r == mldsa65_secret_key_well_formed(self.0@),
    {
        let mut i: usize = 128;
        while i < 1536
            invariant
                128 <= i <= 1536,
                forall|k: int| 128 <= k < i ==> (#[trigger] self.0@[k]) % 16 <= 8 && self.0@[k] / 16 <= 8,
            decreases 1536 - i,
        {
            let b = self.0[i];
            if b % 16 > 8 || b / 16 > 8 {
                assert(!mldsa65_secret_key_well_formed(self.0@)) by {
                    assert(self.0@[i as int] == b);
                }
                return false;
            }
            i = i + 1;
        }
        true
    }

    /// Parses exactly MLDSA65_SECRET_KEY_LEN bytes; any other length is `InvalidLength`.
    pub fn try_from(bytes: &[u8]) -> (r: Result<Self, PrimitivesError>)
        ensures
            bytes@.len() == MLDSA65_SECRET_KEY_LEN ==> (r matches Ok(v) && v.0@ == bytes@),
            bytes@.len() != MLDSA65_SECRET_KEY_LEN ==> r == Err::<Self, PrimitivesError>(PrimitivesError::InvalidLength),
    {
        if bytes.len() != MLDSA65_SECRET_KEY_LEN {
            return Err(PrimitivesError::InvalidLength);
        }
        let mut arr = [0u8; 4032];
        copy_out(bytes, 0, &mut arr);
        Ok(Self(arr))
    }

    /// The encoded bytes.
    pub fn as_ref(&self) -> (r: &[u8])
        ensures
            r@ == self.0@,
    {
        &self.0
    }
}

/// An ML-DSA-65 signature.
#[derive(Clone)]
pub struct MlDsa65Signature(pub [u8; 3309]);

impl MlDsa65Signature {
    /// Parses exactly MLDSA65_SIGNATURE_LEN bytes; any other length is `InvalidLength`.
    pub fn try_from(bytes: &[u8]) -> (r: Result<Self, PrimitivesError>)
        ensures
            bytes@.len() == MLDSA65_SIGNATURE_LEN ==> (r matches Ok(v) && v.0@ == bytes@),
            bytes@.len() != MLDSA65_SIGNATURE_LEN ==> r == Err::<Self, PrimitivesError>(PrimitivesError::InvalidLength),
    {
        if bytes.len() != MLDSA65_SIGNATURE_LEN {
            return Err(PrimitivesError::InvalidLength);
        }
        let mut arr = [0u8; 3309];
        copy_out(bytes, 0, &mut arr);
        Ok(Self(arr))
    }

    /// The encoded bytes.
    pub fn as_ref(&self) -> (r: &[u8])
        ensures
            r@ == self.0@,
    {
        &self.0
    }
}

impl Drop for MlDsa65SecretKey {
    /// Erases the secret.
    fn drop(&mut self)
        opens_invariants none
        no_unwind
    {
        wipe(&mut self.0);
    }
}

/// The ML-DSA-65 signature adapter.
pub struct MlDsa65;

impl SignatureScheme for MlDsa65 {
    type PublicKey = MlDsa65PublicKey;
    type SecretKey = MlDsa65SecretKey;
    type Sig = MlDsa65Signature;
    type Seed = [u8; 32];

    open spec fn is_keypair(seed: [u8; 32], sk: MlDsa65SecretKey, pk: MlDsa65PublicKey) -> bool {
        (sk.0, pk.0) == mldsa65_keypair_of(seed@)
    }

    open spec fn accepts_signing_key(sk: MlDsa65SecretKey) -> bool {
        mldsa65_secret_key_well_formed(sk.0@)
    }

    open spec fn signs(sk: MlDsa65SecretKey, message: Seq<u8>, sig: MlDsa65Signature) -> bool {
        sig.0 == mldsa65_sign_of(sk.0@, message)
    }

    open spec fn verifies(pk: MlDsa65PublicKey, message: Seq<u8>, sig: MlDsa65Signature) -> bool {
        mldsa65_verify_of(pk.0@, message, sig.0@)
    }

    /// Key pair from the 32 random bytes `seed`.
    fn generate_keypair(seed: &[u8; 32]) -> (r: (MlDsa65SecretKey, MlDsa65PublicKey))
        ensures
            (r.0.0, r.1.0) == mldsa65_keypair_of(seed@),
    {
        let (sk, pk) = mldsa65_generate(seed);
        (MlDsa65SecretKey(sk), MlDsa65PublicKey(pk))
    }

    /// The deterministic signature of `message` under `sk`.
    fn sign(sk: &MlDsa65SecretKey, message: &[u8]) -> (r: MlDsa65Signature)
        ensures
            r.0 == mldsa65_sign_of(sk.0@, message@),
    {
        match mldsa65_sign(&sk.0, message) {
            Some(sig) => MlDsa65Signature(sig),
            None => MlDsa65Signature([0u8; 3309]),
        }
    }

    /// Verification: `Ok` exactly when the signature verifies, else
    /// `SignatureVerificationFailed`.
    fn verify(pk: &MlDsa65PublicKey, message: &[u8], sig: &MlDsa65Signature) -> (r: Result<
        (),
        PrimitivesError,
    >)
        ensures
            r is Ok <==> mldsa65_verify_of(pk.0@, message@, sig.0@),
            r is Err ==> r == Err::<(), PrimitivesError>(PrimitivesError::SignatureVerificationFailed),
    {
        if mldsa65_verify(&pk.0, message, &sig.0) {
            Ok(())
        } else {
            Err(PrimitivesError::SignatureVerificationFailed)
        }
    }
}

} // verus!
