//! The hybrid combiner: X25519 and ML-KEM-768 composed into one KEM whose
//! shared secret is extracted from both sub-secrets and both sub-ciphertexts.
use vstd::prelude::*;
use crate::bytes::{copy_into, copy_out, wipe, zeros};
use crate::error::PrimitivesError;
use crate::traits::{HybridKem, Kem};
use crate::kdf::{hkdf_extract, hkdf_sha256_extract_of};
use crate::mlkem::{
    mlkem768_decaps_of, mlkem768_encaps_of, mlkem768_keypair_of, MlKem768, MlKem768Ciphertext,
    MlKem768PublicKey, MlKem768SecretKey,
};
use crate::x25519::{
    x25519_dh_of, x25519_public_of, X25519Ciphertext, X25519PublicKey, X25519SecretKey, X25519,
};

verus! {

/// KEM identifier of the X25519 + ML-KEM-768 combination.
pub const KEM_ID_X25519_MLKEM768: u16 = 0xFE30;

/// Length of a hybrid public key: X25519 key then ML-KEM-768 key.
pub const HYBRID_PUBLIC_KEY_LEN: usize = 1216;

/// Length of a hybrid secret key: X25519 key then ML-KEM-768 key.
pub const HYBRID_SECRET_KEY_LEN: usize = 2432;

/// Length of a hybrid ciphertext: X25519 ciphertext then ML-KEM-768 ciphertext.
pub const HYBRID_CIPHERTEXT_LEN: usize = 1120;

/// Length of the combiner's input keying material.
pub const COMBINER_IKM_LEN: usize = 1184;

/// `ss1 || ss2 || ct1 || ct2`: both sub-secrets, then both sub-ciphertexts.
pub open spec fn combiner_ikm(ss1: Seq<u8>, ss2: Seq<u8>, ct1: Seq<u8>, ct2: Seq<u8>) -> Seq<u8> {
    ss1 + ss2 + ct1 + ct2
}

/// The hybrid shared secret: HKDF-Extract under an all-zero 32-byte salt of the
/// combiner's input keying material.
pub open spec fn combined_secret(ss1: Seq<u8>, ss2: Seq<u8>, ct1: Seq<u8>, ct2: Seq<u8>) -> Seq<u8> {
    hkdf_sha256_extract_of(zeros(32), combiner_ikm(ss1, ss2, ct1, ct2))@
}

/// The hybrid (secret key, public key) bytes derived from a 96-byte seed: the
/// X25519 secret, then the two ML-KEM-768 seeds.
pub open spec fn hybrid_keypair_spec(seed: Seq<u8>) -> (Seq<u8>, Seq<u8>) {
    let xs = seed.subrange(0, 32);
    let kp = mlkem768_keypair_of(seed.subrange(32, 64), seed.subrange(64, 96));
    (xs + kp.0@, x25519_public_of(xs)@ + kp.1@)
}

/// The hybrid (ciphertext, shared secret) bytes of encapsulating to `pk` with
/// 64 random bytes: the X25519 ephemeral secret, then the ML-KEM-768 message.
pub open spec fn hybrid_encaps_spec(pk: Seq<u8>, coins: Seq<u8>) -> (Seq<u8>, Seq<u8>) {
    let c1 = coins.subrange(0, 32);
    let ct1 = x25519_public_of(c1)@;
    let ss1 = x25519_dh_of(c1, pk.subrange(0, 32))@;
    let e2 = mlkem768_encaps_of(pk.subrange(32, 1216), coins.subrange(32, 64));
    (ct1 + e2.0@, combined_secret(ss1, e2.1@, ct1, e2.0@))
}

/// The hybrid shared secret that `sk` recovers from `ct`.
pub open spec fn hybrid_decaps_spec(sk: Seq<u8>, ct: Seq<u8>) -> Seq<u8> {
    let ct1 = ct.subrange(0, 32);
    let ct2 = ct.subrange(32, 1120);
    let ss1 = x25519_dh_of(sk.subrange(0, 32), ct1)@;
    let ss2 = mlkem768_decaps_of(sk.subrange(32, 2432), ct2)@;
    combined_secret(ss1, ss2, ct1, ct2)
}

/// A hybrid public key: X25519 key then ML-KEM-768 key.
#[derive(Clone)]
pub struct HybridPublicKey(pub [u8; 1216]);

impl HybridPublicKey {
    /// Parses exactly HYBRID_PUBLIC_KEY_LEN bytes; any other length is `InvalidLength`.
    pub fn try_from(bytes: &[u8]) -> (r: Result<Self, PrimitivesError>)
        ensures
            bytes@.len() == HYBRID_PUBLIC_KEY_LEN ==> (r matches Ok(v) && v.0@ == bytes@),
            bytes@.len() != HYBRID_PUBLIC_KEY_LEN ==> r == Err::<Self, PrimitivesError>(PrimitivesError::InvalidLength),
    {
        if bytes.len() != HYBRID_PUBLIC_KEY_LEN {
            return Err(PrimitivesError::InvalidLength);
        }
        let mut arr = [0u8; 1216];
        copy_out(bytes, 0, &mut arr);
        Ok(Self(arr))
    }

    /// The encoded bytes.
    pub fn as_ref(&self) -> (r: &[u8])
        ensures
            r@ == self.0@,
    {
        &self.0
    }
}

/// A hybrid secret key: X25519 key then ML-KEM-768 key.
#[derive(Clone)]
pub struct HybridSecretKey(pub [u8; 2432]);

impl HybridSecretKey {
    /// Parses exactly HYBRID_SECRET_KEY_LEN bytes; any other length is `InvalidLength`.
    pub fn try_from(bytes: &[u8]) -> (r: Result<Self, PrimitivesError>)
        ensures
            bytes@.len() == HYBRID_SECRET_KEY_LEN ==> (r matches Ok(v) && v.0@ == bytes@),
            bytes@.len() != HYBRID_SECRET_KEY_LEN ==> r == Err::<Self, PrimitivesError>(PrimitivesError::InvalidLength),
    {
        if bytes.len() != HYBRID_SECRET_KEY_LEN {
            return Err(PrimitivesError::InvalidLength);
        }
        let mut arr = [0u8; 2432];
        copy_out(bytes, 0, &mut arr);
        Ok(Self(arr))
    }

    /// The encoded bytes.
    pub fn as_ref(&self) -> (r: &[u8])
        ensures
            r@ == self.0@,
    {
        &self.0
    }
}

/// A hybrid ciphertext: X25519 ciphertext then ML-KEM-768 ciphertext.
#[derive(Clone)]
pub struct HybridCiphertext(pub [u8; 1120]);

impl HybridCiphertext {
    /// Parses exactly HYBRID_CIPHERTEXT_LEN bytes; any other length is `InvalidLength`.
    pub fn try_from(bytes: &[u8]) -> (r: Result<Self, PrimitivesError>)
        ensures
            bytes@.len() == HYBRID_CIPHERTEXT_LEN ==> (r matches Ok(v) && v.0@ == bytes@),
            bytes@.len() != HYBRID_CIPHERTEXT_LEN ==> r == Err::<Self, PrimitivesError>(PrimitivesError::InvalidLength),
    {
        if bytes.len() != HYBRID_CIPHERTEXT_LEN {
            return Err(PrimitivesError::InvalidLength);
        }
        let mut arr = [0u8; 1120];
        copy_out(bytes, 0, &mut arr);
        Ok(Self(arr))
    }

    /// The encoded bytes.
    pub fn as_ref(&self) -> (r: &[u8])
        ensures
            r@ == self.0@,
    {
        &self.0
    }
}

/// The hybrid shared secret.
#[derive(Clone)]
pub struct HybridSharedSecret(pub [u8; 32]);

impl HybridSharedSecret {
    /// The secret bytes.
    pub fn as_ref(&self) -> (r: &[u8])
        ensures
            r@ == self.0@,
    {
        &self.0
    }
}

impl Drop for HybridSecretKey {
    /// Erases the secret.
    fn drop(&mut self)
        opens_invariants none
        no_unwind
    {
        wipe(&mut self.0);
    }
}

impl Drop for HybridSharedSecret {
    /// Erases the secret.
    fn drop(&mut self)
        opens_invariants none
        no_unwind
    {
        wipe(&mut self.0);
    }
}

/// Derives the hybrid shared secret from the two sub-secrets and the two
/// sub-ciphertexts, using `ikm` as scratch space. On return the two
/// sub-secrets and the scratch buffer hold only zero bytes.
pub fn combine(
    ss1: &mut [u8; 32],
    ss2: &mut [u8; 32],
    ct1: &[u8; 32],
    ct2: &[u8; 1088],
    ikm: &mut [u8; 1184],
) -> (r: [u8; 32])
    ensures
        r@ == combined_secret(old(ss1)@, old(ss2)@, ct1@, ct2@),
        final(ss1)@ == zeros(32),
        final(ss2)@ == zeros(32),
        final(ikm)@ == zeros(1184),
{
    copy_into(ikm, 0, ss1);
    copy_into(ikm, 32, ss2);
    copy_into(ikm, 64, ct1);
    copy_into(ikm, 96, ct2);
    assert(ikm@ =~= combiner_ikm(old(ss1)@, old(ss2)@, ct1@, ct2@));
    let salt = [0u8; 32];
    assert(salt@ =~= zeros(32));
    let prk = hkdf_extract(&salt, ikm);
    wipe(ikm);
    wipe(ss1);
    wipe(ss2);
    prk
}

/// The X25519 + ML-KEM-768 hybrid KEM.
pub struct CombinerX25519MlKem768;

impl HybridKem for CombinerX25519MlKem768 {}

impl Kem for CombinerX25519MlKem768 {
    type PublicKey = HybridPublicKey;
    type SecretKey = HybridSecretKey;
    type Ciphertext = HybridCiphertext;
    type SharedSecret = HybridSharedSecret;
    type Seed = [u8; 96];
    type Coins = [u8; 64];

    open spec fn is_keypair(seed: [u8; 96], sk: HybridSecretKey, pk: HybridPublicKey) -> bool {
        (sk.0@, pk.0@) == hybrid_keypair_spec(seed@)
    }

    open spec fn encapsulates(
        pk: HybridPublicKey,
        coins: [u8; 64],
        ct: HybridCiphertext,
        ss: HybridSharedSecret,
    ) -> bool {
        (ct.0@, ss.0@) == hybrid_encaps_spec(pk.0@, coins@)
    }

    open spec fn decapsulates(sk: HybridSecretKey, ct: HybridCiphertext, ss: HybridSharedSecret) -> bool {
        ss.0@ == hybrid_decaps_spec(sk.0@, ct.0@)
    }

    /// Key pair from 96 random bytes: 32 for the X25519 secret, then the two
    /// 32-byte ML-KEM-768 seeds. The sub-keys are concatenated, X25519 first.
    fn generate_keypair(seed: &[u8; 96]) -> (r: (HybridSecretKey, HybridPublicKey))
        ensures
            (r.0.0@, r.1.0@) == hybrid_keypair_spec(seed@),
    {
        let mut xs = [0u8; 32];
        let mut ms = [0u8; 64];
        copy_out(seed, 0, &mut xs);
        copy_out(seed, 32, &mut ms);
        assert(ms@.subrange(0, 32) =~= seed@.subrange(32, 64));
        assert(ms@.subrange(32, 64) =~= seed@.subrange(64, 96));
        let (sk1, pk1) = X25519::generate_keypair(&xs);
        let (sk2, pk2) = MlKem768::generate_keypair(&ms);
        let mut sk = [0u8; 2432];
        copy_into(&mut sk, 0, &sk1.0);
        copy_into(&mut sk, 32, &sk2.0);
        let mut pk = [0u8; 1216];
        copy_into(&mut pk, 0, &pk1.0);
        copy_into(&mut pk, 32, &pk2.0);
        assert(sk@ =~= sk1.0@ + sk2.0@);
        assert(pk@ =~= pk1.0@ + pk2.0@);
        wipe(&mut xs);
        wipe(&mut ms);
        (HybridSecretKey(sk), HybridPublicKey(pk))
    }

    /// Encapsulation to `pk` with 64 random bytes: 32 for the X25519 ephemeral
    /// secret, then the 32-byte ML-KEM-768 message. The ciphertext is the X25519
    /// ciphertext followed by the ML-KEM-768 one; the shared secret is the
    /// combiner's extraction. Never fails.
    fn encapsulate(pk: &HybridPublicKey, coins: &[u8; 64]) -> (r: Result<
        (HybridCiphertext, HybridSharedSecret),
        PrimitivesError,
    >)
        ensures
            r matches Ok(v) && (v.0.0@, v.1.0@) == hybrid_encaps_spec(pk.0@, coins@),
    {
        let mut pk1 = [0u8; 32];
        let mut pk2 = [0u8; 1184];
        copy_out(&pk.0, 0, &mut pk1);
        copy_out(&pk.0, 32, &mut pk2);
        let mut c1 = [0u8; 32];
        let mut m = [0u8; 32];
        copy_out(coins, 0, &mut c1);
        copy_out(coins, 32, &mut m);
        let r1 = X25519::encapsulate(&X25519PublicKey(pk1), &c1);
        wipe(&mut c1);
        let (ct1, mut ss1) = match r1 {
            Ok(v) => v,
            Err(e) => {
                wipe(&mut m);
                return Err(e);
            },
        };
        let r2 = MlKem768::encapsulate(&MlKem768PublicKey(pk2), &m);
        wipe(&mut m);
        let (ct2, mut ss2) = match r2 {
            Ok(v) => v,
            Err(e) => {
                wipe(&mut ss1.0);
                return Err(e);
            },
        };
        let mut ct = [0u8; 1120];
        copy_into(&mut ct, 0, &ct1.0);
        copy_into(&mut ct, 32, &ct2.0);
        assert(ct@ =~= ct1.0@ + ct2.0@);
        let mut ikm = [0u8; 1184];
        let ss = combine(&mut ss1.0, &mut ss2.0, &ct1.0, &ct2.0, &mut ikm);
        Ok((HybridCiphertext(ct), HybridSharedSecret(ss)))
    }

    /// Decapsulation: splits `sk` and `ct` at the fixed 32-byte boundary, runs
    /// both sub-KEMs' decapsulation and the same combiner extraction. Never
    /// fails; an invalid ML-KEM-768 ciphertext yields its implicit-rejection
    /// secret on the same path.
    fn decapsulate(sk: &HybridSecretKey, ct: &HybridCiphertext) -> (r: Result<
        HybridSharedSecret,
        PrimitivesError,
    >)
        ensures
            r matches Ok(v) && v.0@ == hybrid_decaps_spec(sk.0@, ct.0@),
    {
        let mut sk1 = X25519SecretKey([0u8; 32]);
        let mut sk2 = MlKem768SecretKey([0u8; 2400]);
        copy_out(&sk.0, 0, &mut sk1.0);
        copy_out(&sk.0, 32, &mut sk2.0);
        let mut ct1 = X25519Ciphertext([0u8; 32]);
        let mut ct2 = MlKem768Ciphertext([0u8; 1088]);
        copy_out(&ct.0, 0, &mut ct1.0);
        copy_out(&ct.0, 32, &mut ct2.0);
        let r1 = X25519::decapsulate(&sk1, &ct1);
        wipe(&mut sk1.0);
        let mut ss1 = match r1 {
            Ok(v) => v,
            Err(e) => {
                wipe(&mut sk2.0);
                return Err(e);
            },
        };
        let r2 = MlKem768::decapsulate(&sk2, &ct2);
        wipe(&mut sk2.0);
        let mut ss2 = match r2 {
            Ok(v) => v,
            Err(e) => {
                wipe(&mut ss1.0);
                return Err(e);
            },
        };
        let mut ikm = [0u8; 1184];
        let ss = combine(&mut ss1.0, &mut ss2.0, &ct1.0, &ct2.0, &mut ikm);
        Ok(HybridSharedSecret(ss))
    }
}

/// Round trip of the hybrid KEM: decapsulating, with the secret key of a
/// generated key pair, the ciphertext just encapsulated to its public key
/// recovers the encapsulated shared secret. Holds whenever the two sub-KEMs
/// agree on their own shared secrets for these keys and coins: X25519 by
/// commutativity of the Diffie-Hellman value, ML-KEM-768 outside its
/// decryption-failure event.
pub proof fn lemma_round_trip(seed: Seq<u8>, coins: Seq<u8>)
    requires
        seed.len() == 96,
        coins.len() == 64,
        x25519_dh_of(seed.subrange(0, 32), x25519_public_of(coins.subrange(0, 32))@)
            == x25519_dh_of(coins.subrange(0, 32), x25519_public_of(seed.subrange(0, 32))@),
        ({
            let kp = mlkem768_keypair_of(seed.subrange(32, 64), seed.subrange(64, 96));
            let e = mlkem768_encaps_of(kp.1@, coins.subrange(32, 64));
            mlkem768_decaps_of(kp.0@, e.0@) == e.1
        }),
    ensures
        ({
            let kp = hybrid_keypair_spec(seed);
            let e = hybrid_encaps_spec(kp.1, coins);
            hybrid_decaps_spec(kp.0, e.0) == e.1
        }),
{
    let xs = seed.subrange(0, 32);
    let c1 = coins.subrange(0, 32);
    let kp2 = mlkem768_keypair_of(seed.subrange(32, 64), seed.subrange(64, 96));
    let kp = hybrid_keypair_spec(seed);
    let ct1 = x25519_public_of(c1)@;
    let e2 = mlkem768_encaps_of(kp2.1@, coins.subrange(32, 64));
    let e = hybrid_encaps_spec(kp.1, coins);
    assert(kp.0.subrange(0, 32) =~= xs);
    assert(kp.0.subrange(32, 2432) =~= kp2.0@);
    assert(kp.1.subrange(0, 32) =~= x25519_public_of(xs)@);
    assert(kp.1.subrange(32, 1216) =~= kp2.1@);
    assert(e.0.subrange(0, 32) =~= ct1);
    assert(e.0.subrange(32, 1120) =~= e2.0@);
}

} // verus!
