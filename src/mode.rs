//! Sender and recipient setup for the base, pre-shared-key and authenticated
//! modes. Every internal failure surfaces as the one `KdfError` outcome; a
//! received encapsulation of the wrong length is refused before any secret is
//! touched.
use vstd::prelude::*;
use crate::combiner::{
    hybrid_decaps_spec, hybrid_encaps_spec, hybrid_keypair_spec, lemma_round_trip, CombinerX25519MlKem768, HybridCiphertext,
    HybridPublicKey, HybridSecretKey, HYBRID_CIPHERTEXT_LEN,
};
use crate::bytes::{copy_out, wipe};
use crate::traits::Kem;
use crate::error::HpkeError;
use crate::format::Enc;
use crate::kdf::{labeled_info, INFO_MAX_LEN};
use crate::mlkem::{mlkem768_decaps_of, mlkem768_encaps_of, mlkem768_keypair_of};
use crate::x25519::{x25519_dh_of, x25519_public_of};
use crate::hpke::{
    label_base_nonce, label_key, schedule_context, suite_id_spec, bind_sender, derive_context, schedule_fits, schedule_key, schedule_nonce, sender_binding,
    AeadAlgorithm, RecipientContext, SenderContext, MODE_AUTH, MODE_BASE, MODE_PSK,
};

verus! {

/// `key` and `base_nonce` are the schedule's outputs for these inputs, and the
/// sequence counter starts at zero.
pub open spec fn sender_context_is(
    c: SenderContext,
    aead: AeadAlgorithm,
    mode: u8,
    shared_secret: Seq<u8>,
    info: Seq<u8>,
    psk: Seq<u8>,
    psk_id: Seq<u8>,
) -> bool {
    &&& c.key@ == schedule_key(aead, mode, shared_secret, info, psk, psk_id)
    &&& c.base_nonce@ == schedule_nonce(aead, mode, shared_secret, info, psk, psk_id)
    &&& c.key@.len() == aead.spec_key_len()
    &&& c.base_nonce@.len() == 12
    &&& c.seq == 0
}

/// The recipient-side counterpart of `sender_context_is`.
pub open spec fn recipient_context_is(
    c: RecipientContext,
    aead: AeadAlgorithm,
    mode: u8,
    shared_secret: Seq<u8>,
    info: Seq<u8>,
    psk: Seq<u8>,
    psk_id: Seq<u8>,
) -> bool {
    &&& c.key@ == schedule_key(aead, mode, shared_secret, info, psk, psk_id)
    &&& c.base_nonce@ == schedule_nonce(aead, mode, shared_secret, info, psk, psk_id)
    &&& c.key@.len() == aead.spec_key_len()
    &&& c.base_nonce@.len() == 12
    &&& c.seq == 0
}

/// Encapsulates to `recipient_pk` with `coins` and runs the schedule.
fn sender_setup(
    aead: AeadAlgorithm,
    mode: u8,
    recipient_pk: &HybridPublicKey,
    info: &[u8],
    psk: &[u8],
    psk_id: &[u8],
    coins: &[u8; 64],
) -> (r: Result<(Enc, SenderContext), HpkeError>)
    ensures
        r is Ok <==> schedule_fits(info@, psk@, psk_id@),
        r is Err ==> r == Err::<(Enc, SenderContext), HpkeError>(HpkeError::KdfError),
        r matches Ok(v) ==> ({
            let e = hybrid_encaps_spec(recipient_pk.0@, coins@);
            v.0@ == e.0 && sender_context_is(v.1, aead, mode, e.1, info@, psk@, psk_id@)
        }),
{
    let (ct, mut ss) = match CombinerX25519MlKem768::encapsulate(recipient_pk, coins) {
        Ok(v) => v,
        Err(_) => {
            return Err(HpkeError::KdfError);
        },
    };
    match derive_context(aead, mode, &mut ss.0, info, psk, psk_id) {
        Ok((key, base_nonce)) => Ok((Enc::new(&ct.0), SenderContext { key, base_nonce, seq: 0 })),
        Err(_) => Err(HpkeError::KdfError),
    }
}

/// Checks the length of `enc`, decapsulates it with `recipient_sk` and runs the schedule.
fn recipient_setup(
    aead: AeadAlgorithm,
    mode: u8,
    enc: &Enc,
    recipient_sk: &HybridSecretKey,
    info: &[u8],
    psk: &[u8],
    psk_id: &[u8],
) -> (r: Result<RecipientContext, HpkeError>)
    ensures
        enc@.len() != HYBRID_CIPHERTEXT_LEN ==> r == Err::<RecipientContext, HpkeError>(
            HpkeError::InvalidCiphertext,
        ),
        enc@.len() == HYBRID_CIPHERTEXT_LEN ==> (r is Ok <==> schedule_fits(info@, psk@, psk_id@)),
        enc@.len() == HYBRID_CIPHERTEXT_LEN && r is Err ==> r == Err::<RecipientContext, HpkeError>(
            HpkeError::KdfError,
        ),
        r matches Ok(c) ==> recipient_context_is(
            c,
            aead,
            mode,
            hybrid_decaps_spec(recipient_sk.0@, enc@),
            info@,
            psk@,
            psk_id@,
        ),
{
    let bytes = enc.to_bytes();
    if bytes.len() != HYBRID_CIPHERTEXT_LEN {
        return Err(HpkeError::InvalidCiphertext);
    }
    let mut ct = HybridCiphertext([0u8; 1120]);
    copy_out(bytes, 0, &mut ct.0);
    assert(ct.0@ =~= enc@);
    let mut ss = match CombinerX25519MlKem768::decapsulate(recipient_sk, &ct) {
        Ok(v) => v,
        Err(_) => {
            return Err(HpkeError::KdfError);
        },
    };
    match derive_context(aead, mode, &mut ss.0, info, psk, psk_id) {
        Ok((key, base_nonce)) => Ok(RecipientContext { key, base_nonce, seq: 0 }),
        Err(_) => Err(HpkeError::KdfError),
    }
}

/// Base-mode sender setup: encapsulates to `recipient_pk` with the 64 random
/// bytes `coins` and derives the context bound to `info`. Fails with
/// `KdfError` exactly when `info` is longer than 256 bytes.
pub fn setup_base_sender(
    aead: AeadAlgorithm,
    recipient_pk: &HybridPublicKey,
    info: &[u8],
    coins: &[u8; 64],
) -> (r: Result<(Enc, SenderContext), HpkeError>)
    ensures
        info@.len() <= INFO_MAX_LEN ==> r is Ok,
        r is Ok <==> schedule_fits(info@, Seq::empty(), Seq::empty()),
        r is Err ==> r == Err::<(Enc, SenderContext), HpkeError>(HpkeError::KdfError),
        r matches Ok(v) ==> ({
            let e = hybrid_encaps_spec(recipient_pk.0@, coins@);
            v.0@ == e.0 && sender_context_is(v.1, aead, MODE_BASE, e.1, info@, Seq::empty(), Seq::empty())
        }),
{
    let empty: [u8; 0] = [];
    assert(empty@ =~= Seq::<u8>::empty());
    sender_setup(aead, MODE_BASE, recipient_pk, info, &empty, &empty, coins)
}

/// Base-mode recipient setup. An `enc` of any length but 1120 bytes is
/// refused with `InvalidCiphertext` before any derivation; otherwise it fails
/// with `KdfError` exactly when `info` is longer than 256 bytes.
pub fn setup_base_recipient(
    aead: AeadAlgorithm,
    enc: &Enc,
    recipient_sk: &HybridSecretKey,
    info: &[u8],
) -> (r: Result<RecipientContext, HpkeError>)
    ensures
        enc@.len() == HYBRID_CIPHERTEXT_LEN && info@.len() <= INFO_MAX_LEN ==> r is Ok,
        enc@.len() != HYBRID_CIPHERTEXT_LEN ==> r == Err::<RecipientContext, HpkeError>(
            HpkeError::InvalidCiphertext,
        ),
        enc@.len() == HYBRID_CIPHERTEXT_LEN ==> (r is Ok <==> schedule_fits(info@,
            Seq::empty(),
            Seq::empty(),
        )),
        enc@.len() == HYBRID_CIPHERTEXT_LEN && r is Err ==> r == Err::<RecipientContext, HpkeError>(
            HpkeError::KdfError,
        ),
        r matches Ok(c) ==> recipient_context_is(
            c,
            aead,
            MODE_BASE,
            hybrid_decaps_spec(recipient_sk.0@, enc@),
            info@,
            Seq::empty(),
            Seq::empty(),
        ),
{
    let empty: [u8; 0] = [];
    assert(empty@ =~= Seq::<u8>::empty());
    recipient_setup(aead, MODE_BASE, enc, recipient_sk, info, &empty, &empty)
}

/// Pre-shared-key sender setup: as the base mode, with `psk` as the extracted
/// input of the schedule's secret and `psk_id` bound into its context.
pub fn setup_psk_sender(
    aead: AeadAlgorithm,
    recipient_pk: &HybridPublicKey,
    info: &[u8],
    psk: &[u8],
    psk_id: &[u8],
    coins: &[u8; 64],
) -> (r: Result<(Enc, SenderContext), HpkeError>)
    ensures
        info@.len() <= INFO_MAX_LEN && psk@.len() <= INFO_MAX_LEN && psk_id@.len() <= INFO_MAX_LEN ==> r is Ok,
        r is Ok <==> schedule_fits(info@, psk@, psk_id@),
        r is Err ==> r == Err::<(Enc, SenderContext), HpkeError>(HpkeError::KdfError),
        r matches Ok(v) ==> ({
            let e = hybrid_encaps_spec(recipient_pk.0@, coins@);
            v.0@ == e.0 && sender_context_is(v.1, aead, MODE_PSK, e.1, info@, psk@, psk_id@)
        }),
{
    sender_setup(aead, MODE_PSK, recipient_pk, info, psk, psk_id, coins)
}

/// Pre-shared-key recipient setup.
pub fn setup_psk_recipient(
    aead: AeadAlgorithm,
    enc: &Enc,
    recipient_sk: &HybridSecretKey,
    info: &[u8],
    psk: &[u8],
    psk_id: &[u8],
) -> (r: Result<RecipientContext, HpkeError>)
    ensures
        enc@.len() == HYBRID_CIPHERTEXT_LEN && info@.len() <= INFO_MAX_LEN && psk@.len() <= INFO_MAX_LEN && psk_id@.len() <= INFO_MAX_LEN ==> r is Ok,
        enc@.len() != HYBRID_CIPHERTEXT_LEN ==> r == Err::<RecipientContext, HpkeError>(
            HpkeError::InvalidCiphertext,
        ),
        enc@.len() == HYBRID_CIPHERTEXT_LEN ==> (r is Ok <==> schedule_fits(info@, psk@, psk_id@)),
        enc@.len() == HYBRID_CIPHERTEXT_LEN && r is Err ==> r == Err::<RecipientContext, HpkeError>(
            HpkeError::KdfError,
        ),
        r matches Ok(c) ==> recipient_context_is(
            c,
            aead,
            MODE_PSK,
            hybrid_decaps_spec(recipient_sk.0@, enc@),
            info@,
            psk@,
            psk_id@,
        ),
{
    recipient_setup(aead, MODE_PSK, enc, recipient_sk, info, psk, psk_id)
}

/// Authenticated sender setup: as the base mode, with the binding of
/// `sender_pk` as the extracted input of the schedule's secret, so that
/// contexts derived for different senders are unrelated. The hybrid KEM has no
/// authenticated encapsulation, so `sender_sk` takes no part in the derivation.
pub fn setup_auth_sender(
    aead: AeadAlgorithm,
    recipient_pk: &HybridPublicKey,
    sender_sk: &HybridSecretKey,
    sender_pk: &HybridPublicKey,
    info: &[u8],
    coins: &[u8; 64],
) -> (r: Result<(Enc, SenderContext), HpkeError>)
    ensures
        info@.len() <= INFO_MAX_LEN ==> r is Ok,
        r is Ok <==> schedule_fits(info@, sender_binding(aead, sender_pk.0@), Seq::empty()),
        r is Err ==> r == Err::<(Enc, SenderContext), HpkeError>(HpkeError::KdfError),
        r matches Ok(v) ==> ({
            let e = hybrid_encaps_spec(recipient_pk.0@, coins@);
            v.0@ == e.0 && sender_context_is(
                v.1,
                aead,
                MODE_AUTH,
                e.1,
                info@,
                sender_binding(aead, sender_pk.0@),
                Seq::empty(),
            )
        }),
{
    let empty: [u8; 0] = [];
    assert(empty@ =~= Seq::<u8>::empty());
    let mut binding = bind_sender(aead, sender_pk);
    let r = sender_setup(aead, MODE_AUTH, recipient_pk, info, &binding, &empty, coins);
    wipe(&mut binding);
    r
}

/// Authenticated recipient setup, against the expected sender's public key.
pub fn setup_auth_recipient(
    aead: AeadAlgorithm,
    enc: &Enc,
    recipient_sk: &HybridSecretKey,
    sender_pk: &HybridPublicKey,
    info: &[u8],
) -> (r: Result<RecipientContext, HpkeError>)
    ensures
        enc@.len() == HYBRID_CIPHERTEXT_LEN && info@.len() <= INFO_MAX_LEN ==> r is Ok,
        enc@.len() != HYBRID_CIPHERTEXT_LEN ==> r == Err::<RecipientContext, HpkeError>(
            HpkeError::InvalidCiphertext,
        ),
        enc@.len() == HYBRID_CIPHERTEXT_LEN ==> (r is Ok <==> schedule_fits(info@,
            sender_binding(aead, sender_pk.0@),
            Seq::empty(),
        )),
        enc@.len() == HYBRID_CIPHERTEXT_LEN && r is Err ==> r == Err::<RecipientContext, HpkeError>(
            HpkeError::KdfError,
        ),
        r matches Ok(c) ==> recipient_context_is(
            c,
            aead,
            MODE_AUTH,
            hybrid_decaps_spec(recipient_sk.0@, enc@),
            info@,
            sender_binding(aead, sender_pk.0@),
            Seq::empty(),
        ),
{
    if enc.to_bytes().len() != HYBRID_CIPHERTEXT_LEN {
        return Err(HpkeError::InvalidCiphertext);
    }
    let empty: [u8; 0] = [];
    assert(empty@ =~= Seq::<u8>::empty());
    let mut binding = bind_sender(aead, sender_pk);
    let r = recipient_setup(aead, MODE_AUTH, enc, recipient_sk, info, &binding, &empty);
    wipe(&mut binding);
    r
}

/// Sender and recipient agree: for a generated key pair, the context a
/// recipient derives from the encapsulation a sender produced equals the
/// sender's context, in every mode and for every schedule input. Holds
/// whenever the two sub-KEMs agree on their own shared secrets for these keys
/// and coins (see `lemma_round_trip`).
pub proof fn lemma_contexts_agree(
    seed: Seq<u8>,
    coins: Seq<u8>,
    aead: AeadAlgorithm,
    mode: u8,
    info: Seq<u8>,
    psk: Seq<u8>,
    psk_id: Seq<u8>,
)
    requires
        seed.len() == 96,
        coins.len() == 64,
        x25519_dh_of(seed.subrange(0, 32), x25519_public_of(coins.subrange(0, 32))@)
            == x25519_dh_of(coins.subrange(0, 32), x25519_public_of(seed.subrange(0, 32))@),
        ({
            let kp = mlkem768_keypair_of(seed.subrange(32, 64), seed.subrange(64, 96));
            let e = mlkem768_encaps_of(kp.1@, coins.subrange(32, 64));
            mlkem768_decaps_of(kp.0@, e.0@) == e.1
        }),
    ensures
        ({
            let kp = hybrid_keypair_spec(seed);
            let e = hybrid_encaps_spec(kp.1, coins);
            let ss = hybrid_decaps_spec(kp.0, e.0);
            &&& schedule_key(aead, mode, ss, info, psk, psk_id) == schedule_key(aead, mode, e.1, info, psk, psk_id)
            &&& schedule_nonce(aead, mode, ss, info, psk, psk_id) == schedule_nonce(aead, mode, e.1, info, psk, psk_id)
        }),
{
    lemma_round_trip(seed, coins);
}

/// Mode separation: two different mode bytes give different schedule
/// contexts, so the key expansions of the two modes run on different inputs,
/// whatever the secrets, infos and pre-shared keys.
pub proof fn lemma_mode_separation(
    aead: AeadAlgorithm,
    mode1: u8,
    mode2: u8,
    info1: Seq<u8>,
    info2: Seq<u8>,
    psk_id1: Seq<u8>,
    psk_id2: Seq<u8>,
)
    requires
        mode1 != mode2,
    ensures
        schedule_context(aead, mode1, psk_id1, info1) != schedule_context(aead, mode2, psk_id2, info2),
        labeled_info(aead.spec_key_len(), suite_id_spec(aead), label_key(), schedule_context(aead, mode1, psk_id1, info1))
            != labeled_info(aead.spec_key_len(), suite_id_spec(aead), label_key(), schedule_context(aead, mode2, psk_id2, info2)),
{
    let c1 = schedule_context(aead, mode1, psk_id1, info1);
    let c2 = schedule_context(aead, mode2, psk_id2, info2);
    assert(c1[0] == mode1);
    assert(c2[0] == mode2);
    let l1 = labeled_info(aead.spec_key_len(), suite_id_spec(aead), label_key(), c1);
    let l2 = labeled_info(aead.spec_key_len(), suite_id_spec(aead), label_key(), c2);
    assert(l1[22] == mode1);
    assert(l2[22] == mode2);
}

/// Label separation: within one schedule the key and the base nonce come from
/// expansions with different inputs, and a derived context's key never equals
/// its base nonce (their lengths differ).
pub proof fn lemma_label_separation(
    c: SenderContext,
    aead: AeadAlgorithm,
    mode: u8,
    shared_secret: Seq<u8>,
    info: Seq<u8>,
    psk: Seq<u8>,
    psk_id: Seq<u8>,
)
    requires
        sender_context_is(c, aead, mode, shared_secret, info, psk, psk_id),
    ensures
        labeled_info(aead.spec_key_len(), suite_id_spec(aead), label_key(), schedule_context(aead, mode, psk_id, info))
            != labeled_info(12, suite_id_spec(aead), label_base_nonce(), schedule_context(aead, mode, psk_id, info)),
        c.key@ != c.base_nonce@,
{
    let ctx = schedule_context(aead, mode, psk_id, info);
    let lk = labeled_info(aead.spec_key_len(), suite_id_spec(aead), label_key(), ctx);
    let ln = labeled_info(12, suite_id_spec(aead), label_base_nonce(), ctx);
    assert(lk.len() != ln.len());
}

} // verus!
