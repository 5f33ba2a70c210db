//! The key schedule: encryption contexts derived from a hybrid shared secret
//! through the labeled extract / expand chain.
use vstd::prelude::*;
use crate::bytes::{copy_into, wipe, wipe_vec};
use crate::combiner::{
    hybrid_decaps_spec, hybrid_encaps_spec, HybridPublicKey, HybridSecretKey,
    HYBRID_CIPHERTEXT_LEN, KEM_ID_X25519_MLKEM768,
};
use crate::mode::{recipient_context_is, sender_context_is, setup_auth_recipient, setup_auth_sender};
use crate::error::HpkeError;
use crate::format::Enc;
use crate::kdf::{
    hkdf_extract, hkdf_sha256_extract_of, labeled_expand_spec, labeled_extract_spec,
    labeled_extract_in, HkdfSha256, KdfAlgorithm, INFO_MAX_LEN, LABEL_MAX_LEN, SUITE_ID_MAX_LEN,
};

verus! {

/// Mode byte of the base mode.
pub const MODE_BASE: u8 = 0x00;

/// Mode byte of the pre-shared-key mode.
pub const MODE_PSK: u8 = 0x01;

/// Mode byte of the authenticated mode.
pub const MODE_AUTH: u8 = 0x02;

/// KDF identifier of HKDF-SHA256.
pub const KDF_ID_HKDF_SHA256: u16 = 0x0001;

/// Capacity of the scratch buffer in which the schedule assembles its labeled
/// extract inputs: room for a 256-byte info, pre-shared key or identifier.
pub const MAX_SCHEDULE_IKM: usize = 7 + SUITE_ID_MAX_LEN + LABEL_MAX_LEN + INFO_MAX_LEN;

/// Nonce length of every supported AEAD.
pub const NONCE_LEN: usize = 12;

/// The authenticated-encryption algorithm a context is derived for; only its
/// identifier and key / nonce sizes enter the key schedule.
#[derive(Clone, Copy, Debug, PartialEq, Eq, Structural)]
pub enum AeadAlgorithm {
    Aes128Gcm,
    Aes256Gcm,
    ChaCha20Poly1305,
}

impl AeadAlgorithm {
    /// The registered identifier.
    pub open spec fn spec_id(self) -> u16 {
        match self {
            AeadAlgorithm::Aes128Gcm => 0x0001,
            AeadAlgorithm::Aes256Gcm => 0x0002,
            AeadAlgorithm::ChaCha20Poly1305 => 0x0003,
        }
    }

    /// The key length in bytes.
    pub open spec fn spec_key_len(self) -> nat {
        match self {
            AeadAlgorithm::Aes128Gcm => 16,
            _ => 32,
        }
    }

    /// The registered identifier.
    pub fn id(&self) -> (r: u16)
        ensures
            r == self.spec_id(),
    {
        match self {
            AeadAlgorithm::Aes128Gcm => 0x0001,
            AeadAlgorithm::Aes256Gcm => 0x0002,
            AeadAlgorithm::ChaCha20Poly1305 => 0x0003,
        }
    }

    /// The key length in bytes.
    pub fn key_len(&self) -> (r: usize)
        ensures
            r == self.spec_key_len(),
    {
        match self {
            AeadAlgorithm::Aes128Gcm => 16,
            _ => 32,
        }
    }
}

/// Big-endian bytes of a 16-bit identifier.
pub open spec fn be16(v: u16) -> Seq<u8> {
    seq![(v / 256) as u8, (v % 256) as u8]
}

/// `"HPKE" || kem_id || kdf_id || aead_id`: the 10-byte suite identifier.
pub open spec fn suite_id_spec(aead: AeadAlgorithm) -> Seq<u8> {
    seq![72u8, 80u8, 75u8, 69u8] + be16(KEM_ID_X25519_MLKEM768) + be16(KDF_ID_HKDF_SHA256) + be16(
        aead.spec_id(),
    )
}

pub open spec fn label_psk_id_hash() -> Seq<u8> {
    seq![112u8, 115u8, 107u8, 95u8, 105u8, 100u8, 95u8, 104u8, 97u8, 115u8, 104u8]
}

pub open spec fn label_info_hash() -> Seq<u8> {
    seq![105u8, 110u8, 102u8, 111u8, 95u8, 104u8, 97u8, 115u8, 104u8]
}

pub open spec fn label_secret() -> Seq<u8> {
    seq![115u8, 101u8, 99u8, 114u8, 101u8, 116u8]
}

pub open spec fn label_key() -> Seq<u8> {
    seq![107u8, 101u8, 121u8]
}

pub open spec fn label_base_nonce() -> Seq<u8> {
    seq![98u8, 97u8, 115u8, 101u8, 95u8, 110u8, 111u8, 110u8, 99u8, 101u8]
}

/// `mode || psk_id_hash || info_hash`: the context bound into both expansions.
pub open spec fn schedule_context(aead: AeadAlgorithm, mode: u8, psk_id: Seq<u8>, info: Seq<u8>) -> Seq<u8> {
    let suite = suite_id_spec(aead);
    seq![mode] + labeled_extract_spec(Seq::empty(), suite, label_psk_id_hash(), psk_id)
        + labeled_extract_spec(Seq::empty(), suite, label_info_hash(), info)
}

/// The schedule's secret: labeled extract of `psk` under the shared secret.
pub open spec fn schedule_secret(aead: AeadAlgorithm, shared_secret: Seq<u8>, psk: Seq<u8>) -> Seq<u8> {
    labeled_extract_spec(shared_secret, suite_id_spec(aead), label_secret(), psk)
}

/// The context's symmetric key.
pub open spec fn schedule_key(
    aead: AeadAlgorithm,
    mode: u8,
    shared_secret: Seq<u8>,
    info: Seq<u8>,
    psk: Seq<u8>,
    psk_id: Seq<u8>,
) -> Seq<u8> {
    labeled_expand_spec(
        schedule_secret(aead, shared_secret, psk),
        suite_id_spec(aead),
        label_key(),
        schedule_context(aead, mode, psk_id, info),
        aead.spec_key_len(),
    )
}

/// The context's base nonce.
pub open spec fn schedule_nonce(
    aead: AeadAlgorithm,
    mode: u8,
    shared_secret: Seq<u8>,
    info: Seq<u8>,
    psk: Seq<u8>,
    psk_id: Seq<u8>,
) -> Seq<u8> {
    labeled_expand_spec(
        schedule_secret(aead, shared_secret, psk),
        suite_id_spec(aead),
        label_base_nonce(),
        schedule_context(aead, mode, psk_id, info),
        NONCE_LEN as nat,
    )
}

/// The schedule accepts its inputs: info, pre-shared key and its identifier
/// of at most 256 bytes each.
pub open spec fn schedule_fits(info: Seq<u8>, psk: Seq<u8>, psk_id: Seq<u8>) -> bool {
    &&& info.len() <= INFO_MAX_LEN
    &&& psk.len() <= INFO_MAX_LEN
    &&& psk_id.len() <= INFO_MAX_LEN
}

/// The binding of a sender's public key used by the authenticated mode:
/// HKDF-Extract of the key's bytes under the suite identifier.
pub open spec fn sender_binding(aead: AeadAlgorithm, sender_pk: Seq<u8>) -> Seq<u8> {
    hkdf_sha256_extract_of(suite_id_spec(aead), sender_pk)@
}

/// Byte `i` of the big-endian encoding of `seq` right-aligned in `len` bytes.
pub open spec fn seq_byte(seq: u64, len: nat, i: int) -> u8 {
    let j = len - 1 - i;
    if j < 8 {
        ((seq >> (8 * j) as u64) & 0xff) as u8
    } else {
        0u8
    }
}

/// The per-message nonce: the base nonce XOR the sequence number, big-endian
/// and right-aligned.
pub open spec fn message_nonce(base_nonce: Seq<u8>, seq: u64) -> Seq<u8> {
    Seq::new(base_nonce.len(), |i: int| base_nonce[i] ^ seq_byte(seq, base_nonce.len(), i))
}

/// Computes `message_nonce(base_nonce@, seq)`.
fn xor_sequence(base_nonce: &Vec<u8>, seq: u64) -> (r: Vec<u8>)
    ensures
        r@ == message_nonce(base_nonce@, seq),
{
    let n = base_nonce.len();
    let mut out: Vec<u8> = Vec::new();
    let mut i: usize = 0;
    while i < n
        invariant
            n == base_nonce@.len(),
            i <= n,
            out@.len() == i,
            forall|k: int| 0 <= k < i ==> out@[k] == base_nonce@[k] ^ seq_byte(seq, n as nat, k),
        decreases n - i,
    {
        let j = n - 1 - i;
        let b: u8 = if j < 8 {
            ((seq >> (8 * j) as u64) & 0xff) as u8
        } else {
            0u8
        };
        out.push(base_nonce[i] ^ b);
        i = i + 1;
    }
    assert(out@ =~= message_nonce(base_nonce@, seq));
    out
}

/// A sender's encryption context.
pub struct SenderContext {
    pub key: Vec<u8>,
    pub base_nonce: Vec<u8>,
    pub seq: u64,
}

/// A recipient's encryption context.
pub struct RecipientContext {
    pub key: Vec<u8>,
    pub base_nonce: Vec<u8>,
    pub seq: u64,
}

impl SenderContext {
    /// The nonce for the next message, advancing the sequence counter, so that
    /// no nonce is handed out twice. Fails with `AeadError`, changing nothing,
    /// once the counter is exhausted.
    pub fn next_nonce(&mut self) -> (r: Result<Vec<u8>, HpkeError>)
        ensures
            old(self).seq == u64::MAX ==> r == Err::<Vec<u8>, HpkeError>(HpkeError::AeadError)
                && final(self).seq == old(self).seq,
            old(self).seq < u64::MAX ==> (r matches Ok(n) && n@ == message_nonce(
                old(self).base_nonce@,
                old(self).seq,
            )) && final(self).seq == old(self).seq + 1,
            final(self).key@ == old(self).key@,
            final(self).base_nonce@ == old(self).base_nonce@,
    {
        if self.seq == u64::MAX {
            return Err(HpkeError::AeadError);
        }
        let nonce = xor_sequence(&self.base_nonce, self.seq);
        self.seq = self.seq + 1;
        Ok(nonce)
    }
}

impl Drop for SenderContext {
    /// Erases the key and the base nonce.
    fn drop(&mut self)
        opens_invariants none
        no_unwind
    {
        wipe_vec(&mut self.key);
        wipe_vec(&mut self.base_nonce);
    }
}

impl RecipientContext {
    /// The nonce for the next message, advancing the sequence counter, so that
    /// no nonce is handed out twice. Fails with `AeadError`, changing nothing,
    /// once the counter is exhausted.
    pub fn next_nonce(&mut self) -> (r: Result<Vec<u8>, HpkeError>)
        ensures
            old(self).seq == u64::MAX ==> r == Err::<Vec<u8>, HpkeError>(HpkeError::AeadError)
                && final(self).seq == old(self).seq,
            old(self).seq < u64::MAX ==> (r matches Ok(n) && n@ == message_nonce(
                old(self).base_nonce@,
                old(self).seq,
            )) && final(self).seq == old(self).seq + 1,
            final(self).key@ == old(self).key@,
            final(self).base_nonce@ == old(self).base_nonce@,
    {
        if self.seq == u64::MAX {
            return Err(HpkeError::AeadError);
        }
        let nonce = xor_sequence(&self.base_nonce, self.seq);
        self.seq = self.seq + 1;
        Ok(nonce)
    }
}

impl Drop for RecipientContext {
    /// Erases the key and the base nonce.
    fn drop(&mut self)
        opens_invariants none
        no_unwind
    {
        wipe_vec(&mut self.key);
        wipe_vec(&mut self.base_nonce);
    }
}

/// The suite identifier bytes.
fn suite_id(aead: AeadAlgorithm) -> (r: [u8; 10])
    ensures
        r@ == suite_id_spec(aead),
{
    let id = aead.id();
    let r: [u8; 10] = [72u8, 80u8, 75u8, 69u8, 0xFEu8, 0x30u8, 0u8, 1u8, (id / 256) as u8, (id % 256) as u8];
    assert(r@ =~= suite_id_spec(aead));
    r
}

/// Runs the key schedule over `shared_secret`, which is zero on return, and
/// returns the key and the base nonce. Fails with `KdfError` exactly when `info`,
/// `psk` or `psk_id` is longer than 256 bytes.
pub fn derive_context(
    aead: AeadAlgorithm,
    mode: u8,
    shared_secret: &mut [u8; 32],
    info: &[u8],
    psk: &[u8],
    psk_id: &[u8],
) -> (r: Result<(Vec<u8>, Vec<u8>), HpkeError>)
    ensures
        r is Ok <==> schedule_fits(info@, psk@, psk_id@),
        r is Err ==> r == Err::<(Vec<u8>, Vec<u8>), HpkeError>(HpkeError::KdfError),
        r matches Ok(v) ==> v.0@ == schedule_key(aead, mode, old(shared_secret)@, info@, psk@, psk_id@)
            && v.1@ == schedule_nonce(aead, mode, old(shared_secret)@, info@, psk@, psk_id@)
            && v.0@.len() == aead.spec_key_len() && v.1@.len() == NONCE_LEN,
        final(shared_secret)@ == crate::bytes::zeros(32),
{
    let ghost ss = shared_secret@;
    let suite = suite_id(aead);
    let empty: [u8; 0] = [];
    let l_psk_id_hash: [u8; 11] = [112u8, 115u8, 107u8, 95u8, 105u8, 100u8, 95u8, 104u8, 97u8, 115u8, 104u8];
    let l_info_hash: [u8; 9] = [105u8, 110u8, 102u8, 111u8, 95u8, 104u8, 97u8, 115u8, 104u8];
    let l_secret: [u8; 6] = [115u8, 101u8, 99u8, 114u8, 101u8, 116u8];
    let l_key: [u8; 3] = [107u8, 101u8, 121u8];
    let l_base_nonce: [u8; 10] = [98u8, 97u8, 115u8, 101u8, 95u8, 110u8, 111u8, 110u8, 99u8, 101u8];
    assert(empty@ =~= Seq::<u8>::empty());
    assert(l_psk_id_hash@ =~= label_psk_id_hash());
    assert(l_info_hash@ =~= label_info_hash());
    assert(l_secret@ =~= label_secret());
    assert(l_key@ =~= label_key());
    assert(l_base_nonce@ =~= label_base_nonce());

    if info.len() > INFO_MAX_LEN || psk.len() > INFO_MAX_LEN || psk_id.len() > INFO_MAX_LEN {
        wipe(shared_secret);
        return Err(HpkeError::KdfError);
    }
    let mut scratch = [0u8; MAX_SCHEDULE_IKM];
    let mut psk_id_hash = [0u8; 32];
    labeled_extract_in(&mut scratch, &empty, &suite, &l_psk_id_hash, psk_id, &mut psk_id_hash);
    let mut info_hash = [0u8; 32];
    labeled_extract_in(&mut scratch, &empty, &suite, &l_info_hash, info, &mut info_hash);
    let mut secret = [0u8; 32];
    labeled_extract_in(&mut scratch, shared_secret, &suite, &l_secret, psk, &mut secret);
    wipe(shared_secret);
    assert(psk_id_hash@ =~= labeled_extract_spec(Seq::empty(), suite@, label_psk_id_hash(), psk_id@));
    assert(info_hash@ =~= labeled_extract_spec(Seq::empty(), suite@, label_info_hash(), info@));
    assert(secret@ =~= schedule_secret(aead, ss, psk@));

    let mut context = [0u8; 65];
    context[0] = mode;
    copy_into(&mut context, 1, &psk_id_hash);
    copy_into(&mut context, 33, &info_hash);
    assert(context@ =~= schedule_context(aead, mode, psk_id@, info@));

    let nk = aead.key_len();
    let mut key = vec![0u8; nk];
    let rk = HkdfSha256::labeled_expand(&secret, &suite, &l_key, &context, key.as_mut_slice());
    let mut nonce = vec![0u8; NONCE_LEN];
    let rn = HkdfSha256::labeled_expand(&secret, &suite, &l_base_nonce, &context, nonce.as_mut_slice());
    wipe(&mut secret);
    if rk.is_err() || rn.is_err() {
        return Err(HpkeError::KdfError);
    }
    Ok((key, nonce))
}

/// The binding of `sender_pk` for the authenticated mode.
pub(crate) fn bind_sender(aead: AeadAlgorithm, sender_pk: &HybridPublicKey) -> (r: [u8; 32])
    ensures
        r@ == sender_binding(aead, sender_pk.0@),
{
    let suite = suite_id(aead);
    hkdf_extract(&suite, &sender_pk.0)
}

/// The hybrid HPKE suite: X25519 + ML-KEM-768, HKDF-SHA256, and the AEAD
/// chosen per call.
pub struct Hpke;

impl Hpke {
    /// Authenticated-mode sender setup (see `mode::setup_auth_sender`).
    pub fn setup_auth_sender(
        aead: AeadAlgorithm,
        recipient_pk: &HybridPublicKey,
        sender_sk: &HybridSecretKey,
        sender_pk: &HybridPublicKey,
        info: &[u8],
        coins: &[u8; 64],
    ) -> (r: Result<(Enc, SenderContext), HpkeError>)
        ensures
            info@.len() <= INFO_MAX_LEN ==> r is Ok,
            r is Ok <==> schedule_fits(info@, sender_binding(aead, sender_pk.0@), Seq::empty()),
            r is Err ==> r == Err::<(Enc, SenderContext), HpkeError>(HpkeError::KdfError),
            r matches Ok(v) ==> ({
                let e = hybrid_encaps_spec(recipient_pk.0@, coins@);
                v.0@ == e.0 && sender_context_is(
                    v.1,
                    aead,
                    MODE_AUTH,
                    e.1,
                    info@,
                    sender_binding(aead, sender_pk.0@),
                    Seq::empty(),
                )
            }),
    {
        setup_auth_sender(aead, recipient_pk, sender_sk, sender_pk, info, coins)
    }

    /// Authenticated-mode recipient setup (see `mode::setup_auth_recipient`).
    pub fn setup_auth_recipient(
        aead: AeadAlgorithm,
        enc: &Enc,
        recipient_sk: &HybridSecretKey,
        sender_pk: &HybridPublicKey,
        info: &[u8],
    ) -> (r: Result<RecipientContext, HpkeError>)
        ensures
            enc@.len() == HYBRID_CIPHERTEXT_LEN && info@.len() <= INFO_MAX_LEN ==> r is Ok,
            enc@.len() != HYBRID_CIPHERTEXT_LEN ==> r == Err::<RecipientContext, HpkeError>(
                HpkeError::InvalidCiphertext,
            ),
            enc@.len() == HYBRID_CIPHERTEXT_LEN ==> (r is Ok <==> schedule_fits(info@,
                sender_binding(aead, sender_pk.0@),
                Seq::empty(),
            )),
            enc@.len() == HYBRID_CIPHERTEXT_LEN && r is Err ==> r == Err::<RecipientContext, HpkeError>(
                HpkeError::KdfError,
            ),
            r matches Ok(c) ==> recipient_context_is(
                c,
                aead,
                MODE_AUTH,
                hybrid_decaps_spec(recipient_sk.0@, enc@),
                info@,
                sender_binding(aead, sender_pk.0@),
                Seq::empty(),
            ),
    {
        setup_auth_recipient(aead, enc, recipient_sk, sender_pk, info)
    }
}

} // verus!
