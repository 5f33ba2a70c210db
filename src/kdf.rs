//! HKDF-SHA256 and the domain-separated labeled extract / expand built on it.
//!
//! The labeled inputs are assembled in fixed-capacity stack buffers; inputs that
//! would not fit are rejected with `BufferTooSmall`, never truncated.
use vstd::prelude::*;
use crate::bytes::{copy_into, wipe, zeros};
use crate::error::HpkeError;

verus! {

/// Longest suite identifier the buffers are sized for.
pub const SUITE_ID_MAX_LEN: usize = 10;

/// Longest label the buffers are sized for.
pub const LABEL_MAX_LEN: usize = 32;

/// Longest input keying material the extract buffer is sized for.
pub const IKM_MAX_LEN: usize = 128;

/// Longest info string the expand buffer is sized for.
pub const INFO_MAX_LEN: usize = 256;

/// Capacity of the labeled-extract buffer.
pub const MAX_LABELED_IKM: usize = 7 + SUITE_ID_MAX_LEN + LABEL_MAX_LEN + IKM_MAX_LEN;

/// Capacity of the labeled-expand buffer.
pub const MAX_LABELED_INFO: usize = 2 + 7 + SUITE_ID_MAX_LEN + LABEL_MAX_LEN + INFO_MAX_LEN;

/// Length of an HKDF-SHA256 pseudorandom key.
pub const HASH_LEN: usize = 32;

/// Longest output HKDF-SHA256 expand can produce (255 blocks).
pub const MAX_EXPAND_LEN: usize = 8160;

/// HKDF-SHA256 extract of `ikm` under `salt`.
pub uninterp spec fn hkdf_sha256_extract_of(salt: Seq<u8>, ikm: Seq<u8>) -> [u8; 32];

/// The first `len` bytes of HKDF-SHA256 expand of `prk` with context `info`.
pub uninterp spec fn hkdf_sha256_expand_of(prk: Seq<u8>, info: Seq<u8>, len: nat) -> Seq<u8>;

/// Relies on hkdf's `Hkdf::<Sha256>::extract`: the 32-byte pseudorandom key of
/// `ikm` under `salt`; it depends on the two byte strings alone.
#[verifier::external_body]
pub(crate) fn hkdf_extract(salt: &[u8], ikm: &[u8]) -> (r: [u8; 32])
    ensures
        r == hkdf_sha256_extract_of(salt@, ikm@),
{
    let (prk, _) = hkdf::Hkdf::<sha2::Sha256>::extract(Some(salt), ikm);
    let mut r = [0u8; 32];
    r.copy_from_slice(&prk);
    r
}

/// Relies on hkdf's `Hkdf::<Sha256>::from_prk` and `Hkdf::expand`: `from_prk`
/// refuses a key shorter than 32 bytes, `expand` refuses more than 255 * 32
/// bytes of output, and neither writes to `out` when it refuses; otherwise
/// `out` is filled with the expansion.
#[verifier::external_body]
fn hkdf_expand(prk: &[u8], info: &[u8], out: &mut [u8]) -> (r: bool)
    ensures
        r <==> (prk@.len() >= HASH_LEN && old(out)@.len() <= MAX_EXPAND_LEN),
        final(out)@.len() == old(out)@.len(),
        r ==> final(out)@ == hkdf_sha256_expand_of(prk@, info@, old(out)@.len()),
        !r ==> final(out)@ == old(out)@,
{
    match hkdf::Hkdf::<sha2::Sha256>::from_prk(prk) {
        Ok(hk) => hk.expand(info, out).is_ok(),
        Err(_) => false,
    }
}

/// The 7-byte protocol tag "HPKE-v1".
pub open spec fn version_label() -> Seq<u8> {
    seq![72u8, 80u8, 75u8, 69u8, 45u8, 118u8, 49u8]
}

/// Two-byte big-endian encoding of `n` modulo 2^16.
pub open spec fn u16_be(n: nat) -> Seq<u8> {
    seq![((n / 256) % 256) as u8, (n % 256) as u8]
}

/// `tag || suite_id || label || ikm`.
pub open spec fn labeled_ikm(suite_id: Seq<u8>, label: Seq<u8>, ikm: Seq<u8>) -> Seq<u8> {
    version_label() + suite_id + label + ikm
}

/// `u16_be(len) || tag || suite_id || label || info`.
pub open spec fn labeled_info(len: nat, suite_id: Seq<u8>, label: Seq<u8>, info: Seq<u8>) -> Seq<u8> {
    u16_be(len) + version_label() + suite_id + label + info
}

/// The labeled extract input fits its buffer.
pub open spec fn labeled_ikm_fits(suite_id: Seq<u8>, label: Seq<u8>, ikm: Seq<u8>) -> bool {
    7 + suite_id.len() + label.len() + ikm.len() <= MAX_LABELED_IKM
}

/// The labeled expand context fits its buffer.
pub open spec fn labeled_info_fits(suite_id: Seq<u8>, label: Seq<u8>, info: Seq<u8>) -> bool {
    2 + 7 + suite_id.len() + label.len() + info.len() <= MAX_LABELED_INFO
}

/// The pseudorandom key of a labeled extract.
pub open spec fn labeled_extract_spec(salt: Seq<u8>, suite_id: Seq<u8>, label: Seq<u8>, ikm: Seq<u8>) -> Seq<u8> {
    hkdf_sha256_extract_of(salt, labeled_ikm(suite_id, label, ikm))@
}

/// The output of a labeled expand of `len` bytes.
pub open spec fn labeled_expand_spec(
    prk: Seq<u8>,
    suite_id: Seq<u8>,
    label: Seq<u8>,
    info: Seq<u8>,
    len: nat,
) -> Seq<u8> {
    hkdf_sha256_expand_of(prk, labeled_info(len, suite_id, label, info), len)
}

/// A key written into a caller buffer: truncated to a shorter buffer, or filling
/// the front of a longer one.
pub open spec fn written_key(key: Seq<u8>, before: Seq<u8>) -> Seq<u8> {
    if before.len() <= key.len() {
        key.subrange(0, before.len() as int)
    } else {
        key + before.subrange(key.len() as int, before.len() as int)
    }
}

/// Builds `tag || suite_id || label || data` into the front of `buf`; returns its length.
fn assemble(buf: &mut [u8], start: usize, suite_id: &[u8], label: &[u8], data: &[u8]) -> (n: usize)
    requires
        start + 7 + suite_id@.len() + label@.len() + data@.len() <= old(buf)@.len(),
    ensures
        n == start + 7 + suite_id@.len() + label@.len() + data@.len(),
        final(buf)@.len() == old(buf)@.len(),
        final(buf)@.subrange(0, start as int) == old(buf)@.subrange(0, start as int),
        final(buf)@.subrange(start as int, n as int) == version_label() + suite_id@ + label@ + data@,
{
    let blen = buf.len();
    let tag: [u8; 7] = [72u8, 80u8, 75u8, 69u8, 45u8, 118u8, 49u8];
    assert(tag@ =~= version_label());
    let ghost b0 = buf@;
    copy_into(buf, start, &tag);
    let ghost b1 = buf@;
    let mut off = start + 7;
    copy_into(buf, off, suite_id);
    let ghost b2 = buf@;
    off = off + suite_id.len();
    copy_into(buf, off, label);
    let ghost b3 = buf@;
    off = off + label.len();
    copy_into(buf, off, data);
    off = off + data.len();
    assert(buf@.subrange(0, start as int) =~= b0.subrange(0, start as int)) by {
        assert(b1.subrange(0, start as int) =~= b0.subrange(0, start as int));
        assert(b2.subrange(0, start as int) =~= b0.subrange(0, start as int));
        assert(b3.subrange(0, start as int) =~= b0.subrange(0, start as int));
    }
    assert(buf@.subrange(start as int, off as int) =~= version_label() + suite_id@ + label@ + data@);
    off
}

/// Labeled extract with `"HPKE-v1" || suite_id || label || ikm` assembled in
/// the caller's scratch buffer `buf`, which holds only zero bytes on return.
pub fn labeled_extract_in(
    buf: &mut [u8],
    salt: &[u8],
    suite_id: &[u8],
    label: &[u8],
    ikm: &[u8],
    prk_out: &mut [u8],
)
    requires
        7 + suite_id@.len() + label@.len() + ikm@.len() <= old(buf)@.len(),
    ensures
        final(prk_out)@ == written_key(labeled_extract_spec(salt@, suite_id@, label@, ikm@), old(prk_out)@),
        final(buf)@ == zeros(old(buf)@.len()),
{
    let n = assemble(buf, 0, suite_id, label, ikm);
    let _ = HkdfSha256::extract(salt, &buf[0..n], prk_out);
    wipe(buf);
}

/// A key-derivation function with the labeled extract / expand construction
/// over it.
pub trait KdfAlgorithm {
    /// The pseudorandom key of extracting `ikm` under `salt`.
    spec fn extract_spec(salt: Seq<u8>, ikm: Seq<u8>) -> Seq<u8>;

    /// The `len` bytes of expanding `prk` with context `info`.
    spec fn expand_spec(prk: Seq<u8>, info: Seq<u8>, len: nat) -> Seq<u8>;

    /// Expansion accepts a key of `prk_len` bytes and an output of `out_len` bytes.
    spec fn expand_accepts(prk_len: nat, out_len: nat) -> bool;

    /// Extract, written into `prk_out` as `written_key` describes.
    fn extract(salt: &[u8], ikm: &[u8], prk_out: &mut [u8]) -> (r: Result<(), HpkeError>)
        ensures
            r is Ok,
            final(prk_out)@ == written_key(Self::extract_spec(salt@, ikm@), old(prk_out)@),
    ;

    /// Expand into `out`; `KdfError`, with `out` untouched, when refused.
    fn expand(prk: &[u8], info: &[u8], out: &mut [u8]) -> (r: Result<(), HpkeError>)
        ensures
            r is Ok <==> Self::expand_accepts(prk@.len(), old(out)@.len()),
            r is Ok ==> final(out)@ == Self::expand_spec(prk@, info@, old(out)@.len()),
            r is Err ==> r == Err::<(), HpkeError>(HpkeError::KdfError) && final(out)@ == old(out)@,
            final(out)@.len() == old(out)@.len(),
    ;

    /// Extract over `"HPKE-v1" || suite_id || label || ikm`; `BufferTooSmall`,
    /// with `prk_out` untouched, when that input exceeds the fixed capacity.
    fn labeled_extract(
        salt: &[u8],
        suite_id: &[u8],
        label: &[u8],
        ikm: &[u8],
        prk_out: &mut [u8],
    ) -> (r: Result<(), HpkeError>)
        ensures
            r is Ok <==> labeled_ikm_fits(suite_id@, label@, ikm@),
            r is Ok ==> final(prk_out)@ == written_key(
                Self::extract_spec(salt@, labeled_ikm(suite_id@, label@, ikm@)),
                old(prk_out)@,
            ),
            r is Err ==> r == Err::<(), HpkeError>(HpkeError::BufferTooSmall) && final(prk_out)@
                == old(prk_out)@,
    ;

    /// Expand with context `u16_be(out.len()) || "HPKE-v1" || suite_id || label
    /// || info`; `BufferTooSmall` when that context exceeds the fixed capacity,
    /// else as `expand`; `out` is untouched on failure.
    fn labeled_expand(
        prk: &[u8],
        suite_id: &[u8],
        label: &[u8],
        info: &[u8],
        out: &mut [u8],
    ) -> (r: Result<(), HpkeError>)
        ensures
            !labeled_info_fits(suite_id@, label@, info@) ==> r == Err::<(), HpkeError>(
                HpkeError::BufferTooSmall,
            ),
            labeled_info_fits(suite_id@, label@, info@) ==> (r is Ok <==> Self::expand_accepts(
                prk@.len(),
                old(out)@.len(),
            )),
            labeled_info_fits(suite_id@, label@, info@) && r is Err ==> r == Err::<(), HpkeError>(
                HpkeError::KdfError,
            ),
            r is Ok ==> final(out)@ == Self::expand_spec(
                prk@,
                labeled_info(old(out)@.len(), suite_id@, label@, info@),
                old(out)@.len(),
            ),
            r is Err ==> final(out)@ == old(out)@,
            final(out)@.len() == old(out)@.len(),
    ;
}

/// The HKDF-SHA256 key-derivation function.
pub struct HkdfSha256;

impl KdfAlgorithm for HkdfSha256 {
    open spec fn extract_spec(salt: Seq<u8>, ikm: Seq<u8>) -> Seq<u8> {
        hkdf_sha256_extract_of(salt, ikm)@
    }

    open spec fn expand_spec(prk: Seq<u8>, info: Seq<u8>, len: nat) -> Seq<u8> {
        hkdf_sha256_expand_of(prk, info, len)
    }

    open spec fn expand_accepts(prk_len: nat, out_len: nat) -> bool {
        prk_len >= HASH_LEN && out_len <= MAX_EXPAND_LEN
    }
    /// HKDF-Extract of `ikm` under `salt`, written into `prk_out` (truncated to a
    /// shorter buffer, filling the front of a longer one).
    fn extract(salt: &[u8], ikm: &[u8], prk_out: &mut [u8]) -> (r: Result<(), HpkeError>)
        ensures
            r is Ok,
            final(prk_out)@ == written_key(hkdf_sha256_extract_of(salt@, ikm@)@, old(prk_out)@),
    {
        let prk = hkdf_extract(salt, ikm);
        if prk_out.len() <= HASH_LEN {
            let n = prk_out.len();
            let mut i: usize = 0;
            while i < n
                invariant
                    n == prk_out@.len(),
                    n <= 32,
                    forall|k: int| 0 <= k < i ==> prk_out@[k] == prk@[k],
                    i <= n,
                decreases n - i,
            {
                prk_out[i] = prk[i];
                i = i + 1;
            }
            assert(prk_out@ =~= prk@.subrange(0, n as int));
        } else {
            copy_into(prk_out, 0, &prk);
            assert(prk_out@ =~= prk@ + old(prk_out)@.subrange(32, old(prk_out)@.len() as int));
        }
        Ok(())
    }

    /// HKDF-Expand of `prk` with context `info`, filling `out`. Fails with
    /// `KdfError`, leaving `out` untouched, when `prk` is shorter than 32 bytes
    /// or `out` is longer than 8160 bytes.
    fn expand(prk: &[u8], info: &[u8], out: &mut [u8]) -> (r: Result<(), HpkeError>)
        ensures
            r is Ok <==> (prk@.len() >= HASH_LEN && old(out)@.len() <= MAX_EXPAND_LEN),
            r is Ok ==> final(out)@ == hkdf_sha256_expand_of(prk@, info@, old(out)@.len()),
            r is Err ==> r == Err::<(), HpkeError>(HpkeError::KdfError) && final(out)@ == old(out)@,
            final(out)@.len() == old(out)@.len(),
    {
        if hkdf_expand(prk, info, out) {
            Ok(())
        } else {
            Err(HpkeError::KdfError)
        }
    }

    /// Labeled extract: HKDF-Extract under `salt` of `"HPKE-v1" || suite_id ||
    /// label || ikm`. Fails with `BufferTooSmall`, leaving `prk_out` untouched,
    /// when that input exceeds the fixed buffer capacity.
    fn labeled_extract(
        salt: &[u8],
        suite_id: &[u8],
        label: &[u8],
        ikm: &[u8],
        prk_out: &mut [u8],
    ) -> (r: Result<(), HpkeError>)
        ensures
            r is Ok <==> labeled_ikm_fits(suite_id@, label@, ikm@),
            r is Ok ==> final(prk_out)@ == written_key(
                labeled_extract_spec(salt@, suite_id@, label@, ikm@),
                old(prk_out)@,
            ),
            r is Err ==> r == Err::<(), HpkeError>(HpkeError::BufferTooSmall) && final(prk_out)@
                == old(prk_out)@,
    {
        if suite_id.len() > MAX_LABELED_IKM - 7 {
            return Err(HpkeError::BufferTooSmall);
        }
        let used = 7 + suite_id.len();
        if label.len() > MAX_LABELED_IKM - used {
            return Err(HpkeError::BufferTooSmall);
        }
        let used = used + label.len();
        if ikm.len() > MAX_LABELED_IKM - used {
            return Err(HpkeError::BufferTooSmall);
        }
        let mut labeled = [0u8; MAX_LABELED_IKM];
        labeled_extract_in(&mut labeled, salt, suite_id, label, ikm, prk_out);
        Ok(())
    }

    /// Labeled expand: HKDF-Expand of `prk` with context `u16_be(out.len()) ||
    /// "HPKE-v1" || suite_id || label || info`. Fails with `BufferTooSmall` when
    /// that context exceeds the fixed buffer capacity, else as `expand` does;
    /// `out` is untouched on failure.
    fn labeled_expand(
        prk: &[u8],
        suite_id: &[u8],
        label: &[u8],
        info: &[u8],
        out: &mut [u8],
    ) -> (r: Result<(), HpkeError>)
        ensures
            !labeled_info_fits(suite_id@, label@, info@) ==> r == Err::<(), HpkeError>(
                HpkeError::BufferTooSmall,
            ),
            labeled_info_fits(suite_id@, label@, info@) ==> (r is Ok <==> (prk@.len() >= HASH_LEN
                && old(out)@.len() <= MAX_EXPAND_LEN)),
            labeled_info_fits(suite_id@, label@, info@) && r is Err ==> r == Err::<(), HpkeError>(
                HpkeError::KdfError,
            ),
            r is Ok ==> final(out)@ == labeled_expand_spec(
                prk@,
                suite_id@,
                label@,
                info@,
                old(out)@.len(),
            ),
            r is Err ==> final(out)@ == old(out)@,
            final(out)@.len() == old(out)@.len(),
    {
        if suite_id.len() > MAX_LABELED_INFO - 9 {
            return Err(HpkeError::BufferTooSmall);
        }
        let used = 9 + suite_id.len();
        if label.len() > MAX_LABELED_INFO - used {
            return Err(HpkeError::BufferTooSmall);
        }
        let used = used + label.len();
        if info.len() > MAX_LABELED_INFO - used {
            return Err(HpkeError::BufferTooSmall);
        }
        let mut labeled = [0u8; MAX_LABELED_INFO];
        let len = out.len();
        labeled[0] = ((len / 256) % 256) as u8;
        labeled[1] = (len % 256) as u8;
        let ghost b0 = labeled@;
        let n = assemble(&mut labeled, 2, suite_id, label, info);
        assert(labeled@.subrange(0, n as int) =~= labeled_info(len as nat, suite_id@, label@, info@)) by {
            assert(labeled@.subrange(0, 2) =~= b0.subrange(0, 2));
            assert(b0.subrange(0, 2) =~= u16_be(len as nat));
            assert(labeled@.subrange(0, n as int) =~= labeled@.subrange(0, 2) + labeled@.subrange(2, n as int));
        }
        Self::expand(prk, &labeled[0..n], out)
    }
}

} // verus!
