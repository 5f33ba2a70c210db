use tollway::combiner::{
    CombinerX25519MlKem768, HybridCiphertext, HybridPublicKey, HybridSecretKey,
};
use tollway::error::{HpkeError, PrimitivesError, TollwayError};
use tollway::format::Enc;
use tollway::hpke::{AeadAlgorithm, Hpke};
use tollway::kdf::{HkdfSha256, KdfAlgorithm};
use tollway::mldsa::{MlDsa65, MlDsa65PublicKey, MlDsa65SecretKey, MlDsa65Signature};
use tollway::mlkem::{MlKem768Ciphertext, MlKem768PublicKey, MlKem768SecretKey};
use tollway::mode::{
    setup_auth_recipient, setup_auth_sender, setup_base_recipient, setup_base_sender,
    setup_psk_recipient, setup_psk_sender,
};
use tollway::x25519::{X25519Ciphertext, X25519PublicKey, X25519SecretKey, X25519};
use tollway::traits::{Kem, Signature};
use tollway::{PublicKey, SecretKey};

fn pattern<const N: usize>(start: u8) -> [u8; N] {
    let mut out = [0u8; N];
    for (i, b) in out.iter_mut().enumerate() {
        *b = start.wrapping_add((i as u8).wrapping_mul(13));
    }
    out
}

fn hex(s: &str) -> Vec<u8> {
    (0..s.len() / 2).map(|i| u8::from_str_radix(&s[2 * i..2 * i + 2], 16).unwrap()).collect()
}

const SUITE: [u8; 10] = [72, 80, 75, 69, 0xFE, 0x30, 0, 1, 0, 3];

#[test]
fn hybrid_round_trip() {
    for k in 0..3u8 {
        let (sk, pk) = CombinerX25519MlKem768::generate_keypair(&pattern::<96>(k));
        let (ct, ss) = CombinerX25519MlKem768::encapsulate(&pk, &pattern::<64>(k + 50)).unwrap();
        let recovered = CombinerX25519MlKem768::decapsulate(&sk, &ct).unwrap();
        assert_eq!(recovered.as_ref(), ss.as_ref());
    }
}

#[test]
fn hybrid_layout_is_classical_then_lattice() {
    let seed = pattern::<96>(7);
    let (sk, pk) = CombinerX25519MlKem768::generate_keypair(&seed);
    assert_eq!(sk.0[..32], seed[..32]);
    let (_, xpk) = X25519::generate_keypair(&pattern::<32>(7));
    assert_eq!(pk.0[..32], xpk.0[..]);
    assert_ne!(pk.0[..32], seed[..32]);
    let coins = pattern::<64>(8);
    let (ct, _) = CombinerX25519MlKem768::encapsulate(&pk, &coins).unwrap();
    let mut c1 = [0u8; 32];
    c1.copy_from_slice(&coins[..32]);
    let (_, eph) = X25519::generate_keypair(&c1);
    assert_eq!(ct.0[..32], eph.0[..]);
}

#[test]
fn hybrid_secret_is_extract_over_both_secrets_and_ciphertexts() {
    let (_, pk) = CombinerX25519MlKem768::generate_keypair(&pattern::<96>(20));
    let coins = pattern::<64>(21);
    let (ct, ss) = CombinerX25519MlKem768::encapsulate(&pk, &coins).unwrap();
    let xpk = X25519PublicKey::try_from(&pk.0[..32]).unwrap();
    let mpk = MlKem768PublicKey::try_from(&pk.0[32..]).unwrap();
    let mut c1 = [0u8; 32];
    c1.copy_from_slice(&coins[..32]);
    let mut m = [0u8; 32];
    m.copy_from_slice(&coins[32..]);
    let (ct1, ss1) = X25519::encapsulate(&xpk, &c1).unwrap();
    let (ct2, ss2) = tollway::mlkem::MlKem768::encapsulate(&mpk, &m).unwrap();
    let mut ikm = Vec::new();
    ikm.extend_from_slice(ss1.as_ref());
    ikm.extend_from_slice(ss2.as_ref());
    ikm.extend_from_slice(ct1.as_ref());
    ikm.extend_from_slice(ct2.as_ref());
    let (prk, _) = hkdf::Hkdf::<sha2::Sha256>::extract(Some(&[0u8; 32]), &ikm);
    assert_eq!(ss.as_ref(), &prk[..]);
}

#[test]
fn implicit_rejection_returns_a_secret() {
    let (sk, pk) = CombinerX25519MlKem768::generate_keypair(&pattern::<96>(30));
    let (ct, ss) = CombinerX25519MlKem768::encapsulate(&pk, &pattern::<64>(31)).unwrap();
    let mut bad = ct.0;
    bad[500] ^= 0x80;
    let r1 = CombinerX25519MlKem768::decapsulate(&sk, &HybridCiphertext(bad)).unwrap();
    let r2 = CombinerX25519MlKem768::decapsulate(&sk, &HybridCiphertext(bad)).unwrap();
    assert_eq!(r1.as_ref().len(), 32);
    assert_eq!(r1.as_ref(), r2.as_ref());
    assert_ne!(r1.as_ref(), ss.as_ref());
}

#[test]
fn fixed_size_values_reject_other_lengths() {
    let buf = vec![1u8; 5000];
    for n in [0usize, 31, 33] {
        assert!(matches!(X25519PublicKey::try_from(&buf[..n]), Err(PrimitivesError::InvalidLength)));
        assert!(matches!(X25519SecretKey::try_from(&buf[..n]), Err(PrimitivesError::InvalidLength)));
        assert!(matches!(X25519Ciphertext::try_from(&buf[..n]), Err(PrimitivesError::InvalidLength)));
    }
    assert!(X25519PublicKey::try_from(&buf[..32]).is_ok());
    assert!(matches!(MlKem768PublicKey::try_from(&buf[..1183]), Err(PrimitivesError::InvalidLength)));
    assert!(matches!(MlKem768SecretKey::try_from(&buf[..2401]), Err(PrimitivesError::InvalidLength)));
    assert!(matches!(MlKem768Ciphertext::try_from(&buf[..1087]), Err(PrimitivesError::InvalidLength)));
    assert!(MlKem768Ciphertext::try_from(&buf[..1088]).is_ok());
    assert!(matches!(HybridPublicKey::try_from(&buf[..1215]), Err(PrimitivesError::InvalidLength)));
    assert!(matches!(HybridPublicKey::try_from(&buf[..1217]), Err(PrimitivesError::InvalidLength)));
    let hpk = HybridPublicKey::try_from(&buf[..1216]).unwrap();
    assert_eq!(hpk.as_ref(), &buf[..1216]);
    assert!(matches!(HybridSecretKey::try_from(&buf[..2431]), Err(PrimitivesError::InvalidLength)));
    assert!(HybridSecretKey::try_from(&buf[..2432]).is_ok());
    assert!(matches!(HybridCiphertext::try_from(&buf[..1121]), Err(PrimitivesError::InvalidLength)));
    assert!(HybridCiphertext::try_from(&buf[..1120]).is_ok());
    assert!(matches!(MlDsa65PublicKey::try_from(&buf[..1951]), Err(PrimitivesError::InvalidLength)));
    assert!(matches!(MlDsa65SecretKey::try_from(&buf[..4033]), Err(PrimitivesError::InvalidLength)));
    assert!(matches!(MlDsa65Signature::try_from(&buf[..3308]), Err(PrimitivesError::InvalidLength)));
    assert!(MlDsa65Signature::try_from(&buf[..3309]).is_ok());
    assert!(matches!(PublicKey::from_bytes(&buf[..1215]), Err(TollwayError::InvalidKeyBytes)));
    assert!(PublicKey::from_bytes(&buf[..1216]).is_ok());
    assert!(matches!(SecretKey::from_bytes(&buf[..2433]), Err(TollwayError::InvalidKeyBytes)));
    assert!(SecretKey::from_bytes(&buf[..2432]).is_ok());
}

#[test]
fn rfc5869_extract_and_expand() {
    let ikm = [0x0bu8; 22];
    let salt = hex("000102030405060708090a0b0c");
    let info = hex("f0f1f2f3f4f5f6f7f8f9");
    let mut prk = [0u8; 32];
    HkdfSha256::extract(&salt, &ikm, &mut prk).unwrap();
    assert_eq!(prk[..], hex("077709362c2e32df0ddc3f0dc47bba6390b6c73bb50f9c3122ec844ad7c2b3e5")[..]);
    let mut okm = [0u8; 42];
    HkdfSha256::expand(&prk, &info, &mut okm).unwrap();
    assert_eq!(
        okm[..],
        hex("3cb25f25faacd57a90434f64d0362f2a2d2d0a90cf1a5a4c5db02d56ecc4c5bf34007208d5b887185865")[..]
    );
    let mut short = [0xEEu8; 16];
    HkdfSha256::extract(&salt, &ikm, &mut short).unwrap();
    assert_eq!(short[..], prk[..16]);
    let mut long = [0xEEu8; 40];
    HkdfSha256::extract(&salt, &ikm, &mut long).unwrap();
    assert_eq!(long[..32], prk[..]);
    assert_eq!(long[32..], [0xEEu8; 8]);
}

#[test]
fn expand_failures_leave_output_untouched() {
    let mut out = [7u8; 32];
    assert_eq!(HkdfSha256::expand(&[1u8; 31], b"", &mut out), Err(HpkeError::KdfError));
    assert_eq!(out, [7u8; 32]);
    let mut big = vec![7u8; 8161];
    assert_eq!(HkdfSha256::expand(&[1u8; 32], b"", &mut big), Err(HpkeError::KdfError));
    assert!(big.iter().all(|b| *b == 7));
    let mut max = vec![7u8; 8160];
    assert_eq!(HkdfSha256::expand(&[1u8; 32], b"", &mut max), Ok(()));
}

#[test]
fn labeled_extract_binds_tag_suite_and_label() {
    let mut out = [0u8; 32];
    HkdfSha256::labeled_extract(b"salt", &SUITE, b"secret", b"ikm", &mut out).unwrap();
    let mut input = b"HPKE-v1".to_vec();
    input.extend_from_slice(&SUITE);
    input.extend_from_slice(b"secret");
    input.extend_from_slice(b"ikm");
    let (prk, _) = hkdf::Hkdf::<sha2::Sha256>::extract(Some(b"salt"), &input);
    assert_eq!(out[..], prk[..]);
}

#[test]
fn labeled_expand_binds_length_tag_suite_and_label() {
    let prk = [9u8; 32];
    let mut out = [0u8; 12];
    HkdfSha256::labeled_expand(&prk, &SUITE, b"base_nonce", b"ctx", &mut out).unwrap();
    let mut info = vec![0u8, 12];
    info.extend_from_slice(b"HPKE-v1");
    info.extend_from_slice(&SUITE);
    info.extend_from_slice(b"base_nonce");
    info.extend_from_slice(b"ctx");
    let hk = hkdf::Hkdf::<sha2::Sha256>::from_prk(&prk).unwrap();
    let mut expected = [0u8; 12];
    hk.expand(&info, &mut expected).unwrap();
    assert_eq!(out, expected);
}

#[test]
fn labeled_kdf_capacity_rejection() {
    let label = [b'l'; 32];
    let ikm = [b'i'; 129];
    let mut out = [5u8; 32];
    assert_eq!(
        HkdfSha256::labeled_extract(b"", &SUITE, &label, &ikm, &mut out),
        Err(HpkeError::BufferTooSmall)
    );
    assert_eq!(out, [5u8; 32]);
    assert_eq!(HkdfSha256::labeled_extract(b"", &SUITE, &label, &ikm[..128], &mut out), Ok(()));
    assert_ne!(out, [5u8; 32]);
    let info = [b'n'; 257];
    let mut out2 = [5u8; 32];
    assert_eq!(
        HkdfSha256::labeled_expand(&[1u8; 32], &SUITE, &label, &info, &mut out2),
        Err(HpkeError::BufferTooSmall)
    );
    assert_eq!(out2, [5u8; 32]);
    assert_eq!(HkdfSha256::labeled_expand(&[1u8; 32], &SUITE, &label, &info[..256], &mut out2), Ok(()));
    assert_eq!(
        HkdfSha256::labeled_expand(&[1u8; 16], &SUITE, &label, &info[..256], &mut [0u8; 4]),
        Err(HpkeError::KdfError)
    );
}

#[test]
fn base_mode_scenario() {
    let (sk, pk) = CombinerX25519MlKem768::generate_keypair(&pattern::<96>(40));
    let (enc, ctx_s) =
        setup_base_sender(AeadAlgorithm::ChaCha20Poly1305, &pk, b"test", &pattern::<64>(41)).unwrap();
    assert_eq!(enc.to_bytes().len(), 1120);
    let ctx_r = setup_base_recipient(AeadAlgorithm::ChaCha20Poly1305, &enc, &sk, b"test").unwrap();
    assert_eq!(ctx_s.key, ctx_r.key);
    assert_eq!(ctx_s.base_nonce, ctx_r.base_nonce);
    assert_ne!(ctx_s.key[..12], ctx_s.base_nonce[..]);
    let other = setup_base_recipient(AeadAlgorithm::ChaCha20Poly1305, &enc, &sk, b"tesT").unwrap();
    assert_ne!(ctx_s.key, other.key);
}

#[test]
fn recipient_rejects_wrong_enc_length() {
    let (sk, _) = CombinerX25519MlKem768::generate_keypair(&pattern::<96>(42));
    for n in [1119usize, 1121, 0] {
        let enc = Enc::new(&vec![3u8; n]);
        assert!(matches!(
            setup_base_recipient(AeadAlgorithm::Aes128Gcm, &enc, &sk, b"test"),
            Err(HpkeError::InvalidCiphertext)
        ));
        assert!(matches!(
            setup_psk_recipient(AeadAlgorithm::Aes128Gcm, &enc, &sk, b"test", b"k", b"i"),
            Err(HpkeError::InvalidCiphertext)
        ));
    }
}

#[test]
fn info_overflow_is_one_opaque_failure() {
    let (sk, pk) = CombinerX25519MlKem768::generate_keypair(&pattern::<96>(43));
    let aead = AeadAlgorithm::Aes256Gcm;
    let info = [1u8; 257];
    assert!(matches!(
        setup_base_sender(aead, &pk, &info, &pattern::<64>(1)),
        Err(HpkeError::KdfError)
    ));
    let (enc, s) = setup_base_sender(aead, &pk, &info[..256], &pattern::<64>(1)).unwrap();
    let r = setup_base_recipient(aead, &enc, &sk, &info[..256]).unwrap();
    assert_eq!(s.key, r.key);
    let r200 = setup_base_recipient(aead, &enc, &sk, &info[..200]);
    assert!(r200.is_ok());
    assert!(matches!(
        setup_base_recipient(aead, &enc, &sk, &info),
        Err(HpkeError::KdfError)
    ));
    let long = [2u8; 256];
    let (enc, s) = setup_psk_sender(aead, &pk, &long, &long, &long, &pattern::<64>(2)).unwrap();
    let r = setup_psk_recipient(aead, &enc, &sk, &long, &long, &long).unwrap();
    assert_eq!(s.base_nonce, r.base_nonce);
    assert!(matches!(
        setup_psk_sender(aead, &pk, b"", &[2u8; 257], b"id", &pattern::<64>(2)),
        Err(HpkeError::KdfError)
    ));
    assert!(matches!(
        setup_psk_recipient(aead, &enc, &sk, b"", b"psk", &[2u8; 257]),
        Err(HpkeError::KdfError)
    ));
}

#[test]
fn modes_derive_different_keys() {
    let (sk, pk) = CombinerX25519MlKem768::generate_keypair(&pattern::<96>(44));
    let coins = pattern::<64>(45);
    let aead = AeadAlgorithm::ChaCha20Poly1305;
    let (_, base) = setup_base_sender(aead, &pk, b"info", &coins).unwrap();
    let (_, psk) = setup_psk_sender(aead, &pk, b"info", b"", b"", &coins).unwrap();
    let (_, auth) = setup_auth_sender(aead, &pk, &sk, &pk, b"info", &coins).unwrap();
    assert_ne!(base.key, psk.key);
    assert_ne!(base.key, auth.key);
    assert_ne!(psk.key, auth.key);
}

#[test]
fn psk_mode_round_trip() {
    let (sk, pk) = CombinerX25519MlKem768::generate_keypair(&pattern::<96>(46));
    let aead = AeadAlgorithm::Aes128Gcm;
    let (enc, s) = setup_psk_sender(aead, &pk, b"i", b"shared psk", b"id", &pattern::<64>(47)).unwrap();
    let r = setup_psk_recipient(aead, &enc, &sk, b"i", b"shared psk", b"id").unwrap();
    assert_eq!(s.key, r.key);
    assert_eq!(s.base_nonce, r.base_nonce);
    let wrong = setup_psk_recipient(aead, &enc, &sk, b"i", b"other psk", b"id").unwrap();
    assert_ne!(s.key, wrong.key);
}

#[test]
fn auth_mode_binds_sender() {
    let (rsk, rpk) = CombinerX25519MlKem768::generate_keypair(&pattern::<96>(48));
    let (ssk, spk) = CombinerX25519MlKem768::generate_keypair(&pattern::<96>(49));
    let (_, other_pk) = CombinerX25519MlKem768::generate_keypair(&pattern::<96>(50));
    let aead = AeadAlgorithm::Aes256Gcm;
    let (enc, s) = Hpke::setup_auth_sender(aead, &rpk, &ssk, &spk, b"a", &pattern::<64>(51)).unwrap();
    let r = Hpke::setup_auth_recipient(aead, &enc, &rsk, &spk, b"a").unwrap();
    assert_eq!(s.key, r.key);
    let wrong = setup_auth_recipient(aead, &enc, &rsk, &other_pk, b"a").unwrap();
    assert_ne!(s.key, wrong.key);
    assert_ne!(s.base_nonce, wrong.base_nonce);
}

#[test]
fn error_conversions_and_messages() {
    assert_eq!(HpkeError::from(PrimitivesError::InvalidLength), HpkeError::DecapsulationError);
    assert_eq!(TollwayError::from(HpkeError::BufferTooSmall), TollwayError::EncryptionFailure);
    assert_eq!(HpkeError::BufferTooSmall.message(), "internal buffer capacity exceeded");
    assert_eq!(PrimitivesError::InvalidLength.message(), "invalid length for cryptographic primitive");
    assert_eq!(TollwayError::InvalidKeyBytes.message(), "Invalid key bytes provided");
}

#[test]
fn enc_holds_its_bytes() {
    let data = pattern::<1120>(60);
    let enc = Enc::new(&data);
    assert_eq!(enc.to_bytes(), &data[..]);
    let short = Enc::new(&data[..10]);
    assert_eq!(short.to_bytes(), &data[..10]);
}

#[test]
fn nonces_follow_the_sequence_counter() {
    let (sk, pk) = CombinerX25519MlKem768::generate_keypair(&pattern::<96>(70));
    let aead = AeadAlgorithm::ChaCha20Poly1305;
    let (enc, mut s) = setup_base_sender(aead, &pk, b"n", &pattern::<64>(71)).unwrap();
    let mut r = setup_base_recipient(aead, &enc, &sk, b"n").unwrap();
    let base = s.base_nonce.clone();
    let n0 = s.next_nonce().unwrap();
    assert_eq!(n0, base);
    let n1 = s.next_nonce().unwrap();
    assert_eq!(n1[..11], base[..11]);
    assert_eq!(n1[11], base[11] ^ 1);
    assert_eq!(s.seq, 2);
    assert_eq!(r.next_nonce().unwrap(), n0);
    assert_eq!(r.next_nonce().unwrap(), n1);
    s.seq = 0x0102;
    let n = s.next_nonce().unwrap();
    assert_eq!(n[10], base[10] ^ 0x01);
    assert_eq!(n[11], base[11] ^ 0x02);
    s.seq = u64::MAX;
    assert_eq!(s.next_nonce(), Err(HpkeError::AeadError));
    assert_eq!(s.seq, u64::MAX);
}

fn labeled_extract_ref(salt: &[u8], label: &[u8], ikm: &[u8]) -> Vec<u8> {
    let mut input = b"HPKE-v1".to_vec();
    input.extend_from_slice(&SUITE);
    input.extend_from_slice(label);
    input.extend_from_slice(ikm);
    hkdf::Hkdf::<sha2::Sha256>::extract(Some(salt), &input).0.to_vec()
}

fn labeled_expand_ref(prk: &[u8], label: &[u8], info: &[u8], len: usize) -> Vec<u8> {
    let mut full = vec![0u8, len as u8];
    full.extend_from_slice(b"HPKE-v1");
    full.extend_from_slice(&SUITE);
    full.extend_from_slice(label);
    full.extend_from_slice(info);
    let mut out = vec![0u8; len];
    hkdf::Hkdf::<sha2::Sha256>::from_prk(prk).unwrap().expand(&full, &mut out).unwrap();
    out
}

#[test]
fn key_schedule_matches_its_definition() {
    let ss = pattern::<32>(80);
    let mut ss_buf = ss;
    let (key, nonce) = tollway::hpke::derive_context(
        AeadAlgorithm::ChaCha20Poly1305,
        1,
        &mut ss_buf,
        b"app info",
        b"psk bytes",
        b"psk id",
    )
    .unwrap();
    assert_eq!(ss_buf, [0u8; 32]);
    let mut context = vec![1u8];
    context.extend(labeled_extract_ref(b"", b"psk_id_hash", b"psk id"));
    context.extend(labeled_extract_ref(b"", b"info_hash", b"app info"));
    let secret = labeled_extract_ref(&ss, b"secret", b"psk bytes");
    assert_eq!(key, labeled_expand_ref(&secret, b"key", &context, 32));
    assert_eq!(nonce, labeled_expand_ref(&secret, b"base_nonce", &context, 12));
}

#[test]
fn mldsa_secret_key_range_check() {
    let (sk, _) = MlDsa65::generate_keypair(&pattern::<32>(90));
    assert!(sk.is_well_formed());
    assert!(!MlDsa65SecretKey([0xFFu8; 4032]).is_well_formed());
    let mut bad = sk.0;
    bad[1535] = 0x90;
    assert!(!MlDsa65SecretKey(bad).is_well_formed());
    let mut fine = sk.0;
    fine[1536] = 0xFF;
    assert!(MlDsa65SecretKey(fine).is_well_formed());
}
