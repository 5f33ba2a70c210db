use tollway::combiner::{combine, CombinerX25519MlKem768, HybridPublicKey, HybridSecretKey};
use tollway::format::Enc;
use tollway::hpke::AeadAlgorithm;
use tollway::mode::{setup_base_recipient, setup_base_sender};
use tollway::traits::Kem;
use tollway::x25519::{X25519Ciphertext, X25519SecretKey, X25519};
use tollway::{PublicKey, SecretKey};

fn pattern<const N: usize>(start: u8) -> [u8; N] {
    let mut out = [0u8; N];
    for (i, b) in out.iter_mut().enumerate() {
        *b = start.wrapping_add((i as u8).wrapping_mul(7));
    }
    out
}

#[test]
fn test_wycheproof_aes_gcm() {
    let (sk, pk) = CombinerX25519MlKem768::generate_keypair(&pattern::<96>(1));
    let (enc, ctx_s) =
        setup_base_sender(AeadAlgorithm::Aes256Gcm, &pk, b"aes", &pattern::<64>(2)).unwrap();
    let ctx_r = setup_base_recipient(AeadAlgorithm::Aes256Gcm, &enc, &sk, b"aes").unwrap();
    assert_eq!(ctx_s.key.len(), 32);
    assert_eq!(ctx_s.base_nonce.len(), 12);
    assert_eq!(ctx_s.key, ctx_r.key);
    let (_, ctx_128) =
        setup_base_sender(AeadAlgorithm::Aes128Gcm, &pk, b"aes", &pattern::<64>(2)).unwrap();
    assert_eq!(ctx_128.key.len(), 16);
    assert_ne!(ctx_128.key[..], ctx_s.key[..16]);
}

#[test]
fn test_wycheproof_chacha20_poly1305() {
    let (sk, pk) = CombinerX25519MlKem768::generate_keypair(&pattern::<96>(3));
    let (enc, ctx_s) =
        setup_base_sender(AeadAlgorithm::ChaCha20Poly1305, &pk, b"", &pattern::<64>(4)).unwrap();
    let ctx_r = setup_base_recipient(AeadAlgorithm::ChaCha20Poly1305, &enc, &sk, b"").unwrap();
    assert_eq!(ctx_s.key.len(), 32);
    assert_eq!(ctx_s.base_nonce.len(), 12);
    assert_eq!(ctx_s.base_nonce, ctx_r.base_nonce);
    assert_eq!(ctx_s.seq, 0);
    assert_eq!(ctx_r.seq, 0);
}

#[test]
fn test_wycheproof_x25519() {
    // The all-zero point has low order; it is not rejected and yields the zero secret.
    let sk = X25519SecretKey(pattern::<32>(5));
    let ss = X25519::decapsulate(&sk, &X25519Ciphertext([0u8; 32])).unwrap();
    assert_eq!(ss.0, [0u8; 32]);
    // RFC 7748 section 6.1 key agreement vector.
    let alice = hex32("77076d0a7318a57d3c16c17251b26645df4c2f87ebc0992ab177fba51db92c2a");
    let bob_pub = hex32("de9edb7d7b7dc1b4d35b61c2ece435373f8343c85b78674dadfc7e146f882b4f");
    let shared = hex32("4a5d9d5ba4ce2de1728e3bf480350f25e07e21c947d19e3376f09b3c1e161742");
    let ss = X25519::decapsulate(&X25519SecretKey(alice), &X25519Ciphertext(bob_pub)).unwrap();
    assert_eq!(ss.0, shared);
    let (_, pk) = X25519::generate_keypair(&alice);
    assert_eq!(
        pk.0,
        hex32("8520f0098930a754748b7ddcb43ef75a0dbf3a0d26381af4eba4a98eaa9b4e6a")
    );
}

#[test]
fn test_memory_zeroization_on_drop() {
    let mut ss1 = pattern::<32>(9);
    let mut ss2 = pattern::<32>(10);
    let ct1 = pattern::<32>(11);
    let ct2 = pattern::<1088>(12);
    let mut ikm = [0xAAu8; 1184];
    let out = combine(&mut ss1, &mut ss2, &ct1, &ct2, &mut ikm);
    assert_eq!(ss1, [0u8; 32]);
    assert_eq!(ss2, [0u8; 32]);
    assert!(ikm.iter().all(|b| *b == 0));
    assert_ne!(out, [0u8; 32]);
}

#[test]
fn test_facade_hpke_roundtrip() {
    let (sk, pk) = SecretKey::generate(&pattern::<96>(13));
    let pk = PublicKey::from_bytes(pk.to_bytes()).unwrap();
    let hpk = HybridPublicKey::try_from(pk.to_bytes()).unwrap();
    let hsk = HybridSecretKey::try_from(&sk.0[..]).unwrap();
    let (enc, ctx_s) =
        setup_base_sender(AeadAlgorithm::ChaCha20Poly1305, &hpk, b"facade", &pattern::<64>(14))
            .unwrap();
    let enc = Enc::new(enc.to_bytes());
    let ctx_r = setup_base_recipient(AeadAlgorithm::ChaCha20Poly1305, &enc, &hsk, b"facade").unwrap();
    assert_eq!(ctx_s.key, ctx_r.key);
    assert_eq!(ctx_s.base_nonce, ctx_r.base_nonce);
}

fn hex32(s: &str) -> [u8; 32] {
    let mut out = [0u8; 32];
    for i in 0..32 {
        out[i] = u8::from_str_radix(&s[2 * i..2 * i + 2], 16).unwrap();
    }
    out
}
