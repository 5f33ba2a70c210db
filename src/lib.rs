//! Hybrid X25519 + ML-KEM-768 key encapsulation with an RFC 9180 style key schedule.
//!
//! Randomness is taken as caller-supplied byte strings drawn from a
//! cryptographically secure generator, so every operation here is a function of
//! its explicit inputs.
pub mod bytes;
pub mod combiner;
pub mod error;
pub mod facade;
pub mod format;
pub mod hpke;
pub mod kdf;
pub mod mldsa;
pub mod mlkem;
pub mod mode;
pub mod traits;
pub mod x25519;

pub use facade::{PublicKey, SecretKey};
pub use error::TollwayError as Error;
