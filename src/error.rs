use vstd::prelude::*;

verus! {

/// Errors of the primitive layer (fixed-size values and the sub-KEMs).
#[derive(Debug, Clone, Copy, PartialEq, Eq, Structural)]
pub enum PrimitivesError {
    InvalidLength,
    RngError,
    CiphertextVerificationFailed,
    SignatureVerificationFailed,
}

impl PrimitivesError {
    /// Human-readable description of the error.
    pub fn message(&self) -> (r: &'static str) {
        match self {
            PrimitivesError::InvalidLength => "invalid length for cryptographic primitive",
            PrimitivesError::RngError => "random number generator failed",
            PrimitivesError::CiphertextVerificationFailed => {
                "ciphertext verification failed (implicit rejection)"
            },
            PrimitivesError::SignatureVerificationFailed => "signature verification failed",
        }
    }
}

/// Errors of the key-schedule layer.
#[derive(Debug, Clone, Copy, PartialEq, Eq, Structural)]
pub enum HpkeError {
    InvalidCiphertext,
    DecapsulationError,
    KdfError,
    AeadError,
    InvalidKeyLength,
    InvalidMode,
    BufferTooSmall,
}

impl HpkeError {
    /// Human-readable description of the error.
    pub fn message(&self) -> (r: &'static str) {
        match self {
            HpkeError::InvalidCiphertext => "invalid ciphertext format or tag",
            HpkeError::DecapsulationError => "KEM decapsulation failed",
            HpkeError::KdfError => "Key derivation failed",
            HpkeError::AeadError => "AEAD encryption/decryption failed",
            HpkeError::InvalidKeyLength => "invalid key length provided",
            HpkeError::InvalidMode => "invalid HPKE mode specified",
            HpkeError::BufferTooSmall => "internal buffer capacity exceeded",
        }
    }
}

/// Any primitive failure surfaces at the key-schedule layer as one opaque
/// decapsulation error.
impl From<PrimitivesError> for HpkeError {
    fn from(e: PrimitivesError) -> (r: HpkeError)
        ensures
            r == HpkeError::DecapsulationError,
    {
        HpkeError::DecapsulationError
    }
}

impl vstd::std_specs::convert::FromSpecImpl<PrimitivesError> for HpkeError {
    open spec fn obeys_from_spec() -> bool {
        true
    }

    open spec fn from_spec(e: PrimitivesError) -> HpkeError {
        HpkeError::DecapsulationError
    }
}

/// Errors of the top-level key API.
#[derive(Debug, Clone, Copy, PartialEq, Eq, Structural)]
pub enum TollwayError {
    InvalidKeyBytes,
    EncryptionFailure,
    DecryptionFailure,
}

impl TollwayError {
    /// Human-readable description of the error.
    pub fn message(&self) -> (r: &'static str) {
        match self {
            TollwayError::InvalidKeyBytes => "Invalid key bytes provided",
            TollwayError::EncryptionFailure => "Message sealing failed",
            TollwayError::DecryptionFailure => "Message opening failed",
        }
    }
}

impl From<HpkeError> for TollwayError {
    fn from(e: HpkeError) -> (r: TollwayError)
        ensures
            r == TollwayError::EncryptionFailure,
    {
        TollwayError::EncryptionFailure
    }
}

impl vstd::std_specs::convert::FromSpecImpl<HpkeError> for TollwayError {
    open spec fn obeys_from_spec() -> bool {
        true
    }

    open spec fn from_spec(e: HpkeError) -> TollwayError {
        TollwayError::EncryptionFailure
    }
}

} // verus!
