use vstd::prelude::*;

verus! {

/// Errors reported by the library.
#[derive(Debug, Clone, Copy, PartialEq, Eq, Structural)]
pub enum ZkError {
    /// A buffer (data group, nonce or digest) has the wrong length.
    InvalidInputLength,
    /// The age threshold or the reference year lies outside its domain.
    InvalidRange,
    /// Serialized key bytes could not be read.
    KeyDeserializationError,
    /// Serialized proof bytes could not be read.
    ProofDeserializationError,
    /// The verification envelope could not be decoded.
    JsonEnvelopeParseError,
    /// The proving or verification algorithm failed internally.
    CryptographicFailure,
}

} // verus!
