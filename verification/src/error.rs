//! The failures that signing a request can end in.
//!
//! Every failure is local and synchronous: nothing in this crate retries, and a
//! call that fails has produced no signature set at all.

use vstd::prelude::*;

verus! {

/// A key holder could not produce a signature.
#[derive(Debug, Clone, Copy, PartialEq, Eq, Structural)]
pub enum SigningError {
    /// The key material carries no private key and signing happens locally.
    MissingPrivateKey,
    /// The private key text is not the hexadecimal form of 32 bytes.
    MalformedPrivateKey,
    /// The 32 key bytes are zero or not below the order of the curve.
    InvalidPrivateKey,
    /// The address text is not the hexadecimal form of 20 bytes.
    MalformedAddress,
    /// A signer outside this process could not be reached or declined to sign.
    SignerUnavailable,
}

/// The curve handed back something that has no 65-byte wire form.
#[derive(Debug, Clone, Copy, PartialEq, Eq, Structural)]
pub enum EncodingError {
    /// The recovery identifier is neither 0 nor 1.
    RecoveryIdOutOfRange,
}

/// The canonical message could not be produced.
#[derive(Debug, Clone, Copy, PartialEq, Eq, Structural)]
pub enum SerializationError {
    /// The system clock reads a time before the Unix epoch.
    ClockBeforeEpoch,
    /// The JSON encoder refused a value.
    Encoder,
}

/// A signed message cannot be sent as it is.
#[derive(Debug, Clone, Copy, PartialEq, Eq, Structural)]
pub enum RequestError {
    /// The endpoint wants the user's signature and there is none.
    MissingUserSignature,
}

/// Why a request was not signed.
#[derive(Debug, Clone, Copy, PartialEq, Eq, Structural)]
pub enum AuthError {
    /// A key holder failed; the inner error is the signer's own, unchanged.
    Signing(SigningError),
    /// A signature came back that cannot be encoded.
    Encoding(EncodingError),
}

} // verus!
