//! Failure taxonomy of the session core.  Every failure is terminal for
//! the current attempt: the session surfaces it and never retries on its
//! own.

use vstd::prelude::*;

verus! {

/// Call or payload construction did not fit the schema the chain currently
/// declares.
#[derive(Clone, Copy, Debug, PartialEq, Eq, Structural)]
pub enum EncodingError {
    /// The action's shape does not match the loaded call schema.
    ShapeMismatch,
    /// A chain-identity field is malformed (e.g. a genesis hash of the
    /// wrong length).
    MalformedIdentity,
}

/// The round-trip to the external signer failed.
#[derive(Clone, Debug)]
pub enum SigningError {
    /// The signer answered, but with text that is not a `0x`-prefixed hex
    /// string.
    MalformedText,
    /// The decoded signature bytes fit no known signature layout.
    MalformedSignature,
    /// The signer refused to sign.
    Refused(String),
    /// The signer could not be reached.
    Transport(String),
}

/// Reassembly of the signed extrinsic was refused.
#[derive(Clone, Copy, Debug, PartialEq, Eq, Structural)]
pub enum AssemblyError {
    /// The returned signature's scheme does not match the signer's
    /// declared key type.
    SchemeMismatch,
}

/// Submission or finalization tracking failed.
#[derive(Clone, Debug)]
pub enum SubmissionError {
    /// The node could not be reached while submitting or watching.
    Transport(String),
    /// The node rejected the extrinsic.
    Rejected(String),
    /// Watching the extrinsic gave up before finalization.
    Timeout,
    /// The block finalized, but the expected success event was absent.
    EventNotFound,
}

/// A signing attempt's failure: either the signer round-trip or the
/// reassembly afterwards.
#[derive(Clone, Debug)]
pub enum SigningFlowError {
    Signing(SigningError),
    Assembly(AssemblyError),
}

} // verus!
