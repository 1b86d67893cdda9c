//! Failures of one sub-ceremony and of a batch.
use vstd::prelude::*;

verus! {

/// Why a backend could not update or accept one sub-ceremony.
#[derive(Clone, Copy, Debug, PartialEq, Eq, Structural)]
pub enum CeremonyError {
    /// A point does not decode to a valid group element.
    InvalidPoint,
    /// A pairing check between the powers failed.
    PairingCheckFailed,
    /// The public commitment does not match the powers.
    PubKeyMismatch,
    /// A secret does not give a usable scalar.
    ScalarOutOfRange,
    /// The accumulator does not have the shape the backend expects.
    MalformedPowers,
    /// Two backends run side by side gave different results, or one of them
    /// failed where the other did not.
    BackendDisagreement,
    /// The signer has no key to sign with.
    NoSigningKey,
}

/// A failure of a batch operation: of the item at an index, or of signing
/// the updated batch.
#[derive(Clone, Copy, Debug, PartialEq, Eq, Structural)]
pub enum CeremoniesError {
    InvalidCeremony(usize, CeremonyError),
    SigningFailed(CeremonyError),
}

} // verus!
