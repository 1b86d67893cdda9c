//! Binding an updated batch to a participant by a signature over its receipt.
use vstd::prelude::*;
use crate::contribution::Identity;
use crate::error::CeremonyError;
use crate::group::G2;

verus! {

/// A signature that binds a batch to a participant, if one was attached.
#[derive(Clone, Debug, PartialEq, Eq)]
pub struct EcdsaSignature(pub Option<String>);

/// The signature collaborator: signs the ordered public commitments of a
/// batch together with the identity. Its result is a function of those two,
/// given by `sign_model`.
pub trait Signer {
    /// The signature over `receipt` and `identity`, or the failure. A signer
    /// written outside Verus leaves it unspecified.
    closed spec fn sign_model(receipt: Seq<G2>, identity: Identity) -> Result<
        EcdsaSignature,
        CeremonyError,
    > {
        arbitrary()
    }

    /// Signs the ordered public commitments of a batch and the identity.
    fn sign(receipt: &Vec<G2>, identity: &Identity) -> (r: Result<EcdsaSignature, CeremonyError>)
        ensures
            r == Self::sign_model(receipt@, *identity),
    ;
}

/// A signer for a participant without a signing key: the batch is left
/// unsigned, and any earlier signature is dropped.
pub struct Unsigned;

impl Signer for Unsigned {
    open spec fn sign_model(receipt: Seq<G2>, identity: Identity) -> Result<
        EcdsaSignature,
        CeremonyError,
    > {
        Ok(EcdsaSignature(None))
    }

    fn sign(receipt: &Vec<G2>, identity: &Identity) -> (r: Result<EcdsaSignature, CeremonyError>) {
        Ok(EcdsaSignature(None))
    }
}

} // verus!
