//! The state of one sub-ceremony and the identity it is bound to.
use vstd::prelude::*;
use crate::engine::Engine;
use crate::error::CeremonyError;
use crate::group::{g2_one, G1, G2};
use crate::secret::{secret_bytes, Tau};

verus! {

/// The attested identity of a participant, or none.
#[derive(Clone, Debug, PartialEq, Eq)]
pub enum Identity {
    NoAttestation,
    Ethereum { address: [u8; 20] },
    Github { id: u64, username: String },
}

/// The accumulated powers of tau of one sub-ceremony.
#[derive(Clone, Debug, PartialEq, Eq)]
pub struct Powers {
    pub g1: Vec<G1>,
    pub g2: Vec<G2>,
}

/// One sub-ceremony: its powers, the public commitment to the last tau
/// multiplied in, and that tau's signature over the participant's identity.
#[derive(Clone, Debug, PartialEq, Eq)]
pub struct Contribution {
    pub powers: Powers,
    pub pot_pubkey: G2,
    pub bls_signature: Option<G1>,
}

/// What a contribution holds, as values.
pub struct ContributionView {
    pub g1: Seq<G1>,
    pub g2: Seq<G2>,
    pub pot_pubkey: G2,
    pub bls_signature: Option<G1>,
}

impl View for Contribution {
    type V = ContributionView;

    open spec fn view(&self) -> ContributionView {
        ContributionView {
            g1: self.powers.g1@,
            g2: self.powers.g2@,
            pot_pubkey: self.pot_pubkey,
            bls_signature: self.bls_signature,
        }
    }
}

/// The public commitment to `tau`: the second element of the canonical
/// accumulator `[one, one]` after `tau` is applied to it.
pub open spec fn pubkey_model<E: Engine>(tau: Seq<u8>) -> Result<G2, CeremonyError> {
    match E::g2_model(tau, seq![g2_one(), g2_one()]) {
        Ok(p) => Ok(p[1]),
        Err(e) => Err(e),
    }
}

/// A contribution after `tau` is applied by `E` under `identity`: G1 powers,
/// G2 powers, public commitment and signature, in that order; the first
/// failure wins.
pub open spec fn contribution_after<E: Engine>(
    c: ContributionView,
    tau: Seq<u8>,
    identity: Identity,
) -> Result<ContributionView, CeremonyError> {
    match E::g1_model(tau, c.g1) {
        Err(e) => Err(e),
        Ok(g1) => match E::g2_model(tau, c.g2) {
            Err(e) => Err(e),
            Ok(g2) => match pubkey_model::<E>(tau) {
                Err(e) => Err(e),
                Ok(pk) => match E::sign_model(tau, identity) {
                    Err(e) => Err(e),
                    Ok(sig) => Ok(ContributionView { g1, g2, pot_pubkey: pk, bls_signature: sig }),
                },
            },
        },
    }
}

/// The public commitment to `tau`, computed on a fresh canonical accumulator.
pub fn pot_pubkey<E: Engine>(tau: &Tau) -> (r: Result<G2, CeremonyError>)
    ensures
        r == pubkey_model::<E>(secret_bytes(*tau)),
{
    let mut temp: Vec<G2> = vec![G2::one(), G2::one()];
    assert(temp@ =~= seq![g2_one(), g2_one()]);
    match E::add_tau_g2(tau, &mut temp) {
        Err(e) => Err(e),
        Ok(()) => Ok(temp[1]),
    }
}

impl Contribution {
    /// Applies `tau` to this sub-ceremony under `identity`. On failure the
    /// contribution is left in an unspecified state and must be discarded.
    pub fn add_tau<E: Engine>(&mut self, tau: &Tau, identity: &Identity) -> (r: Result<
        (),
        CeremonyError,
    >)
        ensures
            match contribution_after::<E>(old(self)@, secret_bytes(*tau), *identity) {
                Ok(c) => r is Ok && final(self)@ == c,
                Err(e) => r == Err::<(), CeremonyError>(e),
            },
    {
        match E::add_tau_g1(tau, &mut self.powers.g1) {
            Err(e) => return Err(e),
            Ok(()) => {},
        }
        match E::add_tau_g2(tau, &mut self.powers.g2) {
            Err(e) => return Err(e),
            Ok(()) => {},
        }
        match pot_pubkey::<E>(tau) {
            Err(e) => return Err(e),
            Ok(pk) => {
                self.pot_pubkey = pk;
            },
        }
        match E::sign_identity(tau, identity) {
            Err(e) => Err(e),
            Ok(sig) => {
                self.bls_signature = sig;
                Ok(())
            },
        }
    }

    /// Checks this sub-ceremony's consistency with `E`; it is not changed.
    pub fn validate<E: Engine>(&self) -> (r: Result<(), CeremonyError>)
        ensures
            r == E::check_model(self@),
    {
        E::validate_contribution(self)
    }
}

} // verus!
