//! The capability that an elliptic-curve backend offers, and a composite
//! backend that runs two of them side by side.
use std::marker::PhantomData;
use vstd::prelude::*;
use crate::contribution::{Contribution, ContributionView, Identity};
use crate::error::CeremonyError;
use crate::group::{g1_eq, g2_eq, G1, G2};
use crate::secret::{secret_bytes, SecretBytes, Tau};

verus! {

/// Whether a derived tau, or its failure, is what the model `m` gives.
pub open spec fn tau_result_matches(
    r: Result<Tau, CeremonyError>,
    m: Result<Seq<u8>, CeremonyError>,
) -> bool {
    match r {
        Ok(t) => m == Ok::<Seq<u8>, CeremonyError>(secret_bytes(t)),
        Err(e) => m == Err::<Seq<u8>, CeremonyError>(e),
    }
}

/// A pluggable elliptic-curve backend. Each operation is a function of its
/// inputs, given by a spec function of the implementation. A backend written
/// in Verus states its functions; one written outside it (which Verus does not
/// check) leaves them unspecified, and generic code never relies on the
/// defaults.
pub trait Engine {
    /// The scalar (32-byte encoding) derived from a secret, or the failure.
    closed spec fn tau_model(secret: Seq<u8>) -> Result<Seq<u8>, CeremonyError> {
        arbitrary()
    }

    /// The G1 powers after multiplying power `i` by `tau^i`, or the failure.
    closed spec fn g1_model(tau: Seq<u8>, powers: Seq<G1>) -> Result<Seq<G1>, CeremonyError> {
        arbitrary()
    }

    /// The G2 powers after multiplying power `i` by `tau^i`, or the failure.
    closed spec fn g2_model(tau: Seq<u8>, powers: Seq<G2>) -> Result<Seq<G2>, CeremonyError> {
        arbitrary()
    }

    /// The signature of `tau` over an identity (none where there is nothing
    /// to sign), or the failure.
    closed spec fn sign_model(tau: Seq<u8>, identity: Identity) -> Result<Option<G1>, CeremonyError> {
        arbitrary()
    }

    /// Whether a contribution is internally consistent.
    closed spec fn check_model(c: ContributionView) -> Result<(), CeremonyError> {
        arbitrary()
    }

    /// Derives a secret scalar from secret bytes.
    fn generate_tau(secret: &SecretBytes) -> (r: Result<Tau, CeremonyError>)
        ensures
            tau_result_matches(r, Self::tau_model(secret_bytes(*secret))),
    ;

    /// Multiplies each G1 power `i` by `tau^i`; on failure the powers are left
    /// in an unspecified state.
    fn add_tau_g1(tau: &Tau, powers: &mut Vec<G1>) -> (r: Result<(), CeremonyError>)
        ensures
            match Self::g1_model(secret_bytes(*tau), old(powers)@) {
                Ok(p) => r is Ok && final(powers)@ == p && p.len() == old(powers)@.len(),
                Err(e) => r == Err::<(), CeremonyError>(e),
            },
    ;

    /// Multiplies each G2 power `i` by `tau^i`; on failure the powers are left
    /// in an unspecified state.
    fn add_tau_g2(tau: &Tau, powers: &mut Vec<G2>) -> (r: Result<(), CeremonyError>)
        ensures
            match Self::g2_model(secret_bytes(*tau), old(powers)@) {
                Ok(p) => r is Ok && final(powers)@ == p && p.len() == old(powers)@.len(),
                Err(e) => r == Err::<(), CeremonyError>(e),
            },
    ;

    /// Signs an identity with `tau`.
    fn sign_identity(tau: &Tau, identity: &Identity) -> (r: Result<Option<G1>, CeremonyError>)
        ensures
            r == Self::sign_model(secret_bytes(*tau), *identity),
    ;

    /// Checks a contribution without knowing its tau.
    fn validate_contribution(c: &Contribution) -> (r: Result<(), CeremonyError>)
        ensures
            r == Self::check_model(c@),
    ;
}

/// Two results combined: the common value where both succeed alike, the
/// common error where both fail alike, and a disagreement otherwise (different
/// values, different errors, or one side failing alone).
pub open spec fn agree<T>(a: Result<T, CeremonyError>, b: Result<T, CeremonyError>) -> Result<
    T,
    CeremonyError,
> {
    if a == b {
        a
    } else {
        Err(CeremonyError::BackendDisagreement)
    }
}

/// A backend that performs every operation with both `A` and `B`, always
/// running both, and fails where they disagree.
pub struct Both<A, B> {
    a: PhantomData<A>,
    b: PhantomData<B>,
}

fn bytes_eq(a: &[u8; 32], b: &[u8; 32]) -> (r: bool)
    ensures
        r == (a@ == b@),
{
    let mut i: usize = 0;
    while i < 32
        invariant
            i <= 32,
            forall|j: int| 0 <= j < i ==> a@[j] == b@[j],
        decreases 32 - i,
    {
        if a[i] != b[i] {
            return false;
        }
        i = i + 1;
    }
    assert(a@ =~= b@);
    true
}

fn g1s_eq(a: &Vec<G1>, b: &Vec<G1>) -> (r: bool)
    ensures
        r == (a@ == b@),
{
    if a.len() != b.len() {
        return false;
    }
    let mut i: usize = 0;
    while i < a.len()
        invariant
            i <= a@.len(),
            a@.len() == b@.len(),
            forall|j: int| 0 <= j < i ==> a@[j] == b@[j],
        decreases a@.len() - i,
    {
        if !g1_eq(&a[i], &b[i]) {
            return false;
        }
        i = i + 1;
    }
    assert(a@ =~= b@);
    true
}

fn g2s_eq(a: &Vec<G2>, b: &Vec<G2>) -> (r: bool)
    ensures
        r == (a@ == b@),
{
    if a.len() != b.len() {
        return false;
    }
    let mut i: usize = 0;
    while i < a.len()
        invariant
            i <= a@.len(),
            a@.len() == b@.len(),
            forall|j: int| 0 <= j < i ==> a@[j] == b@[j],
        decreases a@.len() - i,
    {
        if !g2_eq(&a[i], &b[i]) {
            return false;
        }
        i = i + 1;
    }
    assert(a@ =~= b@);
    true
}

fn g1_copy(v: &Vec<G1>) -> (r: Vec<G1>)
    ensures
        r@ == v@,
{
    let mut r: Vec<G1> = Vec::new();
    let mut i: usize = 0;
    while i < v.len()
        invariant
            i <= v@.len(),
            r@ == v@.subrange(0, i as int),
        decreases v@.len() - i,
    {
        r.push(v[i]);
        i = i + 1;
    }
    assert(r@ =~= v@);
    r
}

fn g2_copy(v: &Vec<G2>) -> (r: Vec<G2>)
    ensures
        r@ == v@,
{
    let mut r: Vec<G2> = Vec::new();
    let mut i: usize = 0;
    while i < v.len()
        invariant
            i <= v@.len(),
            r@ == v@.subrange(0, i as int),
        decreases v@.len() - i,
    {
        r.push(v[i]);
        i = i + 1;
    }
    assert(r@ =~= v@);
    r
}

impl<A: Engine, B: Engine> Engine for Both<A, B> {
    open spec fn tau_model(secret: Seq<u8>) -> Result<Seq<u8>, CeremonyError> {
        agree(A::tau_model(secret), B::tau_model(secret))
    }

    open spec fn g1_model(tau: Seq<u8>, powers: Seq<G1>) -> Result<Seq<G1>, CeremonyError> {
        agree(A::g1_model(tau, powers), B::g1_model(tau, powers))
    }

    open spec fn g2_model(tau: Seq<u8>, powers: Seq<G2>) -> Result<Seq<G2>, CeremonyError> {
        agree(A::g2_model(tau, powers), B::g2_model(tau, powers))
    }

    open spec fn sign_model(tau: Seq<u8>, identity: Identity) -> Result<Option<G1>, CeremonyError> {
        agree(A::sign_model(tau, identity), B::sign_model(tau, identity))
    }

    open spec fn check_model(c: ContributionView) -> Result<(), CeremonyError> {
        agree(A::check_model(c), B::check_model(c))
    }

    fn generate_tau(secret: &SecretBytes) -> (r: Result<Tau, CeremonyError>) {
        let ra = A::generate_tau(secret);
        let rb = B::generate_tau(secret);
        match (ra, rb) {
            (Ok(ta), Ok(tb)) => {
                if bytes_eq(ta.expose(), tb.expose()) {
                    Ok(ta)
                } else {
                    Err(CeremonyError::BackendDisagreement)
                }
            },
            (Err(ea), Err(eb)) => {
                if ea == eb {
                    Err(ea)
                } else {
                    Err(CeremonyError::BackendDisagreement)
                }
            },
            _ => Err(CeremonyError::BackendDisagreement),
        }
    }

    fn add_tau_g1(tau: &Tau, powers: &mut Vec<G1>) -> (r: Result<(), CeremonyError>) {
        let mut other = g1_copy(powers);
        let ra = A::add_tau_g1(tau, powers);
        let rb = B::add_tau_g1(tau, &mut other);
        match (ra, rb) {
            (Ok(()), Ok(())) => {
                if g1s_eq(powers, &other) {
                    Ok(())
                } else {
                    Err(CeremonyError::BackendDisagreement)
                }
            },
            (Err(ea), Err(eb)) => {
                if ea == eb {
                    Err(ea)
                } else {
                    Err(CeremonyError::BackendDisagreement)
                }
            },
            _ => Err(CeremonyError::BackendDisagreement),
        }
    }

    fn add_tau_g2(tau: &Tau, powers: &mut Vec<G2>) -> (r: Result<(), CeremonyError>) {
        let mut other = g2_copy(powers);
        let ra = A::add_tau_g2(tau, powers);
        let rb = B::add_tau_g2(tau, &mut other);
        match (ra, rb) {
            (Ok(()), Ok(())) => {
                if g2s_eq(powers, &other) {
                    Ok(())
                } else {
                    Err(CeremonyError::BackendDisagreement)
                }
            },
            (Err(ea), Err(eb)) => {
                if ea == eb {
                    Err(ea)
                } else {
                    Err(CeremonyError::BackendDisagreement)
                }
            },
            _ => Err(CeremonyError::BackendDisagreement),
        }
    }

    fn sign_identity(tau: &Tau, identity: &Identity) -> (r: Result<Option<G1>, CeremonyError>) {
        let ra = A::sign_identity(tau, identity);
        let rb = B::sign_identity(tau, identity);
        match (ra, rb) {
            (Ok(sa), Ok(sb)) => {
                let same = match (sa, sb) {
                    (Some(x), Some(y)) => g1_eq(&x, &y),
                    (None, None) => true,
                    _ => false,
                };
                if same {
                    Ok(sa)
                } else {
                    Err(CeremonyError::BackendDisagreement)
                }
            },
            (Err(ea), Err(eb)) => {
                if ea == eb {
                    Err(ea)
                } else {
                    Err(CeremonyError::BackendDisagreement)
                }
            },
            _ => Err(CeremonyError::BackendDisagreement),
        }
    }

    fn validate_contribution(c: &Contribution) -> (r: Result<(), CeremonyError>) {
        let ra = A::validate_contribution(c);
        let rb = B::validate_contribution(c);
        if ra.is_ok() && rb.is_ok() {
            assert(ra->Ok_0 == rb->Ok_0);
            assert(ra == rb);
        }
        match (ra, rb) {
            (Ok(()), Ok(())) => Ok(()),
            (Err(ea), Err(eb)) => {
                if ea == eb {
                    Err(ea)
                } else {
                    Err(CeremonyError::BackendDisagreement)
                }
            },
            _ => Err(CeremonyError::BackendDisagreement),
        }
    }
}

} // verus!
