//! Properties that relate the batch operations to one another.
use vstd::prelude::*;
use crate::batch_contribution::{
    all_ok, batch_results, batch_updated, check_results, item_after, oks, preview_result,
    receipt_of, tags_failure, taus_derived, PREVIEW_SIZE,
};
use crate::contribution::{contribution_after, pubkey_model, ContributionView, Identity};
use crate::engine::{Both, Engine};
use crate::error::{CeremoniesError, CeremonyError};
use crate::group::{G1, G2};
use crate::secret::{secret_bytes, Tau};
use crate::signer::{EcdsaSignature, Signer};

verus! {

/// Deriving taus twice from the same entropy and count gives the same
/// outcome, and on success the same scalars, bit for bit.
pub proof fn lemma_derive_taus_deterministic<E: Engine>(
    seed: Seq<u8>,
    size: nat,
    r1: Result<Vec<Tau>, CeremoniesError>,
    r2: Result<Vec<Tau>, CeremoniesError>,
)
    requires
        taus_derived::<E>(seed, size, r1),
        taus_derived::<E>(seed, size, r2),
    ensures
        r1 is Ok <==> r2 is Ok,
        r1 is Ok ==> r1->Ok_0@.len() == size && r2->Ok_0@.len() == size,
        r1 is Ok ==> forall|i: int|
            0 <= i < size ==> secret_bytes(#[trigger] r1->Ok_0@[i]) == secret_bytes(
                r2->Ok_0@[i],
            ),
{
    if r1 is Ok {
        assert forall|i: int| 0 <= i < size implies secret_bytes(#[trigger] r1->Ok_0@[i])
            == secret_bytes(r2->Ok_0@[i]) by {
            assert(E::tau_model(crate::batch_contribution::drawn_secret(seed, i)) == Ok::<
                Seq<u8>,
                CeremonyError,
            >(secret_bytes(r1->Ok_0@[i])));
            assert(E::tau_model(crate::batch_contribution::drawn_secret(seed, i)) == Ok::<
                Seq<u8>,
                CeremonyError,
            >(secret_bytes(r2->Ok_0@[i])));
        }
    }
}

/// Two copies of the same batch updated with the same entropy and identity
/// succeed or fail together, and on success hold the same items, the same
/// public commitments and the same signature.
pub proof fn lemma_add_entropy_deterministic<E: Engine, S: Signer>(
    before: Seq<ContributionView>,
    seed: Seq<u8>,
    identity: Identity,
    sig_before: EcdsaSignature,
    r1: Result<(), CeremoniesError>,
    after1: Seq<ContributionView>,
    sig1: EcdsaSignature,
    r2: Result<(), CeremoniesError>,
    after2: Seq<ContributionView>,
    sig2: EcdsaSignature,
)
    requires
        batch_updated::<E, S>(before, seed, identity, r1, after1, sig_before, sig1),
        batch_updated::<E, S>(before, seed, identity, r2, after2, sig_before, sig2),
    ensures
        r1 is Ok <==> r2 is Ok,
        r1 is Ok ==> after1 == after2 && receipt_of(after1) == receipt_of(after2) && sig1 == sig2,
{
}

/// A successful update stores the signature that the signer gives over the
/// updated batch's receipt, in item order, and the identity.
pub proof fn lemma_signature_covers_receipt<E: Engine, S: Signer>(
    before: Seq<ContributionView>,
    seed: Seq<u8>,
    identity: Identity,
    sig_before: EcdsaSignature,
    after: Seq<ContributionView>,
    sig_after: EcdsaSignature,
)
    requires
        batch_updated::<E, S>(before, seed, identity, Ok(()), after, sig_before, sig_after),
    ensures
        S::sign_model(receipt_of(after), identity) == Ok::<EcdsaSignature, CeremonyError>(
            sig_after,
        ),
{
}

/// A fault in item `k` alone of a batch makes the update fail, and the
/// failure names index `k`.
pub proof fn lemma_add_entropy_names_faulty_item<E: Engine, S: Signer>(
    before: Seq<ContributionView>,
    seed: Seq<u8>,
    identity: Identity,
    k: int,
    r: Result<(), CeremoniesError>,
    after: Seq<ContributionView>,
    sig_before: EcdsaSignature,
    sig_after: EcdsaSignature,
)
    requires
        0 <= k < before.len(),
        !(batch_results::<E>(before, seed, identity)[k] is Ok),
        forall|j: int|
            0 <= j < before.len() && j != k ==> (#[trigger] batch_results::<E>(
                before,
                seed,
                identity,
            )[j]) is Ok,
        batch_updated::<E, S>(before, seed, identity, r, after, sig_before, sig_after),
    ensures
        r matches Err(CeremoniesError::InvalidCeremony(i, _)) && i == k,
{
    let rs = batch_results::<E>(before, seed, identity);
    assert(!all_ok(rs));
    if let Err(CeremoniesError::InvalidCeremony(i, e)) = r {
        assert(!(rs[i as int] is Ok));
    }
}

/// A fault in item `k` alone of a batch makes validation fail, and the
/// failure names index `k`.
pub proof fn lemma_validate_names_faulty_item<E: Engine>(
    items: Seq<ContributionView>,
    k: int,
    r: Result<(), CeremoniesError>,
)
    requires
        0 <= k < items.len(),
        !(E::check_model(items[k]) is Ok),
        forall|j: int| 0 <= j < items.len() && j != k ==> (#[trigger] E::check_model(items[j])) is Ok,
        r is Ok <==> all_ok(check_results::<E>(items)),
        tags_failure(r, check_results::<E>(items)),
    ensures
        r matches Err(CeremoniesError::InvalidCeremony(i, _)) && i == k,
{
    let rs = check_results::<E>(items);
    assert(rs[k] == E::check_model(items[k]));
    assert(!all_ok(rs));
    if let Err(CeremoniesError::InvalidCeremony(i, e)) = r {
        assert(rs[i as int] == E::check_model(items[i as int]));
    }
}

/// After a successful update the receipt has one commitment per item, in
/// item order: the commitment stored in that item, which is the public key
/// of the tau drawn for it.
pub proof fn lemma_receipt_after_update<E: Engine, S: Signer>(
    before: Seq<ContributionView>,
    seed: Seq<u8>,
    identity: Identity,
    after: Seq<ContributionView>,
    sig_before: EcdsaSignature,
    sig_after: EcdsaSignature,
)
    requires
        batch_updated::<E, S>(before, seed, identity, Ok(()), after, sig_before, sig_after),
    ensures
        receipt_of(after).len() == before.len(),
        forall|i: int|
            0 <= i < before.len() ==> (#[trigger] receipt_of(after)[i]) == after[i].pot_pubkey
                && preview_result::<E>(seed, i) == Ok::<G2, CeremonyError>(after[i].pot_pubkey),
{
    let rs = batch_results::<E>(before, seed, identity);
    assert forall|i: int| 0 <= i < before.len() implies (#[trigger] receipt_of(after)[i])
        == after[i].pot_pubkey && preview_result::<E>(seed, i) == Ok::<G2, CeremonyError>(
        after[i].pot_pubkey,
    ) by {
        assert(rs[i] is Ok);
        let secret = crate::batch_contribution::drawn_secret(seed, i);
        let t = E::tau_model(secret)->Ok_0;
        assert(rs[i] == contribution_after::<E>(before[i], t, identity));
    }
}

/// The outcome for item `i` depends on item `i` alone: two batches that hold
/// the same item at `i` get the same outcome there, whatever the other items
/// are, so the items can be processed in any order or at once.
pub proof fn lemma_items_independent<E: Engine>(
    b1: Seq<ContributionView>,
    b2: Seq<ContributionView>,
    seed: Seq<u8>,
    identity: Identity,
    i: int,
)
    requires
        0 <= i < b1.len(),
        0 <= i < b2.len(),
        b1[i] == b2[i],
    ensures
        batch_results::<E>(b1, seed, identity)[i] == batch_results::<E>(b2, seed, identity)[i],
        batch_results::<E>(b1, seed, identity)[i] == item_after::<E>(
            b1[i],
            crate::batch_contribution::drawn_secret(seed, i),
            identity,
        ),
{
}

/// Two backends that compute the same results make a composite backend that
/// computes those results too: the same per-item outcomes, public
/// commitments and checks as either backend alone.
pub proof fn lemma_composite_agrees<A: Engine, B: Engine>(
    items: Seq<ContributionView>,
    seed: Seq<u8>,
    identity: Identity,
)
    requires
        forall|s: Seq<u8>| #[trigger] A::tau_model(s) == B::tau_model(s),
        forall|t: Seq<u8>, p: Seq<G1>| #[trigger] A::g1_model(t, p) == B::g1_model(t, p),
        forall|t: Seq<u8>, p: Seq<G2>| #[trigger] A::g2_model(t, p) == B::g2_model(t, p),
        forall|t: Seq<u8>, id: Identity| #[trigger] A::sign_model(t, id) == B::sign_model(t, id),
        forall|c: ContributionView| #[trigger] A::check_model(c) == B::check_model(c),
    ensures
        batch_results::<Both<A, B>>(items, seed, identity) == batch_results::<A>(
            items,
            seed,
            identity,
        ),
        forall|i: int| #[trigger]
            preview_result::<Both<A, B>>(seed, i) == preview_result::<A>(seed, i),
        check_results::<Both<A, B>>(items) == check_results::<A>(items),
{
    assert forall|t: Seq<u8>| #[trigger]
        pubkey_model::<Both<A, B>>(t) == pubkey_model::<A>(t) by {
        assert(A::g2_model(t, seq![crate::group::g2_one(), crate::group::g2_one()])
            == B::g2_model(t, seq![crate::group::g2_one(), crate::group::g2_one()]));
    }
    assert forall|c: ContributionView, t: Seq<u8>| #[trigger]
        contribution_after::<Both<A, B>>(c, t, identity) == contribution_after::<A>(
            c,
            t,
            identity,
        ) by {
        assert(A::g1_model(t, c.g1) == B::g1_model(t, c.g1));
        assert(A::g2_model(t, c.g2) == B::g2_model(t, c.g2));
        assert(A::sign_model(t, identity) == B::sign_model(t, identity));
        assert(pubkey_model::<Both<A, B>>(t) == pubkey_model::<A>(t));
    }
    assert forall|s: Seq<u8>, c: ContributionView| #[trigger]
        item_after::<Both<A, B>>(c, s, identity) == item_after::<A>(c, s, identity) by {
        assert(A::tau_model(s) == B::tau_model(s));
    }
    assert forall|i: int| #[trigger]
        preview_result::<Both<A, B>>(seed, i) == preview_result::<A>(seed, i) by {
        let s = crate::batch_contribution::drawn_secret(seed, i);
        assert(A::tau_model(s) == B::tau_model(s));
    }
    assert(batch_results::<Both<A, B>>(items, seed, identity) =~= batch_results::<A>(
        items,
        seed,
        identity,
    ));
    assert forall|i: int| 0 <= i < items.len() implies check_results::<Both<A, B>>(items)[i]
        == check_results::<A>(items)[i] by {
        assert(A::check_model(items[i]) == B::check_model(items[i]));
    }
    assert(check_results::<Both<A, B>>(items) =~= check_results::<A>(items));
}

/// Where two backends give different outcomes for an operation (different
/// values, different errors, or one failing alone), the composite backend
/// fails that operation with a disagreement, never preferring either side. A
/// tau that they derive differently fails the whole item, and a check on
/// which they differ fails that item's validation.
pub proof fn lemma_composite_rejects_mismatch<A: Engine, B: Engine>(
    secret: Seq<u8>,
    tau: Seq<u8>,
    g1: Seq<G1>,
    g2: Seq<G2>,
    identity: Identity,
    c: ContributionView,
    items: Seq<ContributionView>,
    k: int,
)
    ensures
        A::tau_model(secret) != B::tau_model(secret) ==> Both::<A, B>::tau_model(secret) == Err::<
            Seq<u8>,
            CeremonyError,
        >(CeremonyError::BackendDisagreement) && item_after::<Both<A, B>>(c, secret, identity)
            == Err::<ContributionView, CeremonyError>(CeremonyError::BackendDisagreement),
        A::g1_model(tau, g1) != B::g1_model(tau, g1) ==> Both::<A, B>::g1_model(tau, g1) == Err::<
            Seq<G1>,
            CeremonyError,
        >(CeremonyError::BackendDisagreement),
        A::g2_model(tau, g2) != B::g2_model(tau, g2) ==> Both::<A, B>::g2_model(tau, g2) == Err::<
            Seq<G2>,
            CeremonyError,
        >(CeremonyError::BackendDisagreement),
        A::sign_model(tau, identity) != B::sign_model(tau, identity) ==> Both::<
            A,
            B,
        >::sign_model(tau, identity) == Err::<Option<G1>, CeremonyError>(
            CeremonyError::BackendDisagreement,
        ),
        0 <= k < items.len() && A::check_model(items[k]) != B::check_model(items[k])
            ==> check_results::<Both<A, B>>(items)[k] == Err::<(), CeremonyError>(
            CeremonyError::BackendDisagreement,
        ),
{
}

/// On a batch of the preview's size, the public commitments that a
/// successful update leaves in the receipt are exactly those that the
/// standalone preview gives for the same entropy, and the preview succeeds.
pub proof fn lemma_preview_matches_update<E: Engine, S: Signer>(
    before: Seq<ContributionView>,
    seed: Seq<u8>,
    identity: Identity,
    after: Seq<ContributionView>,
    sig_before: EcdsaSignature,
    sig_after: EcdsaSignature,
)
    requires
        before.len() == PREVIEW_SIZE,
        batch_updated::<E, S>(before, seed, identity, Ok(()), after, sig_before, sig_after),
    ensures
        ({
            let rs = Seq::new(PREVIEW_SIZE as nat, |i: int| preview_result::<E>(seed, i));
            all_ok(rs) && oks(rs) == receipt_of(after)
        }),
{
    lemma_receipt_after_update::<E, S>(before, seed, identity, after, sig_before, sig_after);
    let rs = Seq::new(PREVIEW_SIZE as nat, |i: int| preview_result::<E>(seed, i));
    assert forall|i: int| 0 <= i < rs.len() implies (#[trigger] rs[i]) is Ok by {
        assert(receipt_of(after)[i] == after[i].pot_pubkey);
    }
    assert forall|i: int| 0 <= i < rs.len() implies oks(rs)[i] == receipt_of(after)[i] by {
        assert(receipt_of(after)[i] == after[i].pot_pubkey);
    }
    assert(oks(rs) =~= receipt_of(after));
}

} // verus!
