//! A participant's batch of sub-ceremony contributions and the operations on it.
use vstd::prelude::*;
use vstd::arithmetic::div_mod::lemma_add_mod_noop;
use crate::contribution::{
    contribution_after, pot_pubkey, pubkey_model, Contribution, ContributionView, Identity,
};
use crate::engine::Engine;
use crate::error::{CeremoniesError, CeremonyError};
use crate::group::G2;
use crate::signer::{EcdsaSignature, Signer};
use crate::secret::{
    chacha_draw, chacha_from_seed, chacha_gen, chacha_seed, chacha_stream, chacha_word_pos,
    secret_bytes,
    Entropy, SecretBytes, Tau, WORDS_PER_DRAW, WORD_POS_PERIOD,
};

verus! {

/// How many public commitments the standalone preview derives.
pub const PREVIEW_SIZE: usize = 4;

/// The ordered sub-ceremony contributions of one participant in one round,
/// and the one signature over all of them.
#[derive(Clone, Debug, PartialEq, Eq)]
pub struct BatchContribution {
    pub contributions: Vec<Contribution>,
    pub ecdsa_signature: EcdsaSignature,
}

/// The generator's word offset before draw `i`.
pub open spec fn draw_word_pos(i: int) -> nat {
    ((WORDS_PER_DRAW * i) % (WORD_POS_PERIOD as int)) as nat
}

/// The `i`-th secret drawn from a generator seeded with `seed`.
pub open spec fn drawn_secret(seed: Seq<u8>, i: int) -> Seq<u8> {
    chacha_draw(seed, draw_word_pos(i))
}

/// What `E` makes of item `c` with the secret drawn for it.
pub open spec fn item_after<E: Engine>(
    c: ContributionView,
    secret: Seq<u8>,
    identity: Identity,
) -> Result<ContributionView, CeremonyError> {
    match E::tau_model(secret) {
        Err(e) => Err(e),
        Ok(t) => contribution_after::<E>(c, t, identity),
    }
}

/// The outcome for each item of a batch updated from entropy `seed`.
pub open spec fn batch_results<E: Engine>(
    items: Seq<ContributionView>,
    seed: Seq<u8>,
    identity: Identity,
) -> Seq<Result<ContributionView, CeremonyError>> {
    Seq::new(items.len(), |i: int| item_after::<E>(items[i], drawn_secret(seed, i), identity))
}

/// The public commitment that the preview gives for draw `i`.
pub open spec fn preview_result<E: Engine>(seed: Seq<u8>, i: int) -> Result<G2, CeremonyError> {
    match E::tau_model(drawn_secret(seed, i)) {
        Err(e) => Err(e),
        Ok(t) => pubkey_model::<E>(t),
    }
}

/// Whether every outcome succeeded.
pub open spec fn all_ok<T>(rs: Seq<Result<T, CeremonyError>>) -> bool {
    forall|i: int| 0 <= i < rs.len() ==> (#[trigger] rs[i]) is Ok
}

/// The values of outcomes that all succeeded.
pub open spec fn oks<T>(rs: Seq<Result<T, CeremonyError>>) -> Seq<T> {
    rs.map_values(|r: Result<T, CeremonyError>| r->Ok_0)
}

/// Whether a reported failure is the failure of the item it names (a
/// signing failure is not one).
pub open spec fn tags_failure<T>(
    r: Result<(), CeremoniesError>,
    rs: Seq<Result<T, CeremonyError>>,
) -> bool {
    match r {
        Ok(()) => true,
        Err(CeremoniesError::InvalidCeremony(k, e)) => k < rs.len() && rs[k as int] == Err::<
            T,
            CeremonyError,
        >(e),
        Err(CeremoniesError::SigningFailed(_)) => false,
    }
}

/// The outcome of checking each item with `E`.
pub open spec fn check_results<E: Engine>(items: Seq<ContributionView>) -> Seq<
    Result<(), CeremonyError>,
> {
    items.map_values(|c: ContributionView| E::check_model(c))
}

/// The public commitments of a batch, in item order.
pub open spec fn receipt_of(items: Seq<ContributionView>) -> Seq<G2> {
    items.map_values(|c: ContributionView| c.pot_pubkey)
}

/// What `derive_taus` promises of its result `r`.
pub open spec fn taus_derived<E: Engine>(
    seed: Seq<u8>,
    size: nat,
    r: Result<Vec<Tau>, CeremoniesError>,
) -> bool {
    &&& r is Ok <==> (forall|i: int|
        0 <= i < size ==> (#[trigger] E::tau_model(drawn_secret(seed, i))) is Ok)
    &&& r matches Ok(v) ==> v@.len() == size && forall|i: int|
        0 <= i < size ==> E::tau_model(drawn_secret(seed, i)) == Ok::<Seq<u8>, CeremonyError>(
            secret_bytes(#[trigger] v@[i]),
        )
    &&& r matches Err(CeremoniesError::InvalidCeremony(k, e)) ==> k < size && E::tau_model(
        drawn_secret(seed, k as int),
    ) == Err::<Seq<u8>, CeremonyError>(e)
    &&& !(r matches Err(CeremoniesError::SigningFailed(_)))
}

/// What `add_entropy` promises: the outcome `r`, the items `after` that the
/// items `before` became, and the signature `sig_after` that replaced
/// `sig_before`. Every item is updated first; only then is the receipt signed
/// with the identity. On any failure the signature is kept and the batch must
/// be discarded.
pub open spec fn batch_updated<E: Engine, S: Signer>(
    before: Seq<ContributionView>,
    seed: Seq<u8>,
    identity: Identity,
    r: Result<(), CeremoniesError>,
    after: Seq<ContributionView>,
    sig_before: EcdsaSignature,
    sig_after: EcdsaSignature,
) -> bool {
    let rs = batch_results::<E>(before, seed, identity);
    let signed = S::sign_model(receipt_of(oks(rs)), identity);
    &&& after.len() == before.len()
    &&& r is Ok <==> all_ok(rs) && signed is Ok
    &&& r is Ok ==> after == oks(rs) && sig_after == signed->Ok_0
    &&& r is Err ==> sig_after == sig_before
    &&& match r {
        Ok(()) => true,
        Err(CeremoniesError::InvalidCeremony(k, e)) => k < rs.len() && rs[k as int] == Err::<
            ContributionView,
            CeremonyError,
        >(e),
        Err(CeremoniesError::SigningFailed(e)) => all_ok(rs) && signed == Err::<
            EcdsaSignature,
            CeremonyError,
        >(e),
    }
}

impl BatchContribution {
    /// The items of the batch, as values.
    pub open spec fn items(&self) -> Seq<ContributionView> {
        self.contributions@.map_values(|c: Contribution| c@)
    }

    /// The public commitment of every item, in item order.
    pub fn receipt(&self) -> (r: Vec<G2>)
        ensures
            r@ == receipt_of(self.items()),
    {
        let mut r: Vec<G2> = Vec::new();
        let mut i: usize = 0;
        while i < self.contributions.len()
            invariant
                i <= self.contributions@.len(),
                r@ == receipt_of(self.items()).subrange(0, i as int),
            decreases self.contributions@.len() - i,
        {
            r.push(self.contributions[i].pot_pubkey);
            i = i + 1;
            assert(r@ =~= receipt_of(self.items()).subrange(0, i as int));
        }
        assert(r@ =~= receipt_of(self.items()));
        r
    }

    /// Derives one tau per item from `entropy`, applies tau `i` to item `i`
    /// under `identity`, then has `S` sign the receipt with the identity and
    /// stores that signature. On failure the batch must be discarded.
    pub fn add_entropy<E: Engine, S: Signer>(
        &mut self,
        entropy: &Entropy,
        identity: &Identity,
    ) -> (r: Result<(), CeremoniesError>)
        ensures
            final(self).contributions@.len() == old(self).contributions@.len(),
            batch_updated::<E, S>(
                old(self).items(),
                secret_bytes(*entropy),
                *identity,
                r,
                final(self).items(),
                old(self).ecdsa_signature,
                final(self).ecdsa_signature,
            ),
    {
        let ghost seed = secret_bytes(*entropy);
        let ghost rs = batch_results::<E>(old(self).items(), seed, *identity);
        let n = self.contributions.len();
        let taus = match derive_taus::<E>(entropy, n) {
            Err(CeremoniesError::InvalidCeremony(k, e)) => {
                assert(!(rs[k as int] is Ok));
                assert(self.items() =~= old(self).items());
                return Err(CeremoniesError::InvalidCeremony(k, e));
            },
            Err(CeremoniesError::SigningFailed(e)) => {
                return Err(CeremoniesError::SigningFailed(e));
            },
            Ok(taus) => taus,
        };
        let mut i: usize = 0;
        while i < n
            invariant
                n == old(self).contributions@.len(),
                self.contributions@.len() == n,
                taus@.len() == n,
                i <= n,
                seed == secret_bytes(*entropy),
                rs == batch_results::<E>(old(self).items(), seed, *identity),
                self.ecdsa_signature == old(self).ecdsa_signature,
                forall|j: int|
                    0 <= j < n ==> E::tau_model(drawn_secret(seed, j)) == Ok::<
                        Seq<u8>,
                        CeremonyError,
                    >(secret_bytes(#[trigger] taus@[j])),
                forall|j: int| 0 <= j < i ==> (#[trigger] rs[j]) is Ok,
                forall|j: int| 0 <= j < i ==> self.contributions@[j]@ == (#[trigger] rs[j])->Ok_0,
                forall|j: int| i <= j < n ==> self.contributions@[j] == old(self).contributions@[j],
            decreases n - i,
        {
            assert(E::tau_model(drawn_secret(seed, i as int)) == Ok::<Seq<u8>, CeremonyError>(
                secret_bytes(taus@[i as int]),
            ));
            assert(rs[i as int] == contribution_after::<E>(
                self.contributions@[i as int]@,
                secret_bytes(taus@[i as int]),
                *identity,
            ));
            match self.contributions[i].add_tau::<E>(&taus[i], identity) {
                Err(e) => {
                    assert(rs[i as int] == Err::<ContributionView, CeremonyError>(e));
                    assert(!(rs[i as int] is Ok));
                    return Err(CeremoniesError::InvalidCeremony(i, e));
                },
                Ok(()) => {},
            }
            i = i + 1;
        }
        assert(self.items() =~= oks(rs));
        let receipt = self.receipt();
        match S::sign(&receipt, identity) {
            Err(e) => Err(CeremoniesError::SigningFailed(e)),
            Ok(sig) => {
                self.ecdsa_signature = sig;
                Ok(())
            },
        }
    }

    /// Checks every item with `E`. The batch is not changed.
    pub fn validate<E: Engine>(&mut self) -> (r: Result<(), CeremoniesError>)
        ensures
            *final(self) == *old(self),
            r is Ok <==> all_ok(check_results::<E>(old(self).items())),
            tags_failure(r, check_results::<E>(old(self).items())),
    {
        let ghost rs = check_results::<E>(self.items());
        let mut i: usize = 0;
        while i < self.contributions.len()
            invariant
                i <= self.contributions@.len(),
                *self == *old(self),
                rs == check_results::<E>(old(self).items()),
                forall|j: int| 0 <= j < i ==> (#[trigger] rs[j]) is Ok,
            decreases self.contributions@.len() - i,
        {
            assert(rs[i as int] == E::check_model(self.contributions@[i as int]@));
            match self.contributions[i].validate::<E>() {
                Err(e) => {
                    assert(!(rs[i as int] is Ok));
                    return Err(CeremoniesError::InvalidCeremony(i, e));
                },
                Ok(()) => {},
            }
            i = i + 1;
        }
        Ok(())
    }
}

/// Draws `size` secrets, in index order, from a ChaCha20 generator seeded with
/// the entropy, and has `E` derive a tau from each.
pub fn derive_taus<E: Engine>(entropy: &Entropy, size: usize) -> (r: Result<
    Vec<Tau>,
    CeremoniesError,
>)
    ensures
        taus_derived::<E>(secret_bytes(*entropy), size as nat, r),
{
    let ghost seed = secret_bytes(*entropy);
    let mut rng = chacha_from_seed(*entropy.expose());
    let mut taus: Vec<Tau> = Vec::new();
    let mut i: usize = 0;
    while i < size
        invariant
            i <= size,
            seed == secret_bytes(*entropy),
            chacha_seed(rng) == seed,
            chacha_stream(rng) == 0,
            chacha_word_pos(rng) == draw_word_pos(i as int),
            taus@.len() == i,
            forall|j: int|
                0 <= j < i ==> E::tau_model(drawn_secret(seed, j)) == Ok::<Seq<u8>, CeremonyError>(
                    secret_bytes(#[trigger] taus@[j]),
                ),
        decreases size - i,
    {
        let secret = SecretBytes::new(chacha_gen(&mut rng));
        proof {
            lemma_add_mod_noop(
                WORDS_PER_DRAW * i,
                WORDS_PER_DRAW as int,
                WORD_POS_PERIOD as int,
            );
            assert(WORDS_PER_DRAW * (i + 1) == WORDS_PER_DRAW * i + WORDS_PER_DRAW);
        }
        assert(secret_bytes(secret) == drawn_secret(seed, i as int));
        match E::generate_tau(&secret) {
            Err(e) => {
                assert(!(E::tau_model(drawn_secret(seed, i as int)) is Ok));
                return Err(CeremoniesError::InvalidCeremony(i, e));
            },
            Ok(t) => {
                taus.push(t);
            },
        }
        i = i + 1;
    }
    assert forall|j: int| 0 <= j < size implies (#[trigger] E::tau_model(
        drawn_secret(seed, j),
    )) is Ok by {
        assert(E::tau_model(drawn_secret(seed, j)) == Ok::<Seq<u8>, CeremonyError>(
            secret_bytes(taus@[j]),
        ));
    }
    Ok(taus)
}

/// The public commitments that the first `PREVIEW_SIZE` taus derived from
/// `entropy` would give, each applied to a canonical accumulator.
pub fn get_pot_pubkeys<E: Engine>(entropy: &Entropy) -> (r: Result<Vec<G2>, CeremoniesError>)
    ensures
        ({
            let rs = Seq::new(
                PREVIEW_SIZE as nat,
                |i: int| preview_result::<E>(secret_bytes(*entropy), i),
            );
            &&& r is Ok <==> all_ok(rs)
            &&& r matches Ok(v) ==> v@ == oks(rs)
            &&& r matches Err(CeremoniesError::InvalidCeremony(k, e)) ==> k < PREVIEW_SIZE
                && rs[k as int] == Err::<G2, CeremonyError>(e)
            &&& !(r matches Err(CeremoniesError::SigningFailed(_)))
        }),
{
    let ghost seed = secret_bytes(*entropy);
    let ghost rs = Seq::new(PREVIEW_SIZE as nat, |i: int| preview_result::<E>(seed, i));
    let taus = match derive_taus::<E>(entropy, PREVIEW_SIZE) {
        Err(CeremoniesError::InvalidCeremony(k, e)) => {
            assert(!(rs[k as int] is Ok));
            return Err(CeremoniesError::InvalidCeremony(k, e));
        },
        Err(CeremoniesError::SigningFailed(e)) => {
            return Err(CeremoniesError::SigningFailed(e));
        },
        Ok(taus) => taus,
    };
    let mut r: Vec<G2> = Vec::new();
    let mut i: usize = 0;
    while i < PREVIEW_SIZE
        invariant
            i <= PREVIEW_SIZE,
            taus@.len() == PREVIEW_SIZE,
            seed == secret_bytes(*entropy),
            rs == Seq::new(PREVIEW_SIZE as nat, |i: int| preview_result::<E>(seed, i)),
            forall|j: int|
                0 <= j < PREVIEW_SIZE ==> E::tau_model(drawn_secret(seed, j)) == Ok::<
                    Seq<u8>,
                    CeremonyError,
                >(secret_bytes(#[trigger] taus@[j])),
            r@.len() == i,
            forall|j: int| 0 <= j < i ==> (#[trigger] rs[j]) is Ok && r@[j] == rs[j]->Ok_0,
        decreases PREVIEW_SIZE - i,
    {
        assert(E::tau_model(drawn_secret(seed, i as int)) == Ok::<Seq<u8>, CeremonyError>(
            secret_bytes(taus@[i as int]),
        ));
        assert(rs[i as int] == pubkey_model::<E>(secret_bytes(taus@[i as int])));
        match pot_pubkey::<E>(&taus[i]) {
            Err(e) => {
                assert(rs[i as int] == Err::<G2, CeremonyError>(e));
                assert(!(rs[i as int] is Ok));
                return Err(CeremoniesError::InvalidCeremony(i, e));
            },
            Ok(pk) => {
                r.push(pk);
            },
        }
        i = i + 1;
    }
    assert(r@ =~= oks(rs));
    Ok(r)
}

} // verus!
