use batch_ceremony::batch_contribution::{derive_taus, get_pot_pubkeys, BatchContribution};
use batch_ceremony::signer::{EcdsaSignature, Signer, Unsigned};
use batch_ceremony::contribution::{pot_pubkey, Contribution, Identity, Powers};
use batch_ceremony::engine::{Both, Engine};
use batch_ceremony::error::{CeremoniesError, CeremonyError};
use batch_ceremony::group::{g1_eq, g2_eq, G1, G2};
use batch_ceremony::secret::{SecretBytes, Tau};
use rand::{Rng, SeedableRng};
use rand_chacha::ChaCha20Rng;

/// A stand-in backend: power `i` has its bytes mixed with `tau * i`; a point
/// whose first byte is 0xff is malformed.
struct Mock;

/// The same computation as `Mock`, written separately.
struct MockTwin;

/// A backend that disagrees with `Mock` on G2 powers.
struct Skewed;

/// `Mock`, but refusing every secret whose first byte is even.
struct Picky;

/// `Mock`, but rejecting items whose second G1 power starts with 0xfe.
struct Strict;

/// Signs the receipt and identity by spelling them out.
struct Spelling;

/// A signer without a key.
struct Keyless;

impl Signer for Spelling {
    fn sign(receipt: &Vec<G2>, identity: &Identity) -> Result<EcdsaSignature, CeremonyError> {
        let who = match identity {
            Identity::NoAttestation => "none".to_string(),
            Identity::Ethereum { address } => format!("eth{}", address[0]),
            Identity::Github { id, .. } => format!("git{}", id),
        };
        let keys: Vec<String> = receipt.iter().map(|g| format!("{}", g.0[0])).collect();
        Ok(EcdsaSignature(Some(format!("{}|{}", keys.join(","), who))))
    }
}

impl Signer for Keyless {
    fn sign(_receipt: &Vec<G2>, _identity: &Identity) -> Result<EcdsaSignature, CeremonyError> {
        Err(CeremonyError::NoSigningKey)
    }
}

impl Engine for Picky {
    fn generate_tau(secret: &SecretBytes) -> Result<Tau, CeremonyError> {
        if secret.expose()[0] % 2 == 0 {
            return Err(CeremonyError::ScalarOutOfRange);
        }
        mock_tau(secret)
    }
    fn add_tau_g1(tau: &Tau, powers: &mut Vec<G1>) -> Result<(), CeremonyError> {
        mock_g1(tau, powers)
    }
    fn add_tau_g2(tau: &Tau, powers: &mut Vec<G2>) -> Result<(), CeremonyError> {
        mock_g2(tau, powers, 0)
    }
    fn sign_identity(tau: &Tau, identity: &Identity) -> Result<Option<G1>, CeremonyError> {
        mock_sign(tau, identity)
    }
    fn validate_contribution(c: &Contribution) -> Result<(), CeremonyError> {
        mock_check(c)
    }
}

impl Engine for Strict {
    fn generate_tau(secret: &SecretBytes) -> Result<Tau, CeremonyError> {
        mock_tau(secret)
    }
    fn add_tau_g1(tau: &Tau, powers: &mut Vec<G1>) -> Result<(), CeremonyError> {
        mock_g1(tau, powers)
    }
    fn add_tau_g2(tau: &Tau, powers: &mut Vec<G2>) -> Result<(), CeremonyError> {
        mock_g2(tau, powers, 0)
    }
    fn sign_identity(tau: &Tau, identity: &Identity) -> Result<Option<G1>, CeremonyError> {
        mock_sign(tau, identity)
    }
    fn validate_contribution(c: &Contribution) -> Result<(), CeremonyError> {
        if c.powers.g1.len() > 1 && c.powers.g1[1].0[0] == 0xfe {
            return Err(CeremonyError::PubKeyMismatch);
        }
        mock_check(c)
    }
}

fn mix(bytes: &mut [u8], tau: &[u8; 32], i: usize, skew: u8) {
    for (j, b) in bytes.iter_mut().enumerate() {
        *b ^= tau[j % 32].wrapping_mul(i as u8);
    }
    bytes[2] ^= skew;
}

fn mock_tau(secret: &SecretBytes) -> Result<Tau, CeremonyError> {
    if secret.expose().iter().all(|b| *b == 0) {
        return Err(CeremonyError::ScalarOutOfRange);
    }
    Ok(SecretBytes::new(*secret.expose()))
}

fn mock_g1(tau: &Tau, powers: &mut Vec<G1>) -> Result<(), CeremonyError> {
    if powers.iter().any(|p| p.0[0] == 0xff) {
        return Err(CeremonyError::MalformedPowers);
    }
    for (i, p) in powers.iter_mut().enumerate() {
        mix(&mut p.0, tau.expose(), i, 0);
    }
    Ok(())
}

fn mock_g2(tau: &Tau, powers: &mut Vec<G2>, skew: u8) -> Result<(), CeremonyError> {
    if powers.iter().any(|p| p.0[0] == 0xff) {
        return Err(CeremonyError::MalformedPowers);
    }
    for (i, p) in powers.iter_mut().enumerate() {
        mix(&mut p.0, tau.expose(), i, skew);
    }
    Ok(())
}

fn mock_sign(tau: &Tau, identity: &Identity) -> Result<Option<G1>, CeremonyError> {
    match identity {
        Identity::NoAttestation => Ok(None),
        _ => {
            let mut g = G1([0u8; 48]);
            g.0[..32].copy_from_slice(tau.expose());
            Ok(Some(g))
        }
    }
}

fn mock_check(c: &Contribution) -> Result<(), CeremonyError> {
    if c.powers.g1.is_empty() || c.powers.g1[0].0[0] == 0xff {
        return Err(CeremonyError::PairingCheckFailed);
    }
    Ok(())
}

impl Engine for Mock {
    fn generate_tau(secret: &SecretBytes) -> Result<Tau, CeremonyError> {
        mock_tau(secret)
    }
    fn add_tau_g1(tau: &Tau, powers: &mut Vec<G1>) -> Result<(), CeremonyError> {
        mock_g1(tau, powers)
    }
    fn add_tau_g2(tau: &Tau, powers: &mut Vec<G2>) -> Result<(), CeremonyError> {
        mock_g2(tau, powers, 0)
    }
    fn sign_identity(tau: &Tau, identity: &Identity) -> Result<Option<G1>, CeremonyError> {
        mock_sign(tau, identity)
    }
    fn validate_contribution(c: &Contribution) -> Result<(), CeremonyError> {
        mock_check(c)
    }
}

impl Engine for MockTwin {
    fn generate_tau(secret: &SecretBytes) -> Result<Tau, CeremonyError> {
        Ok(SecretBytes::new(*secret.expose()))
    }
    fn add_tau_g1(tau: &Tau, powers: &mut Vec<G1>) -> Result<(), CeremonyError> {
        mock_g1(tau, powers)
    }
    fn add_tau_g2(tau: &Tau, powers: &mut Vec<G2>) -> Result<(), CeremonyError> {
        mock_g2(tau, powers, 0)
    }
    fn sign_identity(tau: &Tau, identity: &Identity) -> Result<Option<G1>, CeremonyError> {
        mock_sign(tau, identity)
    }
    fn validate_contribution(c: &Contribution) -> Result<(), CeremonyError> {
        mock_check(c)
    }
}

impl Engine for Skewed {
    fn generate_tau(secret: &SecretBytes) -> Result<Tau, CeremonyError> {
        mock_tau(secret)
    }
    fn add_tau_g1(tau: &Tau, powers: &mut Vec<G1>) -> Result<(), CeremonyError> {
        mock_g1(tau, powers)
    }
    fn add_tau_g2(tau: &Tau, powers: &mut Vec<G2>) -> Result<(), CeremonyError> {
        mock_g2(tau, powers, 1)
    }
    fn sign_identity(tau: &Tau, identity: &Identity) -> Result<Option<G1>, CeremonyError> {
        mock_sign(tau, identity)
    }
    fn validate_contribution(c: &Contribution) -> Result<(), CeremonyError> {
        mock_check(c)
    }
}

fn fresh_contribution() -> Contribution {
    Contribution {
        powers: Powers { g1: vec![G1([1u8; 48]); 4], g2: vec![G2([1u8; 96]); 2] },
        pot_pubkey: G2::one(),
        bls_signature: None,
    }
}

fn fresh_batch(n: usize) -> BatchContribution {
    BatchContribution {
        contributions: (0..n).map(|_| fresh_contribution()).collect(),
        ecdsa_signature: EcdsaSignature(None),
    }
}

fn entropy(seed: u8) -> SecretBytes {
    SecretBytes::new([seed; 32])
}

fn index_of(r: Result<(), CeremoniesError>) -> Option<usize> {
    match r {
        Ok(()) => None,
        Err(CeremoniesError::InvalidCeremony(i, _)) => Some(i),
        Err(CeremoniesError::SigningFailed(_)) => None,
    }
}

#[test]
fn derivation_is_deterministic() {
    let a = derive_taus::<Mock>(&entropy(5), 6).unwrap();
    let b = derive_taus::<Mock>(&entropy(5), 6).unwrap();
    assert_eq!(a.len(), 6);
    for (x, y) in a.iter().zip(b.iter()) {
        assert_eq!(x.expose(), y.expose());
    }
}

#[test]
fn derivation_follows_the_chacha_stream() {
    let taus = derive_taus::<Mock>(&entropy(9), 3).unwrap();
    let mut rng = ChaCha20Rng::from_seed([9u8; 32]);
    for tau in &taus {
        let expected: [u8; 32] = rng.gen();
        assert_eq!(tau.expose(), &expected);
    }
    assert_ne!(taus[0].expose(), taus[1].expose());
    assert_ne!(taus[0].expose(), &[9u8; 32]);
}

#[test]
fn derivation_reports_the_failing_draw() {
    assert!(derive_taus::<Mock>(&entropy(1), 0).unwrap().is_empty());
    let mut rng = ChaCha20Rng::from_seed([9u8; 32]);
    let draws: Vec<[u8; 32]> = (0..16).map(|_| rng.gen()).collect();
    assert!(draws.iter().any(|d| d[0] % 2 == 0));
    match derive_taus::<Picky>(&entropy(9), 16) {
        Err(CeremoniesError::InvalidCeremony(k, e)) => {
            assert!(k < 16);
            assert_eq!(draws[k][0] % 2, 0);
            assert_eq!(e, CeremonyError::ScalarOutOfRange);
        }
        _ => panic!("an even draw must be refused"),
    }
}

#[test]
fn secret_bytes_are_kept() {
    let s = SecretBytes::new([7u8; 32]);
    assert_eq!(s.expose(), &[7u8; 32]);
}

#[test]
fn g2_one_is_the_generator() {
    let one = G2::one();
    assert_eq!(one.0[0], 0x93);
    assert_eq!(one.0[95], 0xb8);
    assert!(g2_eq(&one, &G2::one()));
    assert!(!g2_eq(&one, &G2([0u8; 96])));
    assert!(g1_eq(&G1([3u8; 48]), &G1([3u8; 48])));
    assert!(!g1_eq(&G1([3u8; 48]), &G1([4u8; 48])));
}

#[test]
fn same_entropy_same_commitments() {
    let mut a = fresh_batch(4);
    let mut b = fresh_batch(4);
    a.add_entropy::<Mock, Unsigned>(&entropy(3), &Identity::NoAttestation).unwrap();
    b.add_entropy::<Mock, Unsigned>(&entropy(3), &Identity::NoAttestation).unwrap();
    assert_eq!(a.receipt(), b.receipt());
    let mut c = fresh_batch(4);
    c.add_entropy::<Mock, Unsigned>(&entropy(4), &Identity::NoAttestation).unwrap();
    assert_ne!(a.receipt(), c.receipt());
}

#[test]
fn add_entropy_reports_faulty_index() {
    for k in 0..4 {
        let mut batch = fresh_batch(4);
        batch.contributions[k].powers.g1[2].0[0] = 0xff;
        let r = batch.add_entropy::<Mock, Unsigned>(&entropy(2), &Identity::NoAttestation);
        assert_eq!(index_of(r), Some(k));
        assert_eq!(
            r,
            Err(CeremoniesError::InvalidCeremony(k, CeremonyError::MalformedPowers))
        );
    }
}

#[test]
fn add_entropy_reports_a_failing_index_among_several() {
    let mut batch = fresh_batch(4);
    batch.contributions[1].powers.g2[0].0[0] = 0xff;
    batch.contributions[3].powers.g2[0].0[0] = 0xff;
    let r = batch.add_entropy::<Mock, Unsigned>(&entropy(2), &Identity::NoAttestation);
    let k = index_of(r).unwrap();
    assert!(k == 1 || k == 3);
}

#[test]
fn validate_reports_faulty_index() {
    for k in 0..4 {
        let mut batch = fresh_batch(4);
        batch.add_entropy::<Mock, Unsigned>(&entropy(6), &Identity::NoAttestation).unwrap();
        batch.contributions[k].powers.g1[0].0[0] = 0xff;
        assert_eq!(
            batch.validate::<Mock>(),
            Err(CeremoniesError::InvalidCeremony(k, CeremonyError::PairingCheckFailed))
        );
    }
}

#[test]
fn receipt_lists_item_commitments() {
    let mut batch = fresh_batch(3);
    batch.add_entropy::<Mock, Unsigned>(&entropy(8), &Identity::NoAttestation).unwrap();
    let receipt = batch.receipt();
    assert_eq!(receipt.len(), 3);
    for (i, pk) in receipt.iter().enumerate() {
        assert_eq!(*pk, batch.contributions[i].pot_pubkey);
        assert_ne!(*pk, G2::one());
    }
    assert!(fresh_batch(0).receipt().is_empty());
}

#[test]
fn items_are_independent() {
    let mut batch = fresh_batch(3);
    batch.add_entropy::<Mock, Unsigned>(&entropy(11), &Identity::NoAttestation).unwrap();
    // One item at a time, in order, with the same taus.
    let taus = derive_taus::<Mock>(&entropy(11), 3).unwrap();
    let mut other = fresh_batch(3);
    other.contributions[0].powers.g1[3] = G1([9u8; 48]);
    for (c, tau) in other.contributions.iter_mut().zip(taus.iter()).rev() {
        c.add_tau::<Mock>(tau, &Identity::NoAttestation).unwrap();
    }
    for i in 1..3 {
        assert_eq!(batch.contributions[i].powers.g1, other.contributions[i].powers.g1);
        assert_eq!(batch.contributions[i].powers.g2, other.contributions[i].powers.g2);
        assert_eq!(batch.contributions[i].pot_pubkey, other.contributions[i].pot_pubkey);
    }
    assert_ne!(batch.contributions[0].powers.g1, other.contributions[0].powers.g1);
}

#[test]
fn composite_agrees_with_either_backend() {
    let mut alone = fresh_batch(4);
    alone.add_entropy::<Mock, Unsigned>(&entropy(12), &Identity::NoAttestation).unwrap();
    let mut both = fresh_batch(4);
    both.add_entropy::<Both<Mock, MockTwin>, Unsigned>(&entropy(12), &Identity::NoAttestation).unwrap();
    assert_eq!(alone.receipt(), both.receipt());
    assert_eq!(both.validate::<Both<Mock, MockTwin>>(), Ok(()));
    assert_eq!(
        get_pot_pubkeys::<Both<Mock, MockTwin>>(&entropy(12)).unwrap(),
        get_pot_pubkeys::<Mock>(&entropy(12)).unwrap()
    );
}

#[test]
fn composite_rejects_mismatched_backends() {
    let mut batch = fresh_batch(4);
    let r = batch.add_entropy::<Both<Mock, Skewed>, Unsigned>(&entropy(12), &Identity::NoAttestation);
    assert!(matches!(
        r,
        Err(CeremoniesError::InvalidCeremony(_, CeremonyError::BackendDisagreement))
    ));
    assert_eq!(
        get_pot_pubkeys::<Both<Mock, Skewed>>(&entropy(12)),
        Err(CeremoniesError::InvalidCeremony(0, CeremonyError::BackendDisagreement))
    );
    let tau = SecretBytes::new([5u8; 32]);
    assert_eq!(pot_pubkey::<Both<Skewed, Mock>>(&tau), Err(CeremonyError::BackendDisagreement));
    let mut g2 = vec![G2([1u8; 96]); 2];
    assert_eq!(Both::<Mock, Skewed>::add_tau_g2(&tau, &mut g2), Err(CeremonyError::BackendDisagreement));
}

#[test]
fn composite_passes_on_the_first_failure() {
    let mut batch = fresh_batch(2);
    batch.contributions[1].powers.g1[0].0[0] = 0xff;
    assert_eq!(
        batch.add_entropy::<Both<Mock, MockTwin>, Unsigned>(&entropy(1), &Identity::NoAttestation),
        Err(CeremoniesError::InvalidCeremony(1, CeremonyError::MalformedPowers))
    );
    assert_eq!(
        Both::<Mock, Mock>::generate_tau(&SecretBytes::new([0u8; 32])).err(),
        Some(CeremonyError::ScalarOutOfRange)
    );
}

#[test]
fn composite_rejects_one_sided_failures() {
    // Mock refuses an all-zero secret, MockTwin accepts it.
    assert_eq!(
        Both::<Mock, MockTwin>::generate_tau(&SecretBytes::new([0u8; 32])).err(),
        Some(CeremonyError::BackendDisagreement)
    );
    for k in 0..4 {
        let mut batch = fresh_batch(4);
        batch.add_entropy::<Mock, Unsigned>(&entropy(15), &Identity::NoAttestation).unwrap();
        batch.contributions[k].powers.g1[1].0[0] = 0xfe;
        assert_eq!(batch.validate::<Mock>(), Ok(()));
        assert_eq!(
            batch.validate::<Both<Mock, Strict>>(),
            Err(CeremoniesError::InvalidCeremony(k, CeremonyError::BackendDisagreement))
        );
        assert_eq!(
            batch.validate::<Both<Strict, Mock>>(),
            Err(CeremoniesError::InvalidCeremony(k, CeremonyError::BackendDisagreement))
        );
    }
    let mut batch = fresh_batch(4);
    assert!(matches!(
        batch.add_entropy::<Both<Mock, Picky>, Unsigned>(&entropy(9), &Identity::NoAttestation),
        Err(CeremoniesError::InvalidCeremony(_, CeremonyError::BackendDisagreement))
    ));
}

#[test]
fn preview_matches_full_ceremony() {
    let preview = get_pot_pubkeys::<Mock>(&entropy(21)).unwrap();
    let mut batch = fresh_batch(4);
    batch.add_entropy::<Mock, Unsigned>(&entropy(21), &Identity::NoAttestation).unwrap();
    assert_eq!(preview.len(), 4);
    assert_eq!(preview, batch.receipt());
}

#[test]
fn validate_leaves_batch_unchanged() {
    let mut batch = fresh_batch(4);
    batch.add_entropy::<Mock, Unsigned>(&entropy(13), &Identity::NoAttestation).unwrap();
    let before = format!("{:?}", batch);
    let copy = batch.clone();
    assert_eq!(batch.validate::<Mock>(), Ok(()));
    assert_eq!(batch.validate::<Mock>(), Ok(()));
    assert_eq!(format!("{:?}", batch), before);
    assert_eq!(batch, copy);
}

#[test]
fn signature_binds_identity() {
    let mut batch = fresh_batch(2);
    let id = Identity::Ethereum { address: [0xab; 20] };
    batch.ecdsa_signature = EcdsaSignature(Some("stale".to_string()));
    batch.add_entropy::<Mock, Spelling>(&entropy(14), &id).unwrap();
    let taus = derive_taus::<Mock>(&entropy(14), 2).unwrap();
    for (c, tau) in batch.contributions.iter().zip(taus.iter()) {
        assert_eq!(&c.bls_signature.unwrap().0[..32], &tau.expose()[..]);
    }
    let receipt = batch.receipt();
    let expected = format!("{},{}|eth171", receipt[0].0[0], receipt[1].0[0]);
    assert_eq!(batch.ecdsa_signature, EcdsaSignature(Some(expected)));
}

#[test]
fn unsigned_drops_the_old_signature() {
    let mut batch = fresh_batch(2);
    batch.ecdsa_signature = EcdsaSignature(Some("stale".to_string()));
    batch.add_entropy::<Mock, Unsigned>(&entropy(14), &Identity::NoAttestation).unwrap();
    assert_eq!(batch.ecdsa_signature, EcdsaSignature(None));
}

#[test]
fn signing_failure_is_reported() {
    let mut batch = fresh_batch(3);
    batch.ecdsa_signature = EcdsaSignature(Some("stale".to_string()));
    assert_eq!(
        batch.add_entropy::<Mock, Keyless>(&entropy(16), &Identity::NoAttestation),
        Err(CeremoniesError::SigningFailed(CeremonyError::NoSigningKey))
    );
    assert_eq!(batch.contributions.len(), 3);
    assert_eq!(batch.ecdsa_signature, EcdsaSignature(Some("stale".to_string())));
}

#[test]
fn failed_apply_keeps_item_count_and_signature() {
    let mut batch = fresh_batch(3);
    batch.ecdsa_signature = EcdsaSignature(Some("stale".to_string()));
    batch.contributions[2].powers.g1[0].0[0] = 0xff;
    assert!(batch.add_entropy::<Mock, Spelling>(&entropy(16), &Identity::NoAttestation).is_err());
    assert_eq!(batch.contributions.len(), 3);
    assert_eq!(batch.ecdsa_signature, EcdsaSignature(Some("stale".to_string())));
}
