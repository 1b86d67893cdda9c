//! Secret byte buffers and the seeded generator that taus are drawn from.
use rand::Rng;
use rand::SeedableRng;
use secrecy::ExposeSecret;
use vstd::prelude::*;

verus! {

/// Secret bytes, wiped from memory when dropped. Verus refuses the
/// declaration of `secrecy::Secret` (its bound is an outside trait), so the
/// wrapper is held in a field that Verus does not read.
#[verifier::external_body]
pub struct SecretBytes {
    inner: secrecy::Secret<[u8; 32]>,
}

/// The ChaCha20 generator of rand_chacha, carried as an opaque value; its
/// state is named by `chacha_seed`, `chacha_stream` and `chacha_word_pos`.
#[verifier::external_type_specification]
#[verifier::external_body]
pub struct ExChaCha20Rng(rand_chacha::ChaCha20Rng);

/// A participant's master secret for one contribution.
pub type Entropy = SecretBytes;

/// A secret scalar, one per sub-ceremony, in its 32-byte encoding.
pub type Tau = SecretBytes;

/// The bytes that a secret wrapper holds.
pub uninterp spec fn secret_bytes(s: SecretBytes) -> Seq<u8>;

/// The seed that a generator was keyed with.
pub uninterp spec fn chacha_seed(r: rand_chacha::ChaCha20Rng) -> Seq<u8>;

/// The generator's stream number.
pub uninterp spec fn chacha_stream(r: rand_chacha::ChaCha20Rng) -> u64;

/// The generator's offset in its output stream, in 32-bit words.
pub uninterp spec fn chacha_word_pos(r: rand_chacha::ChaCha20Rng) -> nat;

/// The 32 bytes that a generator keyed with `seed` yields for one draw of
/// `[u8; 32]` starting at word offset `word_pos` of stream zero: the low byte
/// of each of the 32 words from there on. ChaCha20 makes it a function of the
/// seed and the offset alone.
pub uninterp spec fn chacha_draw(seed: Seq<u8>, word_pos: nat) -> Seq<u8>;

/// The generator's word offset is a 68-bit number: it wraps at 2^68.
pub const WORD_POS_PERIOD: u128 = 0x100000000000000000u128;

/// Words consumed by one draw of `[u8; 32]`: one `u32` per byte.
pub const WORDS_PER_DRAW: u128 = 32u128;

/// Relies on secrecy::Secret::new: the wrapper holds exactly the given bytes.
#[verifier::external_body]
fn wrap_secret(bytes: [u8; 32]) -> (r: SecretBytes)
    ensures
        secret_bytes(r) == bytes@,
{
    SecretBytes { inner: secrecy::Secret::new(bytes) }
}

/// Relies on secrecy::ExposeSecret::expose_secret: it hands out the held bytes.
#[verifier::external_body]
fn expose_bytes(s: &SecretBytes) -> (r: &[u8; 32])
    ensures
        r@ == secret_bytes(*s),
{
    s.inner.expose_secret()
}

impl SecretBytes {
    /// Takes ownership of secret bytes.
    pub fn new(bytes: [u8; 32]) -> (r: SecretBytes)
        ensures
            secret_bytes(r) == bytes@,
    {
        wrap_secret(bytes)
    }

    /// The held bytes, for a backend that turns them into a scalar.
    pub fn expose(&self) -> (r: &[u8; 32])
        ensures
            r@ == secret_bytes(*self),
    {
        expose_bytes(self)
    }
}

/// Relies on rand_chacha::ChaCha20Rng::from_seed: the generator is keyed with
/// `seed` and starts on stream zero at word offset zero.
#[verifier::external_body]
pub(crate) fn chacha_from_seed(seed: [u8; 32]) -> (r: rand_chacha::ChaCha20Rng)
    ensures
        chacha_seed(r) == seed@,
        chacha_stream(r) == 0,
        chacha_word_pos(r) == 0,
{
    rand_chacha::ChaCha20Rng::from_seed(seed)
}

/// Relies on rand::Rng::gen for `[u8; 32]` on ChaCha20Rng: each byte is drawn
/// from one `u32` of the stream, so a draw reads 32 words from the current
/// offset and moves the offset on by 32; the key and the stream stay.
#[verifier::external_body]
pub(crate) fn chacha_gen(rng: &mut rand_chacha::ChaCha20Rng) -> (r: [u8; 32])
    requires
        chacha_stream(*old(rng)) == 0,
    ensures
        r@ == chacha_draw(chacha_seed(*old(rng)), chacha_word_pos(*old(rng))),
        chacha_seed(*final(rng)) == chacha_seed(*old(rng)),
        chacha_stream(*final(rng)) == 0,
        chacha_word_pos(*final(rng)) == (chacha_word_pos(*old(rng)) + WORDS_PER_DRAW)
            % (WORD_POS_PERIOD as int),
{
    rng.gen::<[u8; 32]>()
}

} // verus!
