//! Contribution processing for a batch of powers-of-tau sub-ceremonies.
//!
//! A participant's master entropy seeds a ChaCha20 generator; one secret is
//! drawn per sub-ceremony, in index order, and a pluggable [`engine::Engine`]
//! turns each into a tau and applies it to that sub-ceremony. Failures are
//! reported with the index of the item they came from. Once every item is
//! updated, a [`signer::Signer`] signs the receipt (the public commitments in
//! item order) with the identity, and that signature replaces the batch's
//! old one. A composite engine cross-checks two backends.
pub mod batch_contribution;
pub mod contribution;
pub mod engine;
pub mod error;
pub mod group;
pub mod laws;
pub mod secret;
pub mod signer;
