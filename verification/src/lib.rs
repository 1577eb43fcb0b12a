//! Deterministic instruction-validation and state-transition core for a
//! charity-donation ledger: donors pay into a designated wallet in exchange
//! for fungible reward tokens, and an authority may register descriptors and
//! mint a bounded-supply collection of unique reward assets.

pub mod authority;
pub mod bank;
pub mod effects;
pub mod errors;
pub mod keys;
pub mod laws;
pub mod records;
pub mod runtime;
pub mod state;
pub mod validate;

pub use keys::Pubkey;
