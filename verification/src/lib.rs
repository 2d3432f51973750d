//! Wallet derivation orchestrator for Ethereum-style hierarchical-deterministic
//! wallets.
//!
//! The library resolves named derivation-path conventions to concrete paths,
//! recovers or generates mnemonic phrases against a fixed priority list of
//! wordlists, validates the caller's partial inputs into a single request, and
//! composes one wallet output per request. All elliptic-curve, seed and
//! address arithmetic is delegated to a key algebra supplied by the caller
//! through the [`algebra::KeyAlgebra`] trait.

pub mod algebra;
pub mod composer;
pub mod error;
pub mod mnemonic;
pub mod options;
pub mod path;
pub mod strview;
pub mod wallet;
pub mod wordlist;

pub use error::WalletError;
pub use wordlist::Wordlist;
