//! Account addressing and transaction authentication core of a ledger.
//!
//! The crate models the identity and authentication rules of a
//! blockchain-style ledger: fixed-length account addresses with strict and
//! relaxed textual codecs, scheme-tagged authentication-key derivation,
//! signature authenticators, and the canonical binary envelope of signed
//! transactions, including the signing message and the committed hash.

pub mod account_address;
pub mod authenticator;
pub mod chain_id;
pub mod codec;
pub mod ed25519;
pub mod hash;
pub mod hex_text;
pub mod transaction;
