//! Destination-chain leg of a cross-chain atomic swap.
//!
//! An escrow custodies a fungible-asset amount plus a native safety deposit
//! and releases them only to a caller who proves knowledge of a secret
//! matching a recorded commitment, inside a time window derived from a packed
//! timelock configuration.  Orders may be split into sequential partial fills
//! proven by Merkle-tree membership, and a factory derives deterministic
//! per-order instance identities and tracks their deployment lifecycle.

pub mod digest;
pub mod errors;
pub mod escrow;
pub mod factory;
pub mod fill;
pub mod laws;
pub mod merkle;
pub mod stage;
pub mod transfer;
