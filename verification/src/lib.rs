//! Verified state machines of a small chain runtime: a ledger of unique
//! collectible assets with an escrow marketplace, and a registry of claims.

pub mod kitties;
pub mod poe;
