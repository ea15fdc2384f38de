//! Ownership and escrow marketplace of unique assets ("kitties").
//!
//! Every asset carries a 16-byte genome. An asset is minted into the custody
//! of the pallet's own account against a reserved deposit, bought out of
//! escrow by its creator, and from then on transferred, sold back or bred
//! with another asset.

pub mod config;
pub mod genome;
pub mod pallet;
pub mod runtime;

pub use config::AccountData;
pub use config::AccountId;
pub use config::Balance;
pub use config::Config;
pub use config::KittyIndex;
pub use config::LedgerError;
pub use genome::Kitty;
pub use pallet::Error;
pub use pallet::Event;
pub use pallet::Pallet;
pub use runtime::Runtime;
