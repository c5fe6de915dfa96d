//! A verified crowdfunding ledger: campaigns are initiated under a unique
//! project identifier, funded by contributors whose value moves into a pot
//! account, settled automatically once the funding target is reached, and
//! stoppable early by the campaign owner, who then receives the pot.
//!
//! Every transition is atomic: all business rules are checked, and the
//! required value transfers are known to go through, before any state is
//! touched, so a failed call leaves the ledger exactly as it was.
//!
//! The host's account system is carried along as plain data in [`balances`],
//! with the documented keep-alive transfer rule, so the whole transition,
//! value movement included, is verified; how records reach a persistent
//! store (for instance as SCALE-encoded bytes) is left to the embedding.

pub mod balances;
pub mod laws;
pub mod pallet;
pub mod types;

pub use balances::Balances;
pub use pallet::Pallet;
pub use types::{AccountId, Balance, Error, Event, ProjectId, ProjectInfo, TransferError};
