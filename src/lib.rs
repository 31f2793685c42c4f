//! A registry of ownable site records with a marketplace: records are created,
//! modified, burned, listed for sale, transferred and bought.
//!
//! `machine` states each operation as a transition of an abstract state,
//! `pallet` implements the operations on executable storage and proves that
//! they follow those transitions, and `laws` proves properties that relate
//! several operations.

pub mod laws;
pub mod machine;
pub mod pallet;
pub mod types;

pub use pallet::Pallet;
pub use types::{AccountId, Balance, Error, Event, Site, SiteIndex, TransferError};
