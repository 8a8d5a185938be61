//! A time-locked custody vault.
//!
//! A [`Locker`] takes an asset container into escrow, hands out one receipt
//! token for it, and releases the container again to whoever presents the
//! receipt once the unlock time written on it has been reached.
//!
//! The state that a locker holds, and what locking and unlocking make of it,
//! are defined over mathematical values in [`model`]; [`laws`] holds what is
//! proved of every locker.

pub mod address;
pub mod allocator;
pub mod amount;
pub mod asset;
pub mod error;
pub mod event;
pub mod laws;
pub mod lemmas;
pub mod locker;
pub mod model;
pub mod receipt;
pub mod time;
pub mod vault;

pub use address::ResourceAddress;
pub use allocator::IdentifierAllocator;
pub use amount::Decimal;
pub use asset::{AssetContainer, LockContents};
pub use error::{LockerError, RejectedUnlock};
pub use event::{EventLock, EventUnlock, LockerEvent};
pub use locker::Locker;
pub use receipt::{LockReceipt, ReceiptIssuer, ReceiptToken};
pub use time::Instant;
pub use vault::VaultRegistry;
