//! The ways in which a locker refuses to unlock.

use vstd::prelude::*;
use vstd::string::*;
use crate::receipt::ReceiptToken;
use crate::time::{gate_open, is_gate_open, Instant};

verus! {

/// Why a locker refuses a batch of lock receipts.
#[derive(Clone, Copy, Debug, PartialEq, Eq)]
pub enum LockerError {
    /// A token in the batch was not minted by this locker.
    InvalidLockReceipts,
    /// A lock in the batch has not reached its unlock time, or has none.
    NotYetUnlockable { unlockable_at: Option<Instant> },
    /// A token in the batch is bound to a lock of which this locker holds
    /// neither receipt nor vault.
    InternalConsistency { lock_id: u64 },
}

/// Why a lock with the unlock time `unlockable_at` cannot be unlocked at
/// `current_time`; `None` if it can.
pub open spec fn gate_refusal(unlockable_at: Option<Instant>, current_time: Instant) -> Option<
    LockerError,
> {
    if gate_open(unlockable_at, current_time) {
        None
    } else {
        Some(LockerError::NotYetUnlockable { unlockable_at })
    }
}

/// Holds a lock with the unlock time `unlockable_at` against the time gate at
/// `current_time`.
pub fn check_gate(unlockable_at: Option<Instant>, current_time: Instant) -> (refusal: Option<
    LockerError,
>)
    ensures
        refusal == gate_refusal(unlockable_at, current_time),
{
    if is_gate_open(unlockable_at, current_time) {
        None
    } else {
        Some(LockerError::NotYetUnlockable { unlockable_at })
    }
}

/// A refused batch: the reason, and the tokens, which go back to the caller
/// in the order in which they came.
#[derive(Debug, PartialEq, Eq)]
pub struct RejectedUnlock {
    pub reason: LockerError,
    pub lock_receipts: Vec<ReceiptToken>,
}

/// The text that `scrypto` prints for an optional instant, given by its
/// seconds since the Unix epoch, when asked for the `Debug` form.
pub uninterp spec fn unlock_time_text(seconds: Option<i64>) -> Seq<char>;

/// The seconds of an optional instant.
pub open spec fn seconds_of(instant: Option<Instant>) -> Option<i64> {
    match instant {
        Some(at) => Some(at.seconds_since_unix_epoch),
        None => None,
    }
}

/// Calls the `Debug` formatting of `Option<scrypto::prelude::Instant>`, on
/// the instant that `scrypto::prelude::Instant::new` makes of the seconds.
/// The contract gives the text the name `unlock_time_text` and claims no more
/// than that equal seconds give equal texts.
#[verifier::external_body]
fn format_unlock_time(seconds: Option<i64>) -> (text: String)
    ensures
        text@ == unlock_time_text(seconds),
{
    format!("{:?}", seconds.map(scrypto::prelude::Instant::new))
}

/// The message for a lock that cannot be unlocked yet, where `unlock_time` is
/// the printed form of its unlock time.
pub open spec fn not_yet_unlockable_text(unlock_time: Seq<char>) -> Seq<char> {
    "Item can not yet be unlocked, unlockable at: "@ + unlock_time
}

/// Builds the message for a lock that cannot be unlocked yet from the printed
/// form of its unlock time.
pub fn not_yet_unlockable_message(unlock_time: &str) -> (message: String)
    ensures
        message@ == not_yet_unlockable_text(unlock_time@),
{
    let mut message = String::from_str("Item can not yet be unlocked, unlockable at: ");
    message.append(unlock_time);
    message
}

impl LockerError {
    /// The message that goes with the error.
    pub open spec fn message_text(self) -> Seq<char> {
        match self {
            LockerError::InvalidLockReceipts => "Invalid lock receipts."@,
            LockerError::NotYetUnlockable { unlockable_at } => not_yet_unlockable_text(
                unlock_time_text(seconds_of(unlockable_at)),
            ),
            LockerError::InternalConsistency { lock_id } => "Lock receipt without a vault."@,
        }
    }

    /// The message that goes with the error. For a lock that cannot be
    /// unlocked yet it ends with the unlock time, or with the word for none.
    pub fn message(&self) -> (message: String)
        ensures
            message@ == self.message_text(),
    {
        match self {
            LockerError::InvalidLockReceipts => String::from_str("Invalid lock receipts."),
            LockerError::NotYetUnlockable { unlockable_at } => {
                let seconds = match unlockable_at {
                    Some(at) => Some(at.seconds_since_unix_epoch),
                    None => None,
                };
                let unlock_time = format_unlock_time(seconds);
                not_yet_unlockable_message(unlock_time.as_str())
            },
            LockerError::InternalConsistency { lock_id: _ } => String::from_str(
                "Lock receipt without a vault.",
            ),
        }
    }
}

} // verus!
