//! Timestamps and the time gate.

use vstd::prelude::*;

verus! {

/// A point in time: whole seconds since the Unix epoch.
#[derive(Clone, Copy, Debug, PartialEq, Eq, Hash, Structural)]
pub struct Instant {
    pub seconds_since_unix_epoch: i64,
}

impl Instant {
    pub fn new(seconds_since_unix_epoch: i64) -> (instant: Instant)
        ensures
            instant.seconds_since_unix_epoch == seconds_since_unix_epoch,
    {
        Instant { seconds_since_unix_epoch }
    }

    /// Whether `self` is not earlier than `other`.
    pub open spec fn at_or_after(self, other: Instant) -> bool {
        self.seconds_since_unix_epoch >= other.seconds_since_unix_epoch
    }

    /// Whether `self` is not earlier than `other`.
    pub fn is_at_or_after(&self, other: Instant) -> (reached: bool)
        ensures
            reached == self.at_or_after(other),
    {
        self.seconds_since_unix_epoch >= other.seconds_since_unix_epoch
    }

    /// The instant `seconds_to_add` seconds later (earlier, if negative), or
    /// `None` if that instant cannot be represented.
    pub fn add_seconds(&self, seconds_to_add: i64) -> (later: Option<Instant>)
        ensures
            match later {
                Some(instant) => instant.seconds_since_unix_epoch
                    == self.seconds_since_unix_epoch + seconds_to_add,
                None => {
                    ||| self.seconds_since_unix_epoch + seconds_to_add > i64::MAX
                    ||| self.seconds_since_unix_epoch + seconds_to_add < i64::MIN
                },
            },
    {
        match self.seconds_since_unix_epoch.checked_add(seconds_to_add) {
            Some(seconds) => Some(Instant { seconds_since_unix_epoch: seconds }),
            None => None,
        }
    }
}

/// The time gate: a lock opens once `now` has reached its unlock time. A lock
/// without an unlock time never opens.
pub open spec fn gate_open(unlockable_at: Option<Instant>, now: Instant) -> bool {
    match unlockable_at {
        Some(at) => now.at_or_after(at),
        None => false,
    }
}

/// Decides the time gate for one lock.
pub fn is_gate_open(unlockable_at: Option<Instant>, now: Instant) -> (open: bool)
    ensures
        open == gate_open(unlockable_at, now),
{
    match unlockable_at {
        Some(at) => now.is_at_or_after(at),
        None => false,
    }
}

} // verus!
