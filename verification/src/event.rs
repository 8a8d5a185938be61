//! The events that a locker publishes.

use vstd::prelude::*;
use crate::address::ResourceAddress;
use crate::asset::{LockContents, LockContentsView};
use crate::receipt::{LockReceipt, LockReceiptView};
use crate::time::Instant;

verus! {

/// Published when an item is locked.
#[derive(Debug, PartialEq, Eq)]
pub struct EventLock {
    pub lock_id: u64,
    pub resource: ResourceAddress,
    pub locked_contents: LockContents,
    pub locked_at: Instant,
    pub unlockable_at: Option<Instant>,
}

/// Published when an item is unlocked.
#[derive(Debug, PartialEq, Eq)]
pub struct EventUnlock {
    pub lock_id: u64,
    pub resource: ResourceAddress,
    pub locked_contents: LockContents,
    pub locked_at: Instant,
    pub unlockable_at: Option<Instant>,
    pub unlocked_at: Instant,
}

/// An event of either kind.
#[derive(Debug, PartialEq, Eq)]
pub enum LockerEvent {
    Lock(EventLock),
    Unlock(EventUnlock),
}

/// What an [`EventLock`] stands for.
#[verifier::ext_equal]
pub struct EventLockView {
    pub lock_id: u64,
    pub resource: ResourceAddress,
    pub locked_contents: LockContentsView,
    pub locked_at: Instant,
    pub unlockable_at: Option<Instant>,
}

/// What an [`EventUnlock`] stands for.
#[verifier::ext_equal]
pub struct EventUnlockView {
    pub lock_id: u64,
    pub resource: ResourceAddress,
    pub locked_contents: LockContentsView,
    pub locked_at: Instant,
    pub unlockable_at: Option<Instant>,
    pub unlocked_at: Instant,
}

/// What a [`LockerEvent`] stands for.
#[verifier::ext_equal]
pub enum LockerEventView {
    Lock(EventLockView),
    Unlock(EventUnlockView),
}

impl View for EventLock {
    type V = EventLockView;

    open spec fn view(&self) -> EventLockView {
        EventLockView {
            lock_id: self.lock_id,
            resource: self.resource,
            locked_contents: self.locked_contents@,
            locked_at: self.locked_at,
            unlockable_at: self.unlockable_at,
        }
    }
}

impl View for EventUnlock {
    type V = EventUnlockView;

    open spec fn view(&self) -> EventUnlockView {
        EventUnlockView {
            lock_id: self.lock_id,
            resource: self.resource,
            locked_contents: self.locked_contents@,
            locked_at: self.locked_at,
            unlockable_at: self.unlockable_at,
            unlocked_at: self.unlocked_at,
        }
    }
}

impl View for LockerEvent {
    type V = LockerEventView;

    open spec fn view(&self) -> LockerEventView {
        match self {
            LockerEvent::Lock(event) => LockerEventView::Lock(event@),
            LockerEvent::Unlock(event) => LockerEventView::Unlock(event@),
        }
    }
}

/// The views of a sequence of events, in order.
pub open spec fn event_views(events: Seq<LockerEvent>) -> Seq<LockerEventView> {
    Seq::new(events.len(), |k: int| events[k]@)
}

/// The event that tells of the lock `lock_id`, whose receipt carries
/// `receipt`.
pub open spec fn lock_event_of(lock_id: u64, receipt: LockReceiptView) -> EventLockView {
    EventLockView {
        lock_id,
        resource: receipt.resource,
        locked_contents: receipt.locked_contents,
        locked_at: receipt.locked_at,
        unlockable_at: receipt.unlockable_at,
    }
}

/// The event that tells of the redemption, at `unlocked_at`, of the lock
/// `lock_id` whose receipt carries `receipt`.
pub open spec fn unlock_event_of(
    lock_id: u64,
    receipt: LockReceiptView,
    unlocked_at: Instant,
) -> EventUnlockView {
    EventUnlockView {
        lock_id,
        resource: receipt.resource,
        locked_contents: receipt.locked_contents,
        locked_at: receipt.locked_at,
        unlockable_at: receipt.unlockable_at,
        unlocked_at,
    }
}

impl EventLock {
    /// The event that tells of the lock `lock_id`, whose receipt carries
    /// `receipt`.
    pub fn of(lock_id: u64, receipt: &LockReceipt) -> (event: EventLock)
        ensures
            event@ == lock_event_of(lock_id, receipt@),
    {
        EventLock {
            lock_id,
            resource: receipt.resource,
            locked_contents: receipt.locked_contents.clone(),
            locked_at: receipt.locked_at,
            unlockable_at: receipt.unlockable_at,
        }
    }
}

impl EventUnlock {
    /// The event that tells of the redemption, at `unlocked_at`, of the lock
    /// `lock_id`, whose receipt carries `receipt`.
    pub fn of(lock_id: u64, receipt: &LockReceipt, unlocked_at: Instant) -> (event: EventUnlock)
        ensures
            event@ == unlock_event_of(lock_id, receipt@, unlocked_at),
    {
        EventUnlock {
            lock_id,
            resource: receipt.resource,
            locked_contents: receipt.locked_contents.clone(),
            locked_at: receipt.locked_at,
            unlockable_at: receipt.unlockable_at,
            unlocked_at,
        }
    }
}

impl Clone for EventLock {
    fn clone(&self) -> (copy: EventLock)
        ensures
            copy@ == self@,
    {
        EventLock {
            lock_id: self.lock_id,
            resource: self.resource,
            locked_contents: self.locked_contents.clone(),
            locked_at: self.locked_at,
            unlockable_at: self.unlockable_at,
        }
    }
}

impl Clone for EventUnlock {
    fn clone(&self) -> (copy: EventUnlock)
        ensures
            copy@ == self@,
    {
        EventUnlock {
            lock_id: self.lock_id,
            resource: self.resource,
            locked_contents: self.locked_contents.clone(),
            locked_at: self.locked_at,
            unlockable_at: self.unlockable_at,
            unlocked_at: self.unlocked_at,
        }
    }
}

impl Clone for LockerEvent {
    fn clone(&self) -> (copy: LockerEvent)
        ensures
            copy@ == self@,
    {
        match self {
            LockerEvent::Lock(event) => LockerEvent::Lock(event.clone()),
            LockerEvent::Unlock(event) => LockerEvent::Unlock(event.clone()),
        }
    }
}

} // verus!
