//! The locker: locks asset containers against receipts and unlocks them again.

use vstd::prelude::*;
use crate::address::ResourceAddress;
use crate::allocator::IdentifierAllocator;
use crate::asset::{AssetContainer, AssetContainerView, LockContents};
use crate::error::{check_gate, LockerError, RejectedUnlock};
use crate::event::{event_views, EventLock, EventUnlock, LockerEvent};
use crate::lemmas::{
    lemma_first_refusal_stays, lemma_lock_keeps_wf, lemma_redeemed_keeps_wf, lemma_unlock_keeps_wf,
};
use crate::model::LockerView;
use crate::receipt::{token_views, LockReceipt, ReceiptIssuer, ReceiptToken};
use crate::time::Instant;
use crate::vault::VaultRegistry;

verus! {

/// The views of a sequence of asset containers, in order.
pub open spec fn container_views(containers: Seq<AssetContainer>) -> Seq<AssetContainerView> {
    Seq::new(containers.len(), |k: int| containers[k]@)
}

/// A time-locked custody vault. It takes asset containers into escrow, one
/// vault and one receipt per lock, and gives each back against its receipt
/// once the unlock time on the receipt has been reached.
pub struct Locker {
    lock_receipt_manager: ReceiptIssuer,
    counter: IdentifierAllocator,
    vaults: VaultRegistry,
    used_lock_receipts: Vec<ReceiptToken>,
    events: Vec<LockerEvent>,
}

impl View for Locker {
    type V = LockerView;

    closed spec fn view(&self) -> LockerView {
        LockerView {
            issuer: self.lock_receipt_manager@,
            counter: self.counter@,
            vaults: self.vaults@,
            used_lock_receipts: token_views(self.used_lock_receipts@),
            events: event_views(self.events@),
        }
    }
}

impl Locker {
    /// Creates a locker that holds nothing. Its receipts are tokens of the
    /// kind `receipt_resource`; `owner_resource` names who may later change
    /// the display metadata of the receipts, of which `info_url` and
    /// `icon_url` are part.
    pub fn new(
        owner_resource: ResourceAddress,
        info_url: String,
        icon_url: String,
        receipt_resource: ResourceAddress,
    ) -> (locker: Locker)
        ensures
            locker@ == LockerView::initial(owner_resource, info_url@, icon_url@, receipt_resource),
            locker@.wf(),
    {
        let locker = Locker {
            lock_receipt_manager: ReceiptIssuer::new(
                receipt_resource,
                owner_resource,
                info_url,
                icon_url,
            ),
            counter: IdentifierAllocator::new(),
            vaults: VaultRegistry::new(),
            used_lock_receipts: Vec::new(),
            events: Vec::new(),
        };
        assert(locker@ =~= LockerView::initial(
            owner_resource,
            info_url@,
            icon_url@,
            receipt_resource,
        ));
        locker
    }

    /// Locks `item` at `current_time` and returns the receipt token of the
    /// new lock. The lock can be unlocked from `unlockable_at` on, and never
    /// if that is `None`; the unlock time is taken as it is given, also where
    /// it lies before `current_time`. The locker records an `EventLock`.
    ///
    /// The counter of a locker does not wrap around: a locker that has made
    /// `u64::MAX` locks makes no more.
    pub fn lock(
        &mut self,
        item: AssetContainer,
        unlockable_at: Option<Instant>,
        name: String,
        description: String,
        key_image_url: String,
        current_time: Instant,
    ) -> (receipt: ReceiptToken)
        requires
            old(self)@.wf(),
            old(self)@.counter < u64::MAX,
        ensures
            receipt@ == old(self)@.next_token(),
            final(self)@ == old(self)@.lock(
                item@,
                unlockable_at,
                name@,
                description@,
                key_image_url@,
                current_time,
            ),
            final(self)@.wf(),
    {
        let ghost before = self@;
        let id = self.counter.next();
        assert(!before.vaults.contains_key(id));
        assert(!before.issuer.records.contains_key(id));
        let resource = item.resource_address();
        let locked_contents = item.classify();
        self.vaults.insert(id, item);
        let data = LockReceipt::new(
            name,
            description,
            key_image_url,
            resource,
            locked_contents,
            current_time,
            unlockable_at,
        );
        self.events.push(LockerEvent::Lock(EventLock::of(id, &data)));
        let receipt = self.lock_receipt_manager.mint(id, data);
        proof {
            let after = before.lock(
                item@,
                unlockable_at,
                name@,
                description@,
                key_image_url@,
                current_time,
            );
            assert(self@.events =~= after.events);
            assert(self@ =~= after);
            lemma_lock_keeps_wf(
                before,
                item@,
                unlockable_at,
                name@,
                description@,
                key_image_url@,
                current_time,
            );
        }
        receipt
    }

    /// Whether every token of `lock_receipts` was minted by this locker.
    pub fn all_authentic(&self, lock_receipts: &Vec<ReceiptToken>) -> (authentic: bool)
        ensures
            authentic == self@.authentic(token_views(lock_receipts@)),
    {
        let ghost batch = token_views(lock_receipts@);
        let mut at: usize = 0;
        while at < lock_receipts.len()
            invariant
                at <= lock_receipts.len(),
                batch == token_views(lock_receipts@),
                forall|k: int| 0 <= k < at ==> (#[trigger] batch[k]).resource == self@.issuer.resource,
            decreases lock_receipts.len() - at,
        {
            if !self.lock_receipt_manager.is_own(&lock_receipts[at]) {
                assert(batch[at as int].resource != self@.issuer.resource);
                return false;
            }
            at += 1;
        }
        true
    }

    /// The refusal of the first token of `lock_receipts` that cannot be
    /// redeemed at `current_time`, or `None` if all of them can.
    fn first_refusal(&self, lock_receipts: &Vec<ReceiptToken>, current_time: Instant) -> (refusal:
        Option<LockerError>)
        requires
            self@.authentic(token_views(lock_receipts@)),
        ensures
            refusal == self@.first_refusal(
                token_views(lock_receipts@),
                lock_receipts@.len(),
                current_time,
            ),
    {
        let ghost batch = token_views(lock_receipts@);
        let mut at: usize = 0;
        while at < lock_receipts.len()
            invariant
                at <= lock_receipts.len(),
                batch == token_views(lock_receipts@),
                self@.authentic(batch),
                self@.first_refusal(batch, at as nat, current_time) is None,
            decreases lock_receipts.len() - at,
        {
            let token = &lock_receipts[at];
            assert(batch[at as int].resource == self@.issuer.resource);
            let id = ReceiptIssuer::identifier_of(token);
            let found = match self.lock_receipt_manager.read_data(token) {
                None => Some(LockerError::InternalConsistency { lock_id: id }),
                Some(data) => check_gate(data.unlockable_at, current_time),
            };
            assert(found == self@.refusal_of(batch[at as int], current_time));
            if found.is_some() {
                proof {
                    lemma_first_refusal_stays(
                        self@,
                        batch,
                        (at + 1) as nat,
                        batch.len(),
                        current_time,
                    );
                }
                return found;
            }
            at += 1;
        }
        None
    }

    /// Why `unlock` would refuse `lock_receipts` at `current_time`, or `None`
    /// if it would not.
    pub fn refusal(&self, lock_receipts: &Vec<ReceiptToken>, current_time: Instant) -> (refusal:
        Option<LockerError>)
        ensures
            refusal == self@.unlock_refusal(token_views(lock_receipts@), current_time),
    {
        if !self.all_authentic(lock_receipts) {
            Some(LockerError::InvalidLockReceipts)
        } else {
            self.first_refusal(lock_receipts, current_time)
        }
    }

    /// Redeems the lock `id` at `current_time`: empties its vault, writes the
    /// time on its receipt and records an `EventUnlock`. Returns what the
    /// vault held.
    fn redeem(&mut self, id: u64, current_time: Instant) -> (item: AssetContainer)
        requires
            old(self)@.wf(),
            old(self)@.issuer.records.contains_key(id),
        ensures
            final(self)@ == old(self)@.redeem(id, current_time),
            item@ == old(self)@.vaults[id],
    {
        let ghost before = self@;
        assert(before.vaults.contains_key(id));
        let data = self.lock_receipt_manager.data_of(id).unwrap();
        let item = self.vaults.take_all(id).unwrap();
        self.lock_receipt_manager.update_unlocked_at(id, current_time);
        self.events.push(LockerEvent::Unlock(EventUnlock::of(id, &data, current_time)));
        proof {
            assert(self@.events =~= before.redeem(id, current_time).events);
            assert(self@ =~= before.redeem(id, current_time));
        }
        item
    }

    /// Takes one or more lock receipts and returns the items they unlock, in
    /// the order of the receipts.
    ///
    /// The batch is refused as a whole, and nothing changes, if a token in it
    /// was not minted by this locker, or if a lock in it cannot be unlocked at
    /// `current_time`. Otherwise every vault is emptied, every receipt gets
    /// `current_time` as its unlock time, an `EventUnlock` is recorded for
    /// each, and the tokens go into the sink of used receipts.
    pub fn unlock(&mut self, lock_receipts: Vec<ReceiptToken>, current_time: Instant) -> (result:
        Result<Vec<AssetContainer>, RejectedUnlock>)
        requires
            old(self)@.wf(),
        ensures
            final(self)@.wf(),
            match result {
                Ok(items) => {
                    &&& old(self)@.unlock_refusal(token_views(lock_receipts@), current_time) is None
                    &&& final(self)@ == old(self)@.unlock(
                        token_views(lock_receipts@),
                        current_time,
                    )
                    &&& container_views(items@) == old(self)@.released_all(
                        token_views(lock_receipts@),
                        current_time,
                    )
                },
                Err(rejected) => {
                    &&& old(self)@.unlock_refusal(token_views(lock_receipts@), current_time)
                        == Some(rejected.reason)
                    &&& rejected.lock_receipts == lock_receipts
                    &&& final(self)@ == old(self)@
                },
            },
    {
        let ghost before = self@;
        let ghost batch = token_views(lock_receipts@);
        match self.refusal(&lock_receipts, current_time) {
            Some(reason) => {
                return Err(RejectedUnlock { reason, lock_receipts });
            },
            None => {},
        }
        let mut items: Vec<AssetContainer> = Vec::new();
        let mut at: usize = 0;
        while at < lock_receipts.len()
            invariant
                at <= lock_receipts.len(),
                batch == token_views(lock_receipts@),
                before.wf(),
                before.unlock_refusal(batch, current_time) is None,
                self@ == before.redeemed(batch, at as nat, current_time),
                items.len() == at,
                forall|k: int|
                    0 <= k < at ==> (#[trigger] items[k])@ == before.released(
                        batch,
                        k,
                        current_time,
                    ),
            decreases lock_receipts.len() - at,
        {
            let id = lock_receipts[at].local_id();
            proof {
                lemma_redeemed_keeps_wf(before, batch, at as nat, current_time);
                if !before.issuer.records.contains_key(id) {
                    assert(before.first_refusal(batch, (at + 1) as nat, current_time) is Some);
                    lemma_first_refusal_stays(
                        before,
                        batch,
                        (at + 1) as nat,
                        batch.len(),
                        current_time,
                    );
                }
            }
            let item = self.redeem(id, current_time);
            items.push(item);
            at += 1;
        }
        let mut spent = lock_receipts;
        self.used_lock_receipts.append(&mut spent);
        proof {
            let after = before.unlock(batch, current_time);
            assert(self@.used_lock_receipts =~= after.used_lock_receipts);
            assert(self@ =~= after);
            assert(container_views(items@) =~= before.released_all(batch, current_time));
            lemma_unlock_keeps_wf(before, batch, current_time);
        }
        Ok(items)
    }

    /// The issuer of this locker's receipts.
    pub fn lock_receipt_manager(&self) -> (issuer: &ReceiptIssuer)
        ensures
            issuer@ == self@.issuer,
    {
        &self.lock_receipt_manager
    }

    /// The kind of token that this locker gives as receipts.
    pub fn receipt_resource(&self) -> (resource: ResourceAddress)
        ensures
            resource == self@.issuer.resource,
    {
        self.lock_receipt_manager.resource_address()
    }

    /// The number of locks made so far, which is the identifier of the next.
    pub fn lock_count(&self) -> (count: u64)
        ensures
            count == self@.counter,
    {
        self.counter.peek()
    }

    /// The data of the receipt of lock `id`, if there is such a lock.
    pub fn receipt_data(&self, id: u64) -> (data: Option<LockReceipt>)
        ensures
            data is Some <==> self@.issuer.records.contains_key(id),
            data matches Some(d) ==> d@ == self@.issuer.records[id],
    {
        self.lock_receipt_manager.data_of(id)
    }

    /// What the vault of lock `id` holds right now, if there is such a lock.
    pub fn vault_contents(&self, id: u64) -> (contents: Option<LockContents>)
        ensures
            contents is Some <==> self@.vaults.contains_key(id),
            contents matches Some(c) ==> c@ == self@.vaults[id].contents,
    {
        self.vaults.contents_of(id)
    }

    /// The events recorded so far, oldest first.
    pub fn events(&self) -> (events: &Vec<LockerEvent>)
        ensures
            event_views(events@) == self@.events,
    {
        &self.events
    }

    /// The tokens redeemed so far, in the order in which they came.
    pub fn used_lock_receipts(&self) -> (tokens: &Vec<ReceiptToken>)
        ensures
            token_views(tokens@) == self@.used_lock_receipts,
    {
        &self.used_lock_receipts
    }
}

} // verus!
