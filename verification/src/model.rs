//! The locker as a state machine over mathematical values: what a locker
//! holds, and what locking and unlocking make of it.

use vstd::prelude::*;
use crate::address::ResourceAddress;
use crate::asset::AssetContainerView;
use crate::error::{gate_refusal, LockerError};
use crate::event::{lock_event_of, unlock_event_of, LockerEventView};
use crate::receipt::{
    LockReceiptView, ReceiptIssuerView, ReceiptTokenView, RECEIPT_DESCRIPTION, RECEIPT_NAME,
};
use crate::time::Instant;
use crate::vault::vaults_after_take;

verus! {

/// What a locker holds.
#[verifier::ext_equal]
pub struct LockerView {
    /// The issuer of this locker's receipts, with the data of every receipt.
    pub issuer: ReceiptIssuerView,
    /// The identifier of the next lock.
    pub counter: u64,
    /// The asset container in escrow for each lock.
    pub vaults: Map<u64, AssetContainerView>,
    /// The tokens that were redeemed, in the order in which they came.
    pub used_lock_receipts: Seq<ReceiptTokenView>,
    /// The events published so far, oldest first.
    pub events: Seq<LockerEventView>,
}

impl LockerView {
    /// The locker right after its creation.
    pub open spec fn initial(
        owner_resource: ResourceAddress,
        info_url: Seq<char>,
        icon_url: Seq<char>,
        receipt_resource: ResourceAddress,
    ) -> LockerView {
        LockerView {
            issuer: ReceiptIssuerView {
                resource: receipt_resource,
                owner_resource,
                name: RECEIPT_NAME@,
                description: RECEIPT_DESCRIPTION@,
                info_url,
                icon_url,
                records: Map::empty(),
            },
            counter: 0,
            vaults: Map::empty(),
            used_lock_receipts: Seq::empty(),
            events: Seq::empty(),
        }
    }

    /// The receipt and the vault of lock `id` belong together: they are of
    /// one kind of asset; until the lock is redeemed the vault holds what the
    /// receipt describes; afterwards the vault is empty.
    pub open spec fn paired(self, id: u64) -> bool {
        let receipt = self.issuer.records[id];
        let vault = self.vaults[id];
        &&& vault.resource == receipt.resource
        &&& receipt.unlocked_at is None ==> vault.contents == receipt.locked_contents
        &&& receipt.unlocked_at is Some ==> vault.is_empty()
    }

    /// The token at position `k` of the sink is one of this locker's, and the
    /// lock it is bound to was redeemed.
    pub open spec fn spent(self, k: int) -> bool {
        let token = self.used_lock_receipts[k];
        &&& token.resource == self.issuer.resource
        &&& self.issuer.records.contains_key(token.local_id)
        &&& self.issuer.records[token.local_id].unlocked_at is Some
    }

    /// The invariant of a locker: the identifiers below the counter, and only
    /// they, have a vault and a receipt; each such pair belongs together; and
    /// the sink holds spent tokens only.
    pub open spec fn wf(self) -> bool {
        &&& forall|id: u64| #[trigger] self.vaults.contains_key(id) <==> id < self.counter
        &&& forall|id: u64| #[trigger] self.issuer.records.contains_key(id) <==> id < self.counter
        &&& forall|id: u64| id < self.counter ==> #[trigger] self.paired(id)
        &&& forall|k: int| 0 <= k < self.used_lock_receipts.len() ==> #[trigger] self.spent(k)
    }

    /// The data that `lock` writes on the receipt of a new lock.
    pub open spec fn new_receipt(
        item: AssetContainerView,
        unlockable_at: Option<Instant>,
        name: Seq<char>,
        description: Seq<char>,
        key_image_url: Seq<char>,
        current_time: Instant,
    ) -> LockReceiptView {
        LockReceiptView {
            name,
            description,
            key_image_url,
            resource: item.resource,
            locked_contents: item.contents,
            locked_at: current_time,
            unlockable_at,
            unlocked_at: None,
        }
    }

    /// The token that the next call of `lock` returns.
    pub open spec fn next_token(self) -> ReceiptTokenView {
        ReceiptTokenView { resource: self.issuer.resource, local_id: self.counter }
    }

    /// The locker after locking `item` at `current_time`.
    pub open spec fn lock(
        self,
        item: AssetContainerView,
        unlockable_at: Option<Instant>,
        name: Seq<char>,
        description: Seq<char>,
        key_image_url: Seq<char>,
        current_time: Instant,
    ) -> LockerView {
        let id = self.counter;
        let receipt = Self::new_receipt(
            item,
            unlockable_at,
            name,
            description,
            key_image_url,
            current_time,
        );
        LockerView {
            issuer: self.issuer.mint(id, receipt),
            counter: (id + 1) as u64,
            vaults: self.vaults.insert(id, item),
            used_lock_receipts: self.used_lock_receipts,
            events: self.events.push(LockerEventView::Lock(lock_event_of(id, receipt))),
        }
    }

    /// Whether every token of `batch` was minted by this locker's issuer.
    pub open spec fn authentic(self, batch: Seq<ReceiptTokenView>) -> bool {
        forall|k: int| 0 <= k < batch.len() ==> (#[trigger] batch[k]).resource == self.issuer.resource
    }

    /// Why `token`, taken alone, cannot be redeemed at `current_time`; `None`
    /// if it can.
    pub open spec fn refusal_of(self, token: ReceiptTokenView, current_time: Instant) -> Option<
        LockerError,
    > {
        if !self.issuer.records.contains_key(token.local_id) {
            Some(LockerError::InternalConsistency { lock_id: token.local_id })
        } else {
            gate_refusal(self.issuer.records[token.local_id].unlockable_at, current_time)
        }
    }

    /// The refusal of the first token among the first `n` of `batch` that
    /// cannot be redeemed at `current_time`; `None` if all of them can.
    pub open spec fn first_refusal(
        self,
        batch: Seq<ReceiptTokenView>,
        n: nat,
        current_time: Instant,
    ) -> Option<LockerError>
        decreases n,
    {
        if n == 0 {
            None
        } else {
            match self.first_refusal(batch, (n - 1) as nat, current_time) {
                Some(refusal) => Some(refusal),
                None => self.refusal_of(batch[n - 1], current_time),
            }
        }
    }

    /// Why `unlock` refuses `batch` at `current_time`; `None` if it does not.
    /// A token of another issuer anywhere in the batch comes before every
    /// other reason; after that the first token that cannot be redeemed
    /// decides.
    pub open spec fn unlock_refusal(
        self,
        batch: Seq<ReceiptTokenView>,
        current_time: Instant,
    ) -> Option<LockerError> {
        if !self.authentic(batch) {
            Some(LockerError::InvalidLockReceipts)
        } else {
            self.first_refusal(batch, batch.len(), current_time)
        }
    }

    /// The locker after redeeming the lock `id` at `current_time`: the vault
    /// is emptied, the receipt says when, and an event tells of it.
    pub open spec fn redeem(self, id: u64, current_time: Instant) -> LockerView {
        LockerView {
            issuer: self.issuer.update_unlocked_at(id, current_time),
            counter: self.counter,
            vaults: vaults_after_take(self.vaults, id),
            used_lock_receipts: self.used_lock_receipts,
            events: self.events.push(
                LockerEventView::Unlock(
                    unlock_event_of(id, self.issuer.records[id], current_time),
                ),
            ),
        }
    }

    /// The locker after redeeming the first `n` tokens of `batch`, one after
    /// the other, at `current_time`.
    pub open spec fn redeemed(
        self,
        batch: Seq<ReceiptTokenView>,
        n: nat,
        current_time: Instant,
    ) -> LockerView
        decreases n,
    {
        if n == 0 {
            self
        } else {
            self.redeemed(batch, (n - 1) as nat, current_time).redeem(
                batch[n - 1].local_id,
                current_time,
            )
        }
    }

    /// What comes out of the vault for the token at position `k` of `batch`:
    /// what the vault holds once the tokens before it were redeemed.
    pub open spec fn released(
        self,
        batch: Seq<ReceiptTokenView>,
        k: int,
        current_time: Instant,
    ) -> AssetContainerView {
        self.redeemed(batch, k as nat, current_time).vaults[batch[k].local_id]
    }

    /// The containers that `unlock` returns for `batch`, in the order of the
    /// batch.
    pub open spec fn released_all(
        self,
        batch: Seq<ReceiptTokenView>,
        current_time: Instant,
    ) -> Seq<AssetContainerView> {
        Seq::new(batch.len(), |k: int| self.released(batch, k, current_time))
    }

    /// The locker after unlocking `batch` at `current_time`: every token is
    /// redeemed in turn, then the whole batch goes into the sink.
    pub open spec fn unlock(self, batch: Seq<ReceiptTokenView>, current_time: Instant) -> LockerView {
        let after = self.redeemed(batch, batch.len(), current_time);
        LockerView { used_lock_receipts: after.used_lock_receipts + batch, ..after }
    }
}

} // verus!
