//! What holds of every locker, proved of the state machine in `model`.

use vstd::prelude::*;
use crate::asset::AssetContainerView;
use crate::error::LockerError;
use crate::lemmas::{lemma_first_refusal_stays, lemma_redeemed_keeps_wf};
use crate::model::LockerView;
use crate::receipt::ReceiptTokenView;
use crate::time::Instant;

verus! {

/// Whether one of the first `n` tokens of `batch` is bound to the lock `id`.
pub open spec fn occurs_before(batch: Seq<ReceiptTokenView>, n: int, id: u64) -> bool {
    exists|j: int| 0 <= j < n && (#[trigger] batch[j]).local_id == id
}

/// Redeeming the first `n` tokens of a batch empties the vaults of the locks
/// they are bound to and leaves every other vault as it was.
pub proof fn law_redeemed_vaults(
    locker: LockerView,
    batch: Seq<ReceiptTokenView>,
    n: nat,
    current_time: Instant,
    id: u64,
)
    requires
        n <= batch.len(),
    ensures
        locker.redeemed(batch, n, current_time).vaults.contains_key(id)
            == locker.vaults.contains_key(id),
        locker.redeemed(batch, n, current_time).vaults[id] == if locker.vaults.contains_key(id)
            && occurs_before(batch, n as int, id) {
            locker.vaults[id].emptied()
        } else {
            locker.vaults[id]
        },
    decreases n,
{
    if n > 0 {
        law_redeemed_vaults(locker, batch, (n - 1) as nat, current_time, id);
        if batch[n - 1].local_id == id {
            assert(occurs_before(batch, n as int, id));
            assert(locker.vaults[id].emptied().emptied() == locker.vaults[id].emptied());
        } else if occurs_before(batch, n as int, id) {
            let j = choose|j: int| 0 <= j < n && (#[trigger] batch[j]).local_id == id;
            assert(0 <= j < n - 1 && batch[j].local_id == id);
        } else {
            assert forall|j: int| 0 <= j < n - 1 implies (#[trigger] batch[j]).local_id != id by {
                if batch[j].local_id == id {
                    assert(0 <= j < n && batch[j].local_id == id);
                }
            }
        }
    }
}

/// Redeeming the first `n` tokens of a batch writes the time of redemption on
/// the receipts of the locks they are bound to, and changes nothing else on
/// any receipt: there are the same receipts as before, and each has kept
/// every field that was fixed when it was minted.
pub proof fn law_redeemed_receipts(
    locker: LockerView,
    batch: Seq<ReceiptTokenView>,
    n: nat,
    current_time: Instant,
    id: u64,
)
    requires
        n <= batch.len(),
    ensures
        locker.redeemed(batch, n, current_time).issuer.records.contains_key(id)
            == locker.issuer.records.contains_key(id),
        locker.issuer.records.contains_key(id) ==> locker.redeemed(
            batch,
            n,
            current_time,
        ).issuer.records[id] == locker.issuer.records[id].with_unlocked_at(
            if occurs_before(batch, n as int, id) {
                Some(current_time)
            } else {
                locker.issuer.records[id].unlocked_at
            },
        ),
    decreases n,
{
    if n > 0 {
        law_redeemed_receipts(locker, batch, (n - 1) as nat, current_time, id);
        if batch[n - 1].local_id == id {
            assert(occurs_before(batch, n as int, id));
        } else if occurs_before(batch, n as int, id) {
            let j = choose|j: int| 0 <= j < n && (#[trigger] batch[j]).local_id == id;
            assert(0 <= j < n - 1 && batch[j].local_id == id);
        } else {
            assert forall|j: int| 0 <= j < n - 1 implies (#[trigger] batch[j]).local_id != id by {
                if batch[j].local_id == id {
                    assert(0 <= j < n && batch[j].local_id == id);
                }
            }
        }
    }
}

/// A batch that is not refused holds only tokens of locks that the locker
/// knows and whose unlock time has been reached.
pub proof fn law_accepted_batch_is_eligible(
    locker: LockerView,
    batch: Seq<ReceiptTokenView>,
    current_time: Instant,
    k: int,
)
    requires
        locker.unlock_refusal(batch, current_time) is None,
        0 <= k < batch.len(),
    ensures
        batch[k].resource == locker.issuer.resource,
        locker.refusal_of(batch[k], current_time) is None,
{
    if locker.refusal_of(batch[k], current_time) is Some {
        assert(locker.first_refusal(batch, (k + 1) as nat, current_time) is Some);
        lemma_first_refusal_stays(locker, batch, (k + 1) as nat, batch.len(), current_time);
    }
}

/// Round trip: what is locked comes back. The receipt of a new lock,
/// presented alone at a time not before its unlock time, is accepted, and
/// the one container returned is the container that was locked.
pub proof fn law_lock_then_unlock_returns_item(
    locker: LockerView,
    item: AssetContainerView,
    unlockable_at: Instant,
    name: Seq<char>,
    description: Seq<char>,
    key_image_url: Seq<char>,
    locked_at: Instant,
    unlocked_at: Instant,
)
    requires
        locker.wf(),
        locker.counter < u64::MAX,
        unlocked_at.at_or_after(unlockable_at),
    ensures
        ({
            let locked = locker.lock(
                item,
                Some(unlockable_at),
                name,
                description,
                key_image_url,
                locked_at,
            );
            let batch = seq![locker.next_token()];
            &&& locked.unlock_refusal(batch, unlocked_at) is None
            &&& locked.released_all(batch, unlocked_at) == seq![item]
        }),
{
    let locked = locker.lock(item, Some(unlockable_at), name, description, key_image_url, locked_at);
    let batch = seq![locker.next_token()];
    assert(locked.first_refusal(batch, 0, unlocked_at) is None);
    assert(locked.refusal_of(batch[0], unlocked_at) is None);
    assert(locked.first_refusal(batch, 1, unlocked_at) is None);
    assert(locked.redeemed(batch, 0, unlocked_at) == locked);
    assert(locked.released(batch, 0, unlocked_at) == item);
    assert(locked.released_all(batch, unlocked_at) =~= seq![item]);
}

/// Escrow: as long as the receipt of a lock does not say that the lock was
/// redeemed, presenting its token alone at a time not before its unlock time
/// returns one container, of the kind and with the contents that the
/// receipt describes.
pub proof fn law_unredeemed_lock_returns_what_receipt_describes(
    locker: LockerView,
    token: ReceiptTokenView,
    current_time: Instant,
)
    requires
        locker.wf(),
        token.resource == locker.issuer.resource,
        locker.issuer.records.contains_key(token.local_id),
        locker.issuer.records[token.local_id].unlocked_at is None,
        locker.issuer.records[token.local_id].unlockable_at matches Some(at)
            && current_time.at_or_after(at),
    ensures
        locker.unlock_refusal(seq![token], current_time) is None,
        locker.released_all(seq![token], current_time).len() == 1,
        locker.released_all(seq![token], current_time)[0].resource
            == locker.issuer.records[token.local_id].resource,
        locker.released_all(seq![token], current_time)[0].contents
            == locker.issuer.records[token.local_id].locked_contents,
{
    let batch = seq![token];
    assert(locker.first_refusal(batch, 0, current_time) is None);
    assert(locker.refusal_of(batch[0], current_time) is None);
    assert(locker.first_refusal(batch, 1, current_time) is None);
    assert(locker.redeemed(batch, 0, current_time) == locker);
    assert(locker.paired(token.local_id));
}

/// One step in the life of a locker: a call of `lock` or of `unlock`.
pub enum Step {
    Lock {
        item: AssetContainerView,
        unlockable_at: Option<Instant>,
        name: Seq<char>,
        description: Seq<char>,
        key_image_url: Seq<char>,
        current_time: Instant,
    },
    Unlock { lock_receipts: Seq<ReceiptTokenView>, current_time: Instant },
}

/// The locker after `step`. A refused `unlock` changes nothing.
pub open spec fn after_step(locker: LockerView, step: Step) -> LockerView {
    match step {
        Step::Lock { item, unlockable_at, name, description, key_image_url, current_time } => {
            locker.lock(item, unlockable_at, name, description, key_image_url, current_time)
        },
        Step::Unlock { lock_receipts, current_time } => {
            if locker.unlock_refusal(lock_receipts, current_time) is None {
                locker.unlock(lock_receipts, current_time)
            } else {
                locker
            }
        },
    }
}

/// The locker after the first `n` of `steps`.
pub open spec fn after_steps(locker: LockerView, steps: Seq<Step>, n: nat) -> LockerView
    decreases n,
{
    if n == 0 {
        locker
    } else {
        after_step(after_steps(locker, steps, (n - 1) as nat), steps[n - 1])
    }
}

/// The counter never goes back, and grows by at most one in a step.
pub proof fn law_counter_grows(locker: LockerView, steps: Seq<Step>, n: nat, m: nat)
    requires
        locker.wf(),
        n <= m <= steps.len(),
        locker.counter + steps.len() <= u64::MAX,
    ensures
        after_steps(locker, steps, m).wf(),
        after_steps(locker, steps, n).counter <= after_steps(locker, steps, m).counter,
        after_steps(locker, steps, m).counter <= locker.counter + m,
        m > 0 && steps[m - 1] is Lock ==> after_steps(locker, steps, m).counter == after_steps(
            locker,
            steps,
            (m - 1) as nat,
        ).counter + 1,
    decreases m,
{
    if m > 0 {
        let earlier = after_steps(locker, steps, (m - 1) as nat);
        if n < m {
            law_counter_grows(locker, steps, n, (m - 1) as nat);
        } else {
            law_counter_grows(locker, steps, (m - 1) as nat, (m - 1) as nat);
        }
        match steps[m - 1] {
            Step::Lock { item, unlockable_at, name, description, key_image_url, current_time } => {
                crate::lemmas::lemma_lock_keeps_wf(
                    earlier,
                    item,
                    unlockable_at,
                    name,
                    description,
                    key_image_url,
                    current_time,
                );
            },
            Step::Unlock { lock_receipts, current_time } => {
                if earlier.unlock_refusal(lock_receipts, current_time) is None {
                    crate::lemmas::lemma_unlock_keeps_wf(earlier, lock_receipts, current_time);
                    lemma_redeemed_keeps_wf(
                        earlier,
                        lock_receipts,
                        lock_receipts.len(),
                        current_time,
                    );
                }
            },
        }
    }
}

/// Uniqueness: no identifier is issued twice. Of the steps in the life of a
/// locker, whatever they are, two different calls of `lock` return tokens
/// bound to different locks.
pub proof fn law_lock_identifiers_are_unique(
    locker: LockerView,
    steps: Seq<Step>,
    first: int,
    second: int,
)
    requires
        locker.wf(),
        locker.counter + steps.len() <= u64::MAX,
        0 <= first < second < steps.len(),
        steps[first] is Lock,
        steps[second] is Lock,
    ensures
        after_steps(locker, steps, first as nat).next_token().local_id != after_steps(
            locker,
            steps,
            second as nat,
        ).next_token().local_id,
{
    law_counter_grows(locker, steps, first as nat, (first + 1) as nat);
    law_counter_grows(locker, steps, (first + 1) as nat, second as nat);
}

/// Freshness: the identifier of a new lock is one for which the locker holds
/// neither receipt nor vault, and no token in the sink is bound to it.
pub proof fn law_new_lock_identifier_is_fresh(locker: LockerView)
    requires
        locker.wf(),
    ensures
        !locker.issuer.records.contains_key(locker.next_token().local_id),
        !locker.vaults.contains_key(locker.next_token().local_id),
        forall|k: int|
            0 <= k < locker.used_lock_receipts.len() ==> (
            #[trigger] locker.used_lock_receipts[k]).local_id != locker.next_token().local_id,
{
    assert forall|k: int| 0 <= k < locker.used_lock_receipts.len() implies (
    #[trigger] locker.used_lock_receipts[k]).local_id != locker.next_token().local_id by {
        assert(locker.spent(k));
    }
}

/// Time gate, no unlock time: a receipt without an unlock time is refused at
/// every time, as not yet unlockable.
pub proof fn law_without_unlock_time_never_unlocks(
    locker: LockerView,
    token: ReceiptTokenView,
    current_time: Instant,
)
    requires
        token.resource == locker.issuer.resource,
        locker.issuer.records.contains_key(token.local_id),
        locker.issuer.records[token.local_id].unlockable_at is None,
    ensures
        locker.unlock_refusal(seq![token], current_time) == Some(
            LockerError::NotYetUnlockable { unlockable_at: None },
        ),
{
    let batch = seq![token];
    assert(locker.first_refusal(batch, 0, current_time) is None);
    assert(locker.refusal_of(batch[0], current_time) == Some(
        LockerError::NotYetUnlockable { unlockable_at: None },
    ));
    assert(locker.first_refusal(batch, 1, current_time) == locker.refusal_of(
        batch[0],
        current_time,
    ));
}

/// A batch that holds a receipt without an unlock time is refused at every
/// time, whatever else it holds.
pub proof fn law_batch_without_unlock_time_is_refused(
    locker: LockerView,
    batch: Seq<ReceiptTokenView>,
    current_time: Instant,
    k: int,
)
    requires
        0 <= k < batch.len(),
        locker.issuer.records.contains_key(batch[k].local_id),
        locker.issuer.records[batch[k].local_id].unlockable_at is None,
    ensures
        locker.unlock_refusal(batch, current_time) is Some,
{
    if locker.unlock_refusal(batch, current_time) is None {
        law_accepted_batch_is_eligible(locker, batch, current_time, k);
    }
}

/// Time gate, boundary: a receipt with an unlock time is refused, as not yet
/// unlockable, at every time before that time, and accepted at that time and
/// at every later one.
pub proof fn law_unlock_time_is_the_boundary(
    locker: LockerView,
    token: ReceiptTokenView,
    unlockable_at: Instant,
    current_time: Instant,
)
    requires
        token.resource == locker.issuer.resource,
        locker.issuer.records.contains_key(token.local_id),
        locker.issuer.records[token.local_id].unlockable_at == Some(unlockable_at),
    ensures
        current_time.seconds_since_unix_epoch < unlockable_at.seconds_since_unix_epoch
            ==> locker.unlock_refusal(seq![token], current_time) == Some(
            LockerError::NotYetUnlockable { unlockable_at: Some(unlockable_at) },
        ),
        current_time.seconds_since_unix_epoch >= unlockable_at.seconds_since_unix_epoch
            ==> locker.unlock_refusal(seq![token], current_time) is None,
{
    let batch = seq![token];
    assert(locker.first_refusal(batch, 0, current_time) is None);
    assert(locker.first_refusal(batch, 1, current_time) == locker.refusal_of(
        batch[0],
        current_time,
    ));
}

/// Authenticity: a locker refuses every batch that holds a token of another
/// locker's receipts, as invalid, whatever the rest of the batch and whatever
/// else the two lockers have in common.
pub proof fn law_foreign_receipt_is_refused(
    minter: LockerView,
    other: LockerView,
    batch: Seq<ReceiptTokenView>,
    current_time: Instant,
    k: int,
)
    requires
        minter.issuer.resource != other.issuer.resource,
        0 <= k < batch.len(),
        batch[k].resource == minter.issuer.resource,
    ensures
        other.unlock_refusal(batch, current_time) == Some(LockerError::InvalidLockReceipts),
        after_step(other, Step::Unlock { lock_receipts: batch, current_time }) == other,
{
}

/// Batches: a batch that is not refused returns one container for each
/// token, in the order of the tokens. The container for a token is what the
/// vault of its lock held before the call, or that vault emptied if an
/// earlier token of the batch is bound to the same lock. Afterwards the
/// receipt of every lock in the batch carries the time of the call.
pub proof fn law_batch_unlocks_in_order(
    locker: LockerView,
    batch: Seq<ReceiptTokenView>,
    current_time: Instant,
)
    requires
        locker.wf(),
        locker.unlock_refusal(batch, current_time) is None,
    ensures
        locker.released_all(batch, current_time).len() == batch.len(),
        forall|k: int|
            0 <= k < batch.len() ==> #[trigger] locker.released_all(batch, current_time)[k] == if
                occurs_before(batch, k, batch[k].local_id) {
                locker.vaults[batch[k].local_id].emptied()
            } else {
                locker.vaults[batch[k].local_id]
            },
        forall|k: int|
            0 <= k < batch.len() ==> locker.unlock(batch, current_time).issuer.records[(
            #[trigger] batch[k]).local_id].unlocked_at == Some(current_time),
{
    assert forall|k: int| 0 <= k < batch.len() implies #[trigger] locker.released_all(
        batch,
        current_time,
    )[k] == if occurs_before(batch, k, batch[k].local_id) {
        locker.vaults[batch[k].local_id].emptied()
    } else {
        locker.vaults[batch[k].local_id]
    } by {
        law_redeemed_vaults(locker, batch, k as nat, current_time, batch[k].local_id);
        law_accepted_batch_is_eligible(locker, batch, current_time, k);
        assert(locker.vaults.contains_key(batch[k].local_id));
    }
    assert forall|k: int| 0 <= k < batch.len() implies locker.unlock(
        batch,
        current_time,
    ).issuer.records[(#[trigger] batch[k]).local_id].unlocked_at == Some(current_time) by {
        law_redeemed_receipts(locker, batch, batch.len(), current_time, batch[k].local_id);
        law_accepted_batch_is_eligible(locker, batch, current_time, k);
        assert(occurs_before(batch, batch.len() as int, batch[k].local_id));
    }
}

/// Fixed fields: `unlock` leaves the locker with the same receipts as
/// before, and on each of them every field but the time of redemption is as
/// it was when the receipt was minted. A receipt whose lock is not in the
/// batch is not changed at all.
pub proof fn law_unlock_keeps_fixed_fields(
    locker: LockerView,
    batch: Seq<ReceiptTokenView>,
    current_time: Instant,
    id: u64,
)
    ensures
        locker.unlock(batch, current_time).issuer.records.contains_key(id)
            == locker.issuer.records.contains_key(id),
        locker.issuer.records.contains_key(id) ==> locker.unlock(
            batch,
            current_time,
        ).issuer.records[id].same_fixed_fields(locker.issuer.records[id]),
        locker.issuer.records.contains_key(id) && !occurs_before(batch, batch.len() as int, id)
            ==> locker.unlock(batch, current_time).issuer.records[id]
            == locker.issuer.records[id],
{
    law_redeemed_receipts(locker, batch, batch.len(), current_time, id);
}

} // verus!
