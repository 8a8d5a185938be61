//! Lemmas on the state machine of the locker: its invariant is kept, and a
//! refusal, once found, stands.

use vstd::prelude::*;
use crate::asset::AssetContainerView;
use crate::model::LockerView;
use crate::receipt::ReceiptTokenView;
use crate::time::Instant;

verus! {

/// Locking keeps the invariant of a locker.
pub proof fn lemma_lock_keeps_wf(
    before: LockerView,
    item: AssetContainerView,
    unlockable_at: Option<Instant>,
    name: Seq<char>,
    description: Seq<char>,
    key_image_url: Seq<char>,
    current_time: Instant,
)
    requires
        before.wf(),
        before.counter < u64::MAX,
    ensures
        before.lock(item, unlockable_at, name, description, key_image_url, current_time).wf(),
{
    let after = before.lock(item, unlockable_at, name, description, key_image_url, current_time);
    assert forall|id: u64| id < after.counter implies #[trigger] after.paired(id) by {
        if id < before.counter {
            assert(before.paired(id));
        }
    }
    assert forall|k: int| 0 <= k < after.used_lock_receipts.len() implies #[trigger] after.spent(
        k,
    ) by {
        assert(before.spent(k));
    }
}

/// Redeeming a lock keeps the invariant of a locker, and changes neither the
/// counter nor the kind of its receipts.
pub proof fn lemma_redeem_keeps_wf(before: LockerView, id: u64, current_time: Instant)
    requires
        before.wf(),
    ensures
        before.redeem(id, current_time).wf(),
        before.redeem(id, current_time).counter == before.counter,
        before.redeem(id, current_time).issuer.resource == before.issuer.resource,
{
    let after = before.redeem(id, current_time);
    assert forall|other: u64| other < after.counter implies #[trigger] after.paired(other) by {
        assert(before.paired(other));
    }
    assert forall|k: int| 0 <= k < after.used_lock_receipts.len() implies #[trigger] after.spent(
        k,
    ) by {
        assert(before.spent(k));
    }
}

/// Redeeming the first `n` tokens of a batch keeps the invariant of a locker,
/// and changes neither the counter nor the kind of its receipts.
pub proof fn lemma_redeemed_keeps_wf(
    before: LockerView,
    batch: Seq<ReceiptTokenView>,
    n: nat,
    current_time: Instant,
)
    requires
        before.wf(),
    ensures
        before.redeemed(batch, n, current_time).wf(),
        before.redeemed(batch, n, current_time).counter == before.counter,
        before.redeemed(batch, n, current_time).issuer.resource == before.issuer.resource,
    decreases n,
{
    if n > 0 {
        lemma_redeemed_keeps_wf(before, batch, (n - 1) as nat, current_time);
        lemma_redeem_keeps_wf(
            before.redeemed(batch, (n - 1) as nat, current_time),
            batch[n - 1].local_id,
            current_time,
        );
    }
}

/// Once the first `n` tokens of a batch are redeemed, the receipt of each of
/// them that this locker knows says so.
pub proof fn lemma_redeemed_marks_receipts(
    before: LockerView,
    batch: Seq<ReceiptTokenView>,
    n: nat,
    current_time: Instant,
    k: int,
)
    requires
        before.wf(),
        0 <= k < n,
        before.issuer.records.contains_key(batch[k].local_id),
    ensures
        before.redeemed(batch, n, current_time).issuer.records.contains_key(batch[k].local_id),
        before.redeemed(batch, n, current_time).issuer.records[batch[k].local_id].unlocked_at
            == Some(current_time),
    decreases n,
{
    let earlier = before.redeemed(batch, (n - 1) as nat, current_time);
    lemma_redeemed_keeps_wf(before, batch, (n - 1) as nat, current_time);
    lemma_redeemed_keeps_wf(before, batch, n, current_time);
    assert(earlier.issuer.records.contains_key(batch[k].local_id));
    if k < n - 1 {
        lemma_redeemed_marks_receipts(before, batch, (n - 1) as nat, current_time, k);
    }
}

/// A refusal among the first `n` tokens of a batch is the refusal among the
/// first `m` as well, for every `m` from `n` on.
pub proof fn lemma_first_refusal_stays(
    locker: LockerView,
    batch: Seq<ReceiptTokenView>,
    n: nat,
    m: nat,
    current_time: Instant,
)
    requires
        n <= m,
        locker.first_refusal(batch, n, current_time) is Some,
    ensures
        locker.first_refusal(batch, m, current_time) == locker.first_refusal(
            batch,
            n,
            current_time,
        ),
    decreases m,
{
    if n < m {
        lemma_first_refusal_stays(locker, batch, n, (m - 1) as nat, current_time);
    }
}

/// Unlocking a batch that is not refused keeps the invariant of a locker.
pub proof fn lemma_unlock_keeps_wf(
    before: LockerView,
    batch: Seq<ReceiptTokenView>,
    current_time: Instant,
)
    requires
        before.wf(),
        before.unlock_refusal(batch, current_time) is None,
    ensures
        before.unlock(batch, current_time).wf(),
{
    let redeemed = before.redeemed(batch, batch.len(), current_time);
    let after = before.unlock(batch, current_time);
    lemma_redeemed_keeps_wf(before, batch, batch.len(), current_time);
    assert forall|id: u64| id < after.counter implies #[trigger] after.paired(id) by {
        assert(redeemed.paired(id));
    }
    assert forall|k: int| 0 <= k < after.used_lock_receipts.len() implies #[trigger] after.spent(
        k,
    ) by {
        if k < redeemed.used_lock_receipts.len() {
            assert(redeemed.spent(k));
        } else {
            let j = k - redeemed.used_lock_receipts.len();
            assert(after.used_lock_receipts[k] == batch[j]);
            if !before.issuer.records.contains_key(batch[j].local_id) {
                assert(before.first_refusal(batch, (j + 1) as nat, current_time) is Some);
                lemma_first_refusal_stays(
                    before,
                    batch,
                    (j + 1) as nat,
                    batch.len(),
                    current_time,
                );
            }
            lemma_redeemed_marks_receipts(before, batch, batch.len(), current_time, j);
        }
    }
}

} // verus!
