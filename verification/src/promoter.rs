//! The cooldown promoter: a pure state transition that moves the pending
//! balance into the withdrawable bucket once the cooldown window has
//! elapsed since the last promotion.

use vstd::prelude::*;
use crate::COOLDOWN_SECONDS;
use crate::vault::VaultRecord;

verus! {

/// Seconds elapsed between the last promotion and `now`, saturated at zero
/// when the clock ran backwards.
pub open spec fn elapsed(now: i64, last: i64) -> int {
    if now >= last {
        now - last
    } else {
        0
    }
}

/// Whether a promotion is due at `now`: the cooldown window has fully
/// elapsed since the record's last promotion.
pub open spec fn promotion_due(now: i64, r: VaultRecord) -> bool {
    elapsed(now, r.last_promotion_time) >= COOLDOWN_SECONDS
}

/// What the promoter does: when due, the whole pending balance becomes
/// withdrawable and the promotion clock restarts; otherwise nothing changes.
pub open spec fn promote_spec(now: i64, r: VaultRecord) -> VaultRecord {
    if promotion_due(now, r) {
        VaultRecord {
            pending_balance: 0,
            withdrawable_balance: (r.pending_balance + r.withdrawable_balance) as u64,
            last_promotion_time: now,
            ..r
        }
    } else {
        r
    }
}

/// Run the cooldown promoter against `now`.
pub fn promote(now: i64, r: &VaultRecord) -> (p: VaultRecord)
    requires
        r.wf(),
    ensures
        p == promote_spec(now, *r),
        p.wf(),
        p.pending_balance + p.withdrawable_balance
            == r.pending_balance + r.withdrawable_balance,
        p.last_promotion_time >= r.last_promotion_time,
{
    let last = r.last_promotion_time;
    let due = now >= last && (now as i128) - (last as i128) >= COOLDOWN_SECONDS as i128;
    if due {
        VaultRecord {
            pending_balance: 0,
            withdrawable_balance: r.pending_balance + r.withdrawable_balance,
            last_promotion_time: now,
            ..*r
        }
    } else {
        *r
    }
}

/// Running the promoter twice with the same `now` gives the same state as
/// running it once: the second run is a no-op.
pub proof fn lemma_promote_idempotent(now: i64, r: VaultRecord)
    ensures
        promote_spec(now, promote_spec(now, r)) == promote_spec(now, r),
{
}

/// The cooldown gate: within the cooldown window after the last promotion,
/// the promoter changes nothing — in particular, no funds enter the
/// withdrawable bucket.
pub proof fn lemma_cooldown_gate(now: i64, r: VaultRecord)
    requires
        elapsed(now, r.last_promotion_time) < COOLDOWN_SECONDS,
    ensures
        promote_spec(now, r) == r,
{
}

} // verus!
