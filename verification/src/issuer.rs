//! The reward issuer: one accrual per accepted review. The promoter runs
//! first against the existing balances — a reward just granted is never
//! promotable in the same call — then the quantum joins the pending bucket,
//! and the same amount is owed as a mint into the custodial pool.

use vstd::prelude::*;
use crate::QUANTUM;
use crate::errors::VaultError;
use crate::ledger::VaultLedger;
use crate::promoter::{promote, promote_spec};
use crate::vault::VaultRecord;

verus! {

/// The record under `owner`, if the map holds one.
pub open spec fn lookup(m: Map<u64, VaultRecord>, owner: u64) -> Option<VaultRecord> {
    if m.contains_key(owner) {
        Some(m[owner])
    } else {
        None
    }
}

/// What one accrual does to the user's record, creating it first when
/// absent: the promoter runs against the balances as they were, then the
/// quantum is added to the pending balance. A sum that no longer fits in a
/// `u64` aborts the whole accrual instead of wrapping.
pub open spec fn accrue_spec(
    pre: Option<VaultRecord>,
    owner: u64,
    quantum: u64,
    now: i64,
    authority_tag: u8,
) -> Result<VaultRecord, VaultError> {
    let base = match pre {
        Some(r) => r,
        None => VaultRecord::fresh_spec(owner, now, authority_tag),
    };
    let p = promote_spec(now, base);
    if p.pending_balance + p.withdrawable_balance + quantum > u64::MAX {
        Err(VaultError::ArithmeticOverflow)
    } else {
        Ok(VaultRecord {
            pending_balance: (p.pending_balance + quantum) as u64,
            accrual_count: Ghost(p.accrual_count@ + 1),
            ..p
        })
    }
}

/// One accrual applied to a single record, for a host that stores each
/// record itself: the record after the grant, or the error that aborts it.
pub fn accrue_record(
    pre: Option<VaultRecord>,
    owner: u64,
    quantum: u64,
    now: i64,
    authority_tag: u8,
) -> (r: Result<VaultRecord, VaultError>)
    requires
        pre matches Some(b) ==> (b.wf() && b.owner == owner),
        quantum == QUANTUM,
    ensures
        r == accrue_spec(pre, owner, quantum, now, authority_tag),
        (r matches Ok(rec) ==> rec.wf() && rec.owner == owner),
{
    let base = match pre {
        Some(r) => r,
        None => VaultRecord::fresh(owner, now, authority_tag),
    };
    let p = promote(now, &base);
    let headroom = (u64::MAX - p.pending_balance) - p.withdrawable_balance;
    if quantum > headroom {
        return Err(VaultError::ArithmeticOverflow);
    }
    Ok(VaultRecord {
        pending_balance: p.pending_balance + quantum,
        accrual_count: Ghost(p.accrual_count@ + 1),
        ..p
    })
}

impl VaultLedger {
    /// Grant one reward quantum to `owner`, creating their vault first when
    /// they have none. Returns the amount that must be minted into the
    /// custodial pool for this grant. The whole operation is atomic: on
    /// overflow nothing is retained, not even a lazily created vault.
    pub fn accrue(&mut self, owner: u64, quantum: u64, now: i64, authority_tag: u8)
        -> (r: Result<u64, VaultError>)
        requires
            old(self).wf(),
            quantum == QUANTUM,
        ensures
            final(self).wf(),
            ({
                let res = accrue_spec(lookup(old(self)@, owner), owner, quantum, now,
                    authority_tag);
                match r {
                    Ok(amount) => amount == quantum && (res matches Ok(rec)
                        && final(self)@ == old(self)@.insert(owner, rec)),
                    Err(e) => res == Err::<VaultRecord, VaultError>(e)
                        && final(self)@ == old(self)@,
                }
            }),
    {
        proof {
            self.lemma_view_wf();
        }
        let existing = self.get(owner);
        let updated = match accrue_record(existing, owner, quantum, now, authority_tag) {
            Ok(rec) => rec,
            Err(e) => {
                return Err(e);
            },
        };
        if existing.is_none() {
            let created = self.create(owner, now, authority_tag);
            proof {
                assert(created is Ok);
            }
        }
        let stored = self.put(updated);
        proof {
            assert(stored);
            assert(self@ =~= old(self)@.insert(owner, updated));
        }
        Ok(quantum)
    }

    /// The review-acceptance signal: grants the fixed reward quantum to the
    /// user who wrote the review and reports the amount owed as a mint into
    /// the pool.
    pub fn on_review_accepted(&mut self, owner: u64, now: i64, authority_tag: u8)
        -> (r: Result<u64, VaultError>)
        requires
            old(self).wf(),
        ensures
            final(self).wf(),
            ({
                let res = accrue_spec(lookup(old(self)@, owner), owner, QUANTUM, now,
                    authority_tag);
                match r {
                    Ok(amount) => amount == QUANTUM && (res matches Ok(rec)
                        && final(self)@ == old(self)@.insert(owner, rec)),
                    Err(e) => res == Err::<VaultRecord, VaultError>(e)
                        && final(self)@ == old(self)@,
                }
            }),
    {
        self.accrue(owner, QUANTUM, now, authority_tag)
    }
}

/// A reward just granted is never promotable within the call that granted
/// it: after a successful accrual the whole quantum sits in the pending
/// bucket, and the withdrawable bucket holds no more than the balances that
/// existed before the call.
pub proof fn lemma_accrual_not_immediately_withdrawable(
    pre: VaultRecord,
    owner: u64,
    quantum: u64,
    now: i64,
    authority_tag: u8,
    rec: VaultRecord,
)
    requires
        accrue_spec(Some(pre), owner, quantum, now, authority_tag)
            == Ok::<VaultRecord, VaultError>(rec),
    ensures
        rec.withdrawable_balance <= pre.pending_balance + pre.withdrawable_balance,
        rec.pending_balance >= quantum,
{
}

/// Cooldown enforcement for a quantum granted by a call that also stamped
/// the promotion clock — the accrual that creates the vault, or one whose
/// promoter fired: for a full cooldown window after that accrual the
/// promoter leaves the record untouched, so the fresh quantum cannot reach
/// the withdrawable bucket before the window has elapsed.
pub proof fn lemma_fresh_quantum_cooldown(
    pre: Option<VaultRecord>,
    owner: u64,
    quantum: u64,
    now: i64,
    authority_tag: u8,
    rec: VaultRecord,
    later: i64,
)
    requires
        accrue_spec(pre, owner, quantum, now, authority_tag)
            == Ok::<VaultRecord, VaultError>(rec),
        rec.last_promotion_time == now,
        crate::promoter::elapsed(later, now) < crate::COOLDOWN_SECONDS,
    ensures
        promote_spec(later, rec) == rec,
{
    crate::promoter::lemma_cooldown_gate(later, rec);
}

} // verus!
