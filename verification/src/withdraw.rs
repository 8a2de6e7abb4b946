//! The withdrawal executor: runs the promoter, then releases the whole
//! withdrawable balance from the custodial pool. Zeroing the balance and
//! the outgoing transfer commit together or not at all.

use vstd::prelude::*;
use crate::errors::VaultError;
use crate::issuer::lookup;
use crate::ledger::VaultLedger;
use crate::promoter::{promote, promote_spec};
use crate::vault::VaultRecord;

verus! {

/// What a withdrawal stamps as the new promotion time: `now`, except that
/// the stamp never moves backwards when the clock regressed below the
/// record's stored time — the promotion clock is non-decreasing.
pub open spec fn withdrawal_stamp(now: i64, last: i64) -> i64 {
    if now >= last {
        now
    } else {
        last
    }
}

/// What a withdrawal decides, before the transfer outcome is known: absent
/// vault and empty (post-promotion) withdrawable balance fail; otherwise
/// the committed record and the amount that must leave the pool.
pub open spec fn withdraw_decision_spec(pre: Option<VaultRecord>, now: i64)
    -> Result<(VaultRecord, u64), VaultError> {
    match pre {
        None => Err(VaultError::NoSuchVault),
        Some(r) => {
            let p = promote_spec(now, r);
            if p.withdrawable_balance == 0 {
                Err(VaultError::NothingWithdrawable)
            } else {
                Ok((
                    VaultRecord {
                        withdrawable_balance: 0,
                        last_promotion_time: withdrawal_stamp(now, p.last_promotion_time),
                        total_withdrawn: Ghost(
                            (p.total_withdrawn@ + p.withdrawable_balance) as nat,
                        ),
                        ..p
                    },
                    p.withdrawable_balance,
                ))
            }
        },
    }
}

/// One withdrawal applied to a single record, for a host that stores each
/// record itself: the committed record and the amount that leaves the pool,
/// or the error that aborts the call. `transfer_accepted` is the outcome
/// the token-ledger collaborator reported for a transfer of exactly that
/// amount; a refused transfer commits nothing.
pub fn withdraw_record(pre: Option<VaultRecord>, now: i64, transfer_accepted: bool)
    -> (r: Result<(VaultRecord, u64), VaultError>)
    requires
        pre matches Some(b) ==> b.wf(),
    ensures
        ({
            let d = withdraw_decision_spec(pre, now);
            match r {
                Ok(pa) => transfer_accepted
                    && d == Ok::<(VaultRecord, u64), VaultError>(pa)
                    && pa.0.wf(),
                Err(e) => if d is Ok {
                    !transfer_accepted && e == VaultError::TransferFailed
                } else {
                    d == Err::<(VaultRecord, u64), VaultError>(e)
                },
            }
        }),
        ({
            match (pre, r) {
                (Some(b), Ok(pa)) => {
                    &&& pa.0.last_promotion_time >= b.last_promotion_time
                    &&& pa.0.owner == b.owner
                    &&& pa.0.initialized == b.initialized
                    &&& pa.0.authority_derivation_tag == b.authority_derivation_tag
                },
                _ => true,
            }
        }),
{
    let rec = match pre {
        None => {
            return Err(VaultError::NoSuchVault);
        },
        Some(rec) => rec,
    };
    let p = promote(now, &rec);
    if p.withdrawable_balance == 0 {
        Err(VaultError::NothingWithdrawable)
    } else if !transfer_accepted {
        Err(VaultError::TransferFailed)
    } else {
        let amount = p.withdrawable_balance;
        let stamp = if now >= p.last_promotion_time {
            now
        } else {
            p.last_promotion_time
        };
        let committed = VaultRecord {
            withdrawable_balance: 0,
            last_promotion_time: stamp,
            total_withdrawn: Ghost((p.total_withdrawn@ + amount) as nat),
            ..p
        };
        Ok((committed, amount))
    }
}

impl VaultLedger {
    /// Decide a withdrawal for `owner` at `now` without committing it: the
    /// amount that a transfer out of the pool would move, or why none can.
    pub fn prepare_withdrawal(&self, owner: u64, now: i64) -> (r: Result<u64, VaultError>)
        requires
            self.wf(),
        ensures
            ({
                let d = withdraw_decision_spec(lookup(self@, owner), now);
                match r {
                    Ok(amount) => (d matches Ok(pa) && amount == pa.1),
                    Err(e) => d == Err::<(VaultRecord, u64), VaultError>(e),
                }
            }),
    {
        proof {
            self.lemma_view_wf();
        }
        match self.get(owner) {
            None => Err(VaultError::NoSuchVault),
            Some(rec) => {
                let p = promote(now, &rec);
                if p.withdrawable_balance == 0 {
                    Err(VaultError::NothingWithdrawable)
                } else {
                    Ok(p.withdrawable_balance)
                }
            },
        }
    }

    /// Withdraw the user's whole withdrawable balance: run the promoter,
    /// fail on an absent vault or an empty bucket, and otherwise commit the
    /// zeroed balance together with the transfer whose outcome the
    /// token-ledger collaborator reported as `transfer_accepted`. A refused
    /// transfer leaves the ledger exactly as it was: no partial state, no
    /// funds leave without the balance being zeroed.
    pub fn withdraw(&mut self, owner: u64, now: i64, transfer_accepted: bool)
        -> (r: Result<u64, VaultError>)
        requires
            old(self).wf(),
        ensures
            final(self).wf(),
            ({
                let d = withdraw_decision_spec(lookup(old(self)@, owner), now);
                match r {
                    Ok(amount) => transfer_accepted && (d matches Ok(pa)
                        && amount == pa.1
                        && final(self)@ == old(self)@.insert(owner, pa.0)),
                    Err(e) => final(self)@ == old(self)@ && if d is Ok {
                        !transfer_accepted && e == VaultError::TransferFailed
                    } else {
                        d == Err::<(VaultRecord, u64), VaultError>(e)
                    },
                }
            }),
            r is Ok ==> {
                &&& old(self)@.contains_key(owner)
                &&& final(self)@[owner].last_promotion_time
                    >= old(self)@[owner].last_promotion_time
                &&& final(self)@[owner].owner == old(self)@[owner].owner
                &&& final(self)@[owner].initialized == old(self)@[owner].initialized
                &&& final(self)@[owner].authority_derivation_tag
                    == old(self)@[owner].authority_derivation_tag
            },
    {
        proof {
            self.lemma_view_wf();
        }
        let pre = self.get(owner);
        match withdraw_record(pre, now, transfer_accepted) {
            Ok((committed, amount)) => {
                let stored = self.put(committed);
                proof {
                    assert(stored);
                }
                Ok(amount)
            },
            Err(e) => Err(e),
        }
    }
}

/// Bounded withdrawal: a single withdrawal never moves more than the sum of
/// the balances observed at the start of the call — exactly the
/// withdrawable balance as the promoter leaves it.
pub proof fn lemma_bounded_withdrawal(pre: VaultRecord, now: i64, rec: VaultRecord, amount: u64)
    requires
        pre.wf(),
        withdraw_decision_spec(Some(pre), now)
            == Ok::<(VaultRecord, u64), VaultError>((rec, amount)),
    ensures
        amount == promote_spec(now, pre).withdrawable_balance,
        amount <= pre.pending_balance + pre.withdrawable_balance,
        rec.withdrawable_balance == 0,
        rec.total_withdrawn@ == pre.total_withdrawn@ + amount,
{
}

} // verus!
