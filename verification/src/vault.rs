//! The per-user vault record and its well-formedness invariant.

use vstd::prelude::*;
use crate::QUANTUM;

verus! {

/// Reward entitlement of one user: created lazily on the first accrual,
/// never recreated, never destroyed.
///
/// The two ghost counters record history that no field of the persisted
/// record keeps: how many quanta were ever granted and how much was ever
/// withdrawn. They make the conservation law a plain invariant.
#[derive(Clone, Copy)]
pub struct VaultRecord {
    /// The user this vault belongs to; immutable once created.
    pub owner: u64,
    /// Reward amount accrued but not yet eligible for withdrawal.
    pub pending_balance: u64,
    /// Reward amount eligible for withdrawal now.
    pub withdrawable_balance: u64,
    /// Unix time of the most recent promotion (or withdrawal reset).
    pub last_promotion_time: i64,
    /// Guard against re-initialization.
    pub initialized: bool,
    /// Opaque value from which the vault's signing authority is recomputed.
    pub authority_derivation_tag: u8,
    /// Ghost: how many quanta were ever granted into this vault.
    pub accrual_count: Ghost<nat>,
    /// Ghost: total amount ever withdrawn from this vault.
    pub total_withdrawn: Ghost<nat>,
}

impl VaultRecord {
    /// Well-formedness: the two balances fit together in a `u64`, and the
    /// conservation law holds — every base unit ever granted is still
    /// pending, is withdrawable now, or was withdrawn.
    pub open spec fn wf(self) -> bool {
        &&& self.initialized
        &&& self.pending_balance + self.withdrawable_balance <= u64::MAX
        &&& self.pending_balance + self.withdrawable_balance + self.total_withdrawn@
            == QUANTUM * self.accrual_count@
    }

    /// The state a fresh vault starts from: empty buckets, the clock of its
    /// creation as the last promotion time.
    pub open spec fn fresh_spec(owner: u64, now: i64, authority_tag: u8) -> VaultRecord {
        VaultRecord {
            owner,
            pending_balance: 0,
            withdrawable_balance: 0,
            last_promotion_time: now,
            initialized: true,
            authority_derivation_tag: authority_tag,
            accrual_count: Ghost(0),
            total_withdrawn: Ghost(0),
        }
    }

    /// Create the record of a fresh vault.
    pub fn fresh(owner: u64, now: i64, authority_tag: u8) -> (r: VaultRecord)
        ensures
            r == Self::fresh_spec(owner, now, authority_tag),
            r.wf(),
    {
        VaultRecord {
            owner,
            pending_balance: 0,
            withdrawable_balance: 0,
            last_promotion_time: now,
            initialized: true,
            authority_derivation_tag: authority_tag,
            accrual_count: Ghost(0),
            total_withdrawn: Ghost(0),
        }
    }

    /// Rebuild a record from its persisted fields, for a host that stores
    /// each record itself. The ghost history is chosen as one consistent
    /// with the balances. Returns nothing when the two balances cannot
    /// belong to a well-formed vault because their sum overflows.
    pub fn from_parts(
        owner: u64,
        pending_balance: u64,
        withdrawable_balance: u64,
        last_promotion_time: i64,
        authority_derivation_tag: u8,
    ) -> (r: Option<VaultRecord>)
        ensures
            match r {
                Some(rec) => {
                    &&& rec.wf()
                    &&& rec.owner == owner
                    &&& rec.pending_balance == pending_balance
                    &&& rec.withdrawable_balance == withdrawable_balance
                    &&& rec.last_promotion_time == last_promotion_time
                    &&& rec.initialized
                    &&& rec.authority_derivation_tag == authority_derivation_tag
                },
                None => pending_balance + withdrawable_balance > u64::MAX,
            },
    {
        if withdrawable_balance > u64::MAX - pending_balance {
            return None;
        }
        let ghost sum: nat = (pending_balance + withdrawable_balance) as nat;
        Some(VaultRecord {
            owner,
            pending_balance,
            withdrawable_balance,
            last_promotion_time,
            initialized: true,
            authority_derivation_tag,
            accrual_count: Ghost(sum),
            total_withdrawn: Ghost((sum * (QUANTUM - 1)) as nat),
        })
    }
}

/// Conservation law: at any point in a vault's life, the pending balance,
/// the withdrawable balance and everything ever withdrawn add up to exactly
/// one quantum per grant ever made — no unit of reward appears or vanishes.
pub proof fn lemma_conservation(r: VaultRecord)
    requires
        r.wf(),
    ensures
        r.pending_balance + r.withdrawable_balance + r.total_withdrawn@
            == QUANTUM * r.accrual_count@,
{
}

} // verus!
