//! Failure taxonomy of the vault core. Every error aborts its enclosing
//! operation atomically: the ledger is never left partially updated.

use vstd::prelude::*;

verus! {

/// The ways a vault operation can fail.
#[derive(Clone, Copy, Debug, PartialEq, Eq, Structural)]
pub enum VaultError {
    /// A vault already exists for this user; it is never recreated.
    DuplicateVault,
    /// No vault exists for this user.
    NoSuchVault,
    /// Withdrawal requested while the withdrawable balance is zero,
    /// whether because the cooldown has not elapsed or because nothing
    /// was ever accrued or promoted.
    NothingWithdrawable,
    /// A balance update would overflow; the operation aborts, it never wraps.
    ArithmeticOverflow,
    /// The recomputed signing authority does not match the recorded one.
    AuthorityMismatch,
    /// The token-ledger collaborator refused the outgoing transfer.
    TransferFailed,
}

} // verus!
