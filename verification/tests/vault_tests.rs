use reward_vault::errors::VaultError;
use reward_vault::ledger::VaultLedger;
use reward_vault::promoter::promote;
use reward_vault::vault::VaultRecord;
use reward_vault::{COOLDOWN_SECONDS, QUANTUM};

const OWNER: u64 = 1;
const TAG: u8 = 7;

#[test]
fn constants_match_design() {
    assert_eq!(QUANTUM, 5_000_000_000);
    assert_eq!(COOLDOWN_SECONDS, 300);
}

#[test]
fn first_review_creates_vault_and_accrues() {
    let mut ledger = VaultLedger::new();
    let minted = ledger.on_review_accepted(OWNER, 0, TAG);
    assert_eq!(minted, Ok(5_000_000_000));
    let rec = ledger.get(OWNER).unwrap();
    assert_eq!(rec.owner, OWNER);
    assert_eq!(rec.pending_balance, 5_000_000_000);
    assert_eq!(rec.withdrawable_balance, 0);
    assert_eq!(rec.last_promotion_time, 0);
    assert!(rec.initialized);
    assert_eq!(rec.authority_derivation_tag, TAG);
}

#[test]
fn second_review_promotes_then_accrues() {
    let mut ledger = VaultLedger::new();
    ledger.on_review_accepted(OWNER, 0, TAG).unwrap();
    let minted = ledger.on_review_accepted(OWNER, 300, TAG);
    assert_eq!(minted, Ok(5_000_000_000));
    let rec = ledger.get(OWNER).unwrap();
    assert_eq!(rec.withdrawable_balance, 5_000_000_000);
    assert_eq!(rec.pending_balance, 5_000_000_000);
    assert_eq!(rec.last_promotion_time, 300);
}

#[test]
fn withdraw_after_promotion() {
    let mut ledger = VaultLedger::new();
    ledger.on_review_accepted(OWNER, 0, TAG).unwrap();
    ledger.on_review_accepted(OWNER, 300, TAG).unwrap();
    assert_eq!(ledger.prepare_withdrawal(OWNER, 300), Ok(5_000_000_000));
    let moved = ledger.withdraw(OWNER, 300, true);
    assert_eq!(moved, Ok(5_000_000_000));
    let rec = ledger.get(OWNER).unwrap();
    assert_eq!(rec.withdrawable_balance, 0);
    assert_eq!(rec.pending_balance, 5_000_000_000);
    assert_eq!(rec.last_promotion_time, 300);
}

#[test]
fn withdraw_during_cooldown_fails() {
    let mut ledger = VaultLedger::new();
    ledger.on_review_accepted(OWNER, 0, TAG).unwrap();
    ledger.on_review_accepted(OWNER, 300, TAG).unwrap();
    ledger.withdraw(OWNER, 300, true).unwrap();
    let refused = ledger.withdraw(OWNER, 301, true);
    assert_eq!(refused, Err(VaultError::NothingWithdrawable));
    let rec = ledger.get(OWNER).unwrap();
    assert_eq!(rec.withdrawable_balance, 0);
    assert_eq!(rec.pending_balance, 5_000_000_000);
    assert_eq!(rec.last_promotion_time, 300);
}

#[test]
fn withdraw_after_second_window() {
    let mut ledger = VaultLedger::new();
    ledger.on_review_accepted(OWNER, 0, TAG).unwrap();
    ledger.on_review_accepted(OWNER, 300, TAG).unwrap();
    ledger.withdraw(OWNER, 300, true).unwrap();
    let moved = ledger.withdraw(OWNER, 600, true);
    assert_eq!(moved, Ok(5_000_000_000));
    let rec = ledger.get(OWNER).unwrap();
    assert_eq!(rec.pending_balance, 0);
    assert_eq!(rec.withdrawable_balance, 0);
    assert_eq!(rec.last_promotion_time, 600);
}

#[test]
fn duplicate_vault_rejected() {
    let mut ledger = VaultLedger::new();
    let first = ledger.create(OWNER, 5, TAG);
    assert!(first.is_ok());
    let second = ledger.create(OWNER, 9, 3);
    assert_eq!(second.err(), Some(VaultError::DuplicateVault));
    let rec = ledger.get(OWNER).unwrap();
    assert_eq!(rec.last_promotion_time, 5);
    assert_eq!(rec.authority_derivation_tag, TAG);
    assert_eq!(rec.pending_balance, 0);
    assert_eq!(rec.withdrawable_balance, 0);
}

#[test]
fn missing_vault_rejected() {
    let mut ledger = VaultLedger::new();
    assert_eq!(ledger.prepare_withdrawal(OWNER, 0), Err(VaultError::NoSuchVault));
    assert_eq!(ledger.withdraw(OWNER, 0, true), Err(VaultError::NoSuchVault));
    assert!(ledger.get(OWNER).is_none());
}

#[test]
fn refused_transfer_leaves_state() {
    let mut ledger = VaultLedger::new();
    ledger.on_review_accepted(OWNER, 0, TAG).unwrap();
    let refused = ledger.withdraw(OWNER, 300, false);
    assert_eq!(refused, Err(VaultError::TransferFailed));
    let rec = ledger.get(OWNER).unwrap();
    assert_eq!(rec.pending_balance, 5_000_000_000);
    assert_eq!(rec.withdrawable_balance, 0);
    assert_eq!(rec.last_promotion_time, 0);
}

#[test]
fn promotion_idempotent_at_same_instant() {
    let mut ledger = VaultLedger::new();
    ledger.on_review_accepted(OWNER, 0, TAG).unwrap();
    let rec = ledger.get(OWNER).unwrap();
    let once = promote(450, &rec);
    let twice = promote(450, &once);
    assert_eq!(once.pending_balance, twice.pending_balance);
    assert_eq!(once.withdrawable_balance, twice.withdrawable_balance);
    assert_eq!(once.last_promotion_time, twice.last_promotion_time);
    assert_eq!(once.pending_balance, 0);
    assert_eq!(once.withdrawable_balance, 5_000_000_000);
    assert_eq!(once.last_promotion_time, 450);
}

#[test]
fn conservation_observed_across_operations() {
    let mut ledger = VaultLedger::new();
    let mut withdrawn: u128 = 0;
    let mut grants: u128 = 0;
    ledger.on_review_accepted(OWNER, 0, TAG).unwrap();
    grants += 1;
    ledger.on_review_accepted(OWNER, 300, TAG).unwrap();
    grants += 1;
    withdrawn += ledger.withdraw(OWNER, 300, true).unwrap() as u128;
    ledger.on_review_accepted(OWNER, 450, TAG).unwrap();
    grants += 1;
    withdrawn += ledger.withdraw(OWNER, 900, true).unwrap() as u128;
    let rec = ledger.get(OWNER).unwrap();
    let held = rec.pending_balance as u128 + rec.withdrawable_balance as u128;
    assert_eq!(held + withdrawn, QUANTUM as u128 * grants);
}

#[test]
fn fresh_quantum_stays_pending_through_cooldown() {
    let mut ledger = VaultLedger::new();
    ledger.on_review_accepted(OWNER, 1000, TAG).unwrap();
    assert_eq!(ledger.prepare_withdrawal(OWNER, 1000), Err(VaultError::NothingWithdrawable));
    assert_eq!(ledger.prepare_withdrawal(OWNER, 1299), Err(VaultError::NothingWithdrawable));
    assert_eq!(ledger.prepare_withdrawal(OWNER, 1300), Ok(5_000_000_000));
}

#[test]
fn backwards_clock_saturates_to_no_promotion() {
    let mut ledger = VaultLedger::new();
    ledger.on_review_accepted(OWNER, 1000, TAG).unwrap();
    assert_eq!(ledger.prepare_withdrawal(OWNER, 500), Err(VaultError::NothingWithdrawable));
    let rec = ledger.get(OWNER).unwrap();
    let unmoved = promote(500, &rec);
    assert_eq!(unmoved.pending_balance, 5_000_000_000);
    assert_eq!(unmoved.withdrawable_balance, 0);
    assert_eq!(unmoved.last_promotion_time, 1000);
}

#[test]
fn backwards_clock_withdrawal_keeps_timestamp() {
    let mut ledger = VaultLedger::new();
    ledger.on_review_accepted(OWNER, 0, TAG).unwrap();
    ledger.on_review_accepted(OWNER, 1300, TAG).unwrap();
    let moved = ledger.withdraw(OWNER, 700, true);
    assert_eq!(moved, Ok(5_000_000_000));
    let rec = ledger.get(OWNER).unwrap();
    assert_eq!(rec.withdrawable_balance, 0);
    assert_eq!(rec.pending_balance, 5_000_000_000);
    assert_eq!(rec.last_promotion_time, 1300);
}

#[test]
fn two_users_do_not_interfere() {
    let mut ledger = VaultLedger::new();
    ledger.on_review_accepted(1, 0, TAG).unwrap();
    ledger.on_review_accepted(2, 300, 9).unwrap();
    ledger.withdraw(1, 300, true).unwrap();
    let one = ledger.get(1).unwrap();
    let two = ledger.get(2).unwrap();
    assert_eq!(one.pending_balance, 0);
    assert_eq!(one.withdrawable_balance, 0);
    assert_eq!(two.pending_balance, 5_000_000_000);
    assert_eq!(two.withdrawable_balance, 0);
    assert_eq!(two.last_promotion_time, 300);
    assert_eq!(two.authority_derivation_tag, 9);
}

#[test]
fn fresh_record_matches_lifecycle() {
    let rec = VaultRecord::fresh(4, 123, 11);
    assert_eq!(rec.owner, 4);
    assert_eq!(rec.pending_balance, 0);
    assert_eq!(rec.withdrawable_balance, 0);
    assert_eq!(rec.last_promotion_time, 123);
    assert!(rec.initialized);
    assert_eq!(rec.authority_derivation_tag, 11);
}
