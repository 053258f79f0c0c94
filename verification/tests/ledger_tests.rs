use neon_borrow::borrow::LoanError;
use neon_borrow::ledger::{Ledger, LoanState};

#[test]
fn shared_loan_succeeds_and_increments() {
    let mut ledger = Ledger::new();
    assert_eq!(ledger.state(100), LoanState::Unborrowed);
    assert!(ledger.try_borrow(100).is_ok());
    assert_eq!(ledger.state(100), LoanState::Shared(1));
    assert!(ledger.try_borrow(100).is_ok());
    assert_eq!(ledger.state(100), LoanState::Shared(2));
    assert!(ledger.try_borrow(100).is_ok());
    assert_eq!(ledger.state(100), LoanState::Shared(3));
}

#[test]
fn exclusive_loan_succeeds_only_when_unborrowed() {
    let mut ledger = Ledger::new();
    assert!(ledger.try_borrow_mut(7).is_ok());
    assert_eq!(ledger.state(7), LoanState::Exclusive);

    let mut shared_first = Ledger::new();
    assert!(shared_first.try_borrow(7).is_ok());
    assert!(shared_first.try_borrow_mut(7).is_err());

    let mut exclusive_first = Ledger::new();
    assert!(exclusive_first.try_borrow_mut(7).is_ok());
    assert!(exclusive_first.try_borrow_mut(7).is_err());
}

#[test]
fn shared_while_exclusive_fails_with_mutating() {
    let mut ledger = Ledger::new();
    assert!(ledger.try_borrow_mut(40).is_ok());
    let err = ledger.try_borrow(40).unwrap_err();
    assert_eq!(err, LoanError::Mutating(40));
    assert_eq!(ledger.state(40), LoanState::Exclusive);
}

#[test]
fn exclusive_while_borrowed_fails_with_frozen() {
    let mut ledger = Ledger::new();
    assert!(ledger.try_borrow(40).is_ok());
    let err = ledger.try_borrow_mut(40).unwrap_err();
    assert_eq!(err, LoanError::Frozen(40));
    assert_eq!(ledger.state(40), LoanState::Shared(1));

    let mut exclusive = Ledger::new();
    assert!(exclusive.try_borrow_mut(41).is_ok());
    let err = exclusive.try_borrow_mut(41).unwrap_err();
    assert_eq!(err, LoanError::Frozen(41));
    assert_eq!(exclusive.state(41), LoanState::Exclusive);
}

#[test]
fn release_steps_toward_unborrowed() {
    let mut ledger = Ledger::new();
    assert!(ledger.try_borrow(9).is_ok());
    assert!(ledger.try_borrow(9).is_ok());
    assert_eq!(ledger.state(9), LoanState::Shared(2));
    ledger.settle(9);
    assert_eq!(ledger.state(9), LoanState::Shared(1));
    ledger.settle(9);
    assert_eq!(ledger.state(9), LoanState::Unborrowed);

    assert!(ledger.try_borrow_mut(9).is_ok());
    ledger.settle_mut(9);
    assert_eq!(ledger.state(9), LoanState::Unborrowed);
}

#[test]
fn distinct_addresses_do_not_interfere() {
    let mut ledger = Ledger::new();
    assert!(ledger.try_borrow_mut(1).is_ok());
    assert!(ledger.try_borrow(2).is_ok());
    assert!(ledger.try_borrow_mut(3).is_ok());
    assert_eq!(ledger.state(1), LoanState::Exclusive);
    assert_eq!(ledger.state(2), LoanState::Shared(1));
    assert_eq!(ledger.state(3), LoanState::Exclusive);
    ledger.settle_mut(1);
    assert_eq!(ledger.state(1), LoanState::Unborrowed);
    assert_eq!(ledger.state(2), LoanState::Shared(1));
    assert_eq!(ledger.state(3), LoanState::Exclusive);
}

#[test]
fn ledger_settles_when_all_loans_returned() {
    let mut ledger = Ledger::new();
    assert!(ledger.is_settled());
    assert!(ledger.try_borrow(5).is_ok());
    assert!(!ledger.is_settled());
    ledger.settle(5);
    assert!(ledger.is_settled());
}
