use neon_borrow::borrow::{BinaryData, Borrow, BorrowMut, LoanError};
use neon_borrow::context::Lock;
use neon_borrow::ledger::LoanState;

#[test]
fn exclusive_guard_blocks_shared_until_released() {
    let mut lock = Lock::new();
    let data = BinaryData::new(16, 4);

    let g1 = data.try_borrow_mut(&mut lock).unwrap();
    assert_eq!(lock.state(16), LoanState::Exclusive);

    let err = match data.try_borrow(&mut lock) {
        Err(e) => e,
        Ok(_) => panic!("expected a conflict"),
    };
    assert_eq!(err, LoanError::Mutating(16));
    assert_eq!(lock.state(16), LoanState::Exclusive);

    g1.release(&mut lock);
    assert_eq!(lock.state(16), LoanState::Unborrowed);

    let g2 = data.try_borrow(&mut lock).unwrap();
    assert_eq!(lock.state(16), LoanState::Shared(1));
    g2.release(&mut lock);
}

#[test]
fn two_shared_guards_block_exclusive_until_both_released() {
    let mut lock = Lock::new();
    let data = BinaryData::new(8, 1);

    let g1 = data.try_borrow(&mut lock).unwrap();
    let g2 = data.try_borrow(&mut lock).unwrap();
    assert_eq!(lock.state(8), LoanState::Shared(2));

    let err = match data.try_borrow_mut(&mut lock) {
        Err(e) => e,
        Ok(_) => panic!("expected a conflict"),
    };
    assert_eq!(err, LoanError::Frozen(8));

    g1.release(&mut lock);
    assert_eq!(lock.state(8), LoanState::Shared(1));
    assert!(data.try_borrow_mut(&mut lock).is_err());

    g2.release(&mut lock);
    assert_eq!(lock.state(8), LoanState::Unborrowed);
    let g3 = data.try_borrow_mut(&mut lock).unwrap();
    assert_eq!(lock.state(8), LoanState::Exclusive);
    g3.release(&mut lock);
    assert!(lock.is_settled());
}

#[test]
fn panicking_variants_succeed_without_conflict() {
    let mut lock = Lock::new();
    let data = BinaryData::new(24, 2);

    let g1 = data.borrow(&mut lock);
    assert_eq!(lock.state(24), LoanState::Shared(1));
    g1.release(&mut lock);

    let g2 = data.borrow_mut(&mut lock);
    assert_eq!(lock.state(24), LoanState::Exclusive);
    g2.release(&mut lock);
    assert!(lock.is_settled());
}

#[test]
fn guards_expose_the_projected_contents() {
    let mut lock = Lock::new();
    let data = BinaryData::new(32, 12);

    let g = data.try_borrow(&mut lock).unwrap();
    assert_eq!(g.target().base, 32);
    assert_eq!(g.target().len, 12);
    g.release(&mut lock);

    let mut gm = data.try_borrow_mut(&mut lock).unwrap();
    assert_eq!(gm.target().base, 32);
    gm.target_mut().len = 6;
    assert_eq!(gm.target().len, 6);
    gm.release(&mut lock);
}

#[test]
fn scopes_have_independent_ledgers() {
    let mut outer = Lock::new();
    let data = BinaryData::new(48, 4);
    let g = data.try_borrow_mut(&mut outer).unwrap();

    let mut inner = Lock::new();
    assert_eq!(inner.state(48), LoanState::Unborrowed);
    let inner_guard = data.try_borrow_mut(&mut inner).unwrap();
    assert_eq!(inner.state(48), LoanState::Exclusive);
    assert_eq!(outer.state(48), LoanState::Exclusive);
    inner_guard.release(&mut inner);
    assert!(inner.is_settled());

    assert_eq!(outer.state(48), LoanState::Exclusive);
    g.release(&mut outer);
    assert!(outer.is_settled());
}

#[test]
fn loan_error_messages_name_the_address() {
    assert_eq!(
        LoanError::Mutating(255).message(),
        "outstanding mutable loan exists for object at 0xff"
    );
    assert_eq!(
        LoanError::Mutating(16).message(),
        "outstanding mutable loan exists for object at 0x10"
    );
    assert_eq!(LoanError::Frozen(0).message(), "object at 0x0 is frozen");
    assert_eq!(
        LoanError::Frozen(usize::MAX).message(),
        format!("object at 0x{:x} is frozen", usize::MAX)
    );
}
