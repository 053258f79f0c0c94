//! The loan ledger: a per-scope table that records, for each identity
//! address, how many shared loans are outstanding, or that the exclusive
//! loan is.

use vstd::prelude::*;
use std::collections::HashMap;
use crate::borrow::LoanError;

verus! {

broadcast use vstd::std_specs::hash::group_hash_axioms;

/// The loan state of one identity address. An address has exactly one
/// state at a time, so by construction it is never shared and exclusively
/// held at once.
#[derive(Clone, Copy, Debug, PartialEq, Eq, Structural)]
pub enum LoanState {
    /// No loan is outstanding.
    Unborrowed,
    /// The given number (at least one) of shared, read-only loans are
    /// outstanding.
    Shared(usize),
    /// The single exclusive, read-write loan is outstanding.
    Exclusive,
}

/// The state an address moves to when one more shared loan is granted.
pub open spec fn after_shared_grant(s: LoanState) -> LoanState {
    match s {
        LoanState::Unborrowed => LoanState::Shared(1),
        LoanState::Shared(n) => LoanState::Shared((n + 1) as usize),
        LoanState::Exclusive => s,
    }
}

/// The state an address moves to when one shared loan is returned:
/// one step toward `Unborrowed`, never past it.
pub open spec fn after_shared_release(s: LoanState) -> LoanState {
    match s {
        LoanState::Shared(n) => if n <= 1 {
            LoanState::Unborrowed
        } else {
            LoanState::Shared((n - 1) as usize)
        },
        _ => s,
    }
}

/// The table mapping identity address to current loan state. Addresses
/// with no outstanding loan are simply absent.
pub struct Ledger {
    table: HashMap<usize, LoanState>,
}

impl Ledger {
    /// An entry is stored only while a loan is outstanding, and a stored
    /// shared count is at least one.
    pub closed spec fn wf(self) -> bool {
        forall|a: usize| #[trigger] self.table@.contains_key(a) ==> match self.table@[a] {
            LoanState::Unborrowed => false,
            LoanState::Shared(n) => n >= 1,
            LoanState::Exclusive => true,
        }
    }

    /// The loan state currently recorded for address `a`.
    pub closed spec fn state_of(self, a: usize) -> LoanState {
        if self.table@.contains_key(a) {
            self.table@[a]
        } else {
            LoanState::Unborrowed
        }
    }

    /// No loan is outstanding on any address.
    pub open spec fn settled(self) -> bool {
        forall|a: usize| #[trigger] self.state_of(a) == LoanState::Unborrowed
    }

    /// A fresh ledger with no outstanding loans.
    pub fn new() -> (l: Ledger)
        ensures
            l.wf(),
            l.settled(),
    {
        let l = Ledger { table: HashMap::new() };
        proof {
            assert forall|a: usize| #[trigger] l.state_of(a) == LoanState::Unborrowed by {
                assert(!l.table@.contains_key(a));
            }
        }
        l
    }

    /// Report the recorded loan state of `addr`.
    pub fn state(&self, addr: usize) -> (s: LoanState)
        ensures
            s == self.state_of(addr),
    {
        match self.table.get(&addr) {
            Some(s) => *s,
            None => LoanState::Unborrowed,
        }
    }

    /// Request one more shared loan on `addr`. Succeeds whenever no
    /// exclusive loan is outstanding there, incrementing the shared count;
    /// an outstanding exclusive loan makes it fail, leaving every address
    /// unchanged.
    pub fn try_borrow(&mut self, addr: usize) -> (r: Result<(), LoanError>)
        requires
            old(self).wf(),
            old(self).state_of(addr) matches LoanState::Shared(n) ==> n < usize::MAX,
        ensures
            final(self).wf(),
            r is Ok <==> !(old(self).state_of(addr) is Exclusive),
            r is Ok ==> final(self).state_of(addr) == after_shared_grant(old(self).state_of(addr)),
            r is Err ==> *final(self) == *old(self) && r == Err::<(), LoanError>(LoanError::Mutating(addr)),
            forall|b: usize| b != addr ==> final(self).state_of(b) == old(self).state_of(b),
    {
        let state = self.state(addr);
        match state {
            LoanState::Unborrowed => {
                self.table.insert(addr, LoanState::Shared(1));
                Ok(())
            }
            LoanState::Shared(n) => {
                self.table.insert(addr, LoanState::Shared(n + 1));
                Ok(())
            }
            LoanState::Exclusive => Err(LoanError::Mutating(addr)),
        }
    }

    /// Request the exclusive loan on `addr`. Succeeds only while no loan of
    /// any kind is outstanding there; otherwise fails, leaving every address
    /// unchanged.
    pub fn try_borrow_mut(&mut self, addr: usize) -> (r: Result<(), LoanError>)
        requires
            old(self).wf(),
        ensures
            final(self).wf(),
            r is Ok <==> old(self).state_of(addr) is Unborrowed,
            r is Ok ==> final(self).state_of(addr) == LoanState::Exclusive,
            r is Err ==> *final(self) == *old(self) && r == Err::<(), LoanError>(LoanError::Frozen(addr)),
            forall|b: usize| b != addr ==> final(self).state_of(b) == old(self).state_of(b),
    {
        let state = self.state(addr);
        match state {
            LoanState::Unborrowed => {
                self.table.insert(addr, LoanState::Exclusive);
                Ok(())
            }
            LoanState::Shared(_) => Err(LoanError::Frozen(addr)),
            LoanState::Exclusive => Err(LoanError::Frozen(addr)),
        }
    }

    /// Return one shared loan on `addr`. Guard construction makes a call on
    /// any other state unreachable, so it is excluded here rather than
    /// handled at runtime.
    pub fn settle(&mut self, addr: usize)
        requires
            old(self).wf(),
            old(self).state_of(addr) is Shared,
        ensures
            final(self).wf(),
            final(self).state_of(addr) == after_shared_release(old(self).state_of(addr)),
            forall|b: usize| b != addr ==> final(self).state_of(b) == old(self).state_of(b),
    {
        let state = self.state(addr);
        match state {
            LoanState::Shared(n) => {
                if n <= 1 {
                    self.table.remove(&addr);
                } else {
                    self.table.insert(addr, LoanState::Shared(n - 1));
                }
            }
            _ => {
                assert(false);
            }
        }
    }

    /// Return the exclusive loan on `addr`, leaving it unborrowed. As with
    /// `settle`, any other state is a guard/ledger mismatch and is excluded.
    pub fn settle_mut(&mut self, addr: usize)
        requires
            old(self).wf(),
            old(self).state_of(addr) is Exclusive,
        ensures
            final(self).wf(),
            final(self).state_of(addr) == LoanState::Unborrowed,
            forall|b: usize| b != addr ==> final(self).state_of(b) == old(self).state_of(b),
    {
        self.table.remove(&addr);
    }

    /// Report whether every address is unborrowed, as it must be before the
    /// owning access-scope token may end.
    pub fn is_settled(&self) -> (r: bool)
        requires
            self.wf(),
        ensures
            r == self.settled(),
    {
        let empty = self.table.is_empty();
        proof {
            if empty {
                assert forall|a: usize| #[trigger] self.state_of(a) == LoanState::Unborrowed by {
                    assert(!self.table@.dom().contains(a));
                }
            } else {
                let a = self.table@.dom().choose();
                assert(self.table@.dom().contains(a));
                assert(self.state_of(a) != LoanState::Unborrowed);
            }
        }
        empty
    }
}

} // verus!
