//! The access-scope token: a short-lived object standing for the window
//! during which the host has handed control to native code. It owns the
//! loan ledger for that window, so two overlapping scopes can never see
//! each other's loans.

use vstd::prelude::*;
use crate::ledger::{Ledger, LoanState};

verus! {

/// The token for one window of host control. Every loan request within
/// the window goes through this token's ledger, and every loan taken must
/// be returned before the window ends.
pub struct Lock {
    /// The ledger recording this scope's outstanding loans.
    pub ledger: Ledger,
}

impl Lock {
    /// The ledger's internal invariant holds.
    pub open spec fn wf(self) -> bool {
        self.ledger.wf()
    }

    /// The loan state recorded for address `a` within this scope.
    pub open spec fn state_of(self, a: usize) -> LoanState {
        self.ledger.state_of(a)
    }

    /// No loan of this scope is outstanding.
    pub open spec fn settled(self) -> bool {
        self.ledger.settled()
    }

    /// A token for a fresh scope, whose ledger has no outstanding loans.
    pub fn new() -> (l: Lock)
        ensures
            l.wf(),
            l.settled(),
    {
        Lock { ledger: Ledger::new() }
    }

    /// Report the loan state of `addr` within this scope.
    pub fn state(&self, addr: usize) -> (s: LoanState)
        ensures
            s == self.state_of(addr),
    {
        self.ledger.state(addr)
    }

    /// Report whether every loan of this scope has been returned, as all
    /// must be before the token may end.
    pub fn is_settled(&self) -> (r: bool)
        requires
            self.wf(),
        ensures
            r == self.settled(),
    {
        self.ledger.is_settled()
    }
}

} // verus!
