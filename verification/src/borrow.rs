//! Types and traits for obtaining temporary shared or exclusive views of
//! the contents of host-owned values while an access-scope token is held.

use vstd::prelude::*;
use vstd::pervasive::unreached;
use vstd::string::StringExecFns;
use crate::context::Lock;
use crate::ledger::{after_shared_grant, after_shared_release, LoanState};
use crate::text::{hex_seq, push_hex};

verus! {

/// An error produced by a failed loan request.
#[derive(Clone, Copy, Debug, PartialEq, Eq, Structural)]
pub enum LoanError {
    /// The exclusive loan is already outstanding for the object at this
    /// address, so no further loan of any kind can be granted.
    Mutating(usize),
    /// Some loan is already outstanding for the object at this address, so
    /// it is frozen against a new exclusive loan.
    Frozen(usize),
}

impl LoanError {
    /// The diagnostic text for this error, naming the offending address.
    pub open spec fn message_spec(self) -> Seq<char> {
        match self {
            LoanError::Mutating(a) => "outstanding mutable loan exists for object at 0x"@ + hex_seq(
                a as nat,
            ),
            LoanError::Frozen(a) => "object at 0x"@ + hex_seq(a as nat) + " is frozen"@,
        }
    }

    /// Render the diagnostic text for this error.
    pub fn message(&self) -> (m: String)
        ensures
            m@ == self.message_spec(),
    {
        match self {
            LoanError::Mutating(a) => {
                let mut m = String::from_str("outstanding mutable loan exists for object at 0x");
                push_hex(&mut m, *a);
                m
            }
            LoanError::Frozen(a) => {
                let mut m = String::from_str("object at 0x");
                push_hex(&mut m, *a);
                m.append(" is frozen");
                m
            }
        }
    }
}

/// A pointer capability: a borrowable target exposes the identity address
/// of its backing memory, read-only and mutably. The ledger uses the
/// address only as a lookup key and never dereferences it.
pub trait Pointer: Sized {
    /// The identity address of the backing memory.
    spec fn addr(&self) -> usize;

    /// The read-only identity address.
    fn as_ptr(&self) -> (a: usize)
        ensures
            a == self.addr(),
    ;

    /// The mutable identity address.
    fn as_mut(&mut self) -> (a: usize)
        ensures
            a == old(self).addr(),
            *final(self) == *old(self),
    ;
}

/// A shared view of a borrowed target's contents. It is constructed only
/// by a successful shared registration in the scope's ledger; while it
/// lives it stands for exactly one outstanding shared-loan contribution,
/// which `release` returns.
pub struct Ref<T: Pointer> {
    pointer: T,
}

impl<T: Pointer> Ref<T> {
    /// The pointer capability this guard holds.
    pub closed spec fn ptr(self) -> T {
        self.pointer
    }

    /// The identity address whose ledger entry this guard contributes to.
    pub open spec fn addr(self) -> usize {
        self.ptr().addr()
    }

    /// Register a shared loan for `pointer`'s address in the scope of
    /// `lock`, wrapping the capability in a guard on success. On failure
    /// nothing changes.
    pub fn new(lock: &mut Lock, pointer: T) -> (r: Result<Ref<T>, LoanError>)
        requires
            old(lock).wf(),
            old(lock).state_of(pointer.addr()) matches LoanState::Shared(n) ==> n < usize::MAX,
        ensures
            final(lock).wf(),
            r is Ok <==> !(old(lock).state_of(pointer.addr()) is Exclusive),
            r matches Ok(g) ==> g.ptr() == pointer && final(lock).state_of(pointer.addr())
                == after_shared_grant(old(lock).state_of(pointer.addr())),
            r matches Err(e) ==> e == LoanError::Mutating(pointer.addr()) && *final(lock) == *old(
                lock,
            ),
            forall|b: usize|
                b != pointer.addr() ==> final(lock).state_of(b) == old(lock).state_of(b),
    {
        let a = pointer.as_ptr();
        match lock.ledger.try_borrow(a) {
            Ok(()) => Ok(Ref { pointer }),
            Err(e) => Err(e),
        }
    }

    /// Return this guard's shared loan to the scope's ledger: one step
    /// toward `Unborrowed`, never past it.
    pub fn release(self, lock: &mut Lock)
        requires
            old(lock).wf(),
            old(lock).state_of(self.addr()) is Shared,
        ensures
            final(lock).wf(),
            final(lock).state_of(self.addr()) == after_shared_release(
                old(lock).state_of(self.addr()),
            ),
            forall|b: usize| b != self.addr() ==> final(lock).state_of(b) == old(lock).state_of(b),
    {
        let a = self.pointer.as_ptr();
        lock.ledger.settle(a);
    }

    /// Read access to the capability for the projected contents.
    pub fn target(&self) -> (t: &T)
        ensures
            *t == self.ptr(),
    {
        &self.pointer
    }
}

/// An exclusive view of a borrowed target's contents. It is constructed
/// only by a successful exclusive registration in the scope's ledger;
/// while it lives, no other loan can be granted on its address.
pub struct RefMut<T: Pointer> {
    pointer: T,
}

impl<T: Pointer> RefMut<T> {
    /// The pointer capability this guard holds.
    pub closed spec fn ptr(self) -> T {
        self.pointer
    }

    /// The identity address whose ledger entry this guard contributes to.
    pub open spec fn addr(self) -> usize {
        self.ptr().addr()
    }

    /// Register the exclusive loan for `pointer`'s address in the scope of
    /// `lock`, wrapping the capability in a guard on success. On failure
    /// nothing changes.
    pub fn new(lock: &mut Lock, pointer: T) -> (r: Result<RefMut<T>, LoanError>)
        requires
            old(lock).wf(),
        ensures
            final(lock).wf(),
            r is Ok <==> old(lock).state_of(pointer.addr()) is Unborrowed,
            r matches Ok(g) ==> g.ptr() == pointer && final(lock).state_of(pointer.addr())
                == LoanState::Exclusive,
            r matches Err(e) ==> e == LoanError::Frozen(pointer.addr()) && *final(lock) == *old(
                lock,
            ),
            forall|b: usize|
                b != pointer.addr() ==> final(lock).state_of(b) == old(lock).state_of(b),
    {
        let mut pointer = pointer;
        let a = pointer.as_mut();
        match lock.ledger.try_borrow_mut(a) {
            Ok(()) => Ok(RefMut { pointer }),
            Err(e) => Err(e),
        }
    }

    /// Return this guard's exclusive loan to the scope's ledger, leaving
    /// its address unborrowed.
    pub fn release(self, lock: &mut Lock)
        requires
            old(lock).wf(),
            old(lock).state_of(self.addr()) is Exclusive,
        ensures
            final(lock).wf(),
            final(lock).state_of(self.addr()) == LoanState::Unborrowed,
            forall|b: usize| b != self.addr() ==> final(lock).state_of(b) == old(lock).state_of(b),
    {
        let mut this = self;
        let a = this.pointer.as_mut();
        lock.ledger.settle_mut(a);
    }

    /// Read access to the capability for the projected contents.
    pub fn target(&self) -> (t: &T)
        ensures
            *t == self.ptr(),
    {
        &self.pointer
    }

    /// Write access to the capability for the projected contents.
    pub fn target_mut(&mut self) -> (t: &mut T)
        ensures
            *t == old(self).ptr(),
            final(self).ptr() == *final(t),
    {
        &mut self.pointer
    }
}

/// The capability of host values whose contents can be viewed read-only
/// while the scope's token is held.
pub trait Borrow: Sized {
    /// The type of the value's projected contents.
    type Target: Pointer;

    /// The identity address under which this value's loans are recorded.
    spec fn loan_addr(&self) -> usize;

    /// Request a shared view of this value's contents. Succeeds whenever
    /// no exclusive loan is outstanding on its address; otherwise fails
    /// with the conflict, changing nothing.
    fn try_borrow(self, lock: &mut Lock) -> (r: Result<Ref<Self::Target>, LoanError>)
        requires
            old(lock).wf(),
            old(lock).state_of(self.loan_addr()) matches LoanState::Shared(n) ==> n < usize::MAX,
        ensures
            final(lock).wf(),
            r is Ok <==> !(old(lock).state_of(self.loan_addr()) is Exclusive),
            r matches Ok(g) ==> g.addr() == self.loan_addr() && final(lock).state_of(
                self.loan_addr(),
            ) == after_shared_grant(old(lock).state_of(self.loan_addr())),
            r matches Err(e) ==> e == LoanError::Mutating(self.loan_addr()) && *final(lock) == *old(
                lock,
            ),
            forall|b: usize|
                b != self.loan_addr() ==> final(lock).state_of(b) == old(lock).state_of(b),
    ;

    /// Request a shared view at a call site that has already established
    /// that no conflict is possible; the conflicting input is excluded
    /// rather than reported.
    fn borrow(self, lock: &mut Lock) -> (g: Ref<Self::Target>)
        requires
            old(lock).wf(),
            !(old(lock).state_of(self.loan_addr()) is Exclusive),
            old(lock).state_of(self.loan_addr()) matches LoanState::Shared(n) ==> n < usize::MAX,
        ensures
            final(lock).wf(),
            g.addr() == self.loan_addr(),
            final(lock).state_of(self.loan_addr()) == after_shared_grant(
                old(lock).state_of(self.loan_addr()),
            ),
            forall|b: usize|
                b != self.loan_addr() ==> final(lock).state_of(b) == old(lock).state_of(b),
    {
        match self.try_borrow(lock) {
            Ok(g) => g,
            Err(_) => unreached(),
        }
    }
}

/// The capability of host values whose contents can also be viewed
/// mutably while the scope's token is held.
pub trait BorrowMut: Borrow {
    /// Request an exclusive view of this value's contents. Succeeds only
    /// while its address is unborrowed; otherwise fails with the conflict,
    /// changing nothing.
    fn try_borrow_mut(self, lock: &mut Lock) -> (r: Result<RefMut<Self::Target>, LoanError>)
        requires
            old(lock).wf(),
        ensures
            final(lock).wf(),
            r is Ok <==> old(lock).state_of(self.loan_addr()) is Unborrowed,
            r matches Ok(g) ==> g.addr() == self.loan_addr() && final(lock).state_of(
                self.loan_addr(),
            ) == LoanState::Exclusive,
            r matches Err(e) ==> e == LoanError::Frozen(self.loan_addr()) && *final(lock) == *old(
                lock,
            ),
            forall|b: usize|
                b != self.loan_addr() ==> final(lock).state_of(b) == old(lock).state_of(b),
    ;

    /// Request an exclusive view at a call site that has already
    /// established that no conflict is possible; the conflicting inputs
    /// are excluded rather than reported.
    fn borrow_mut(self, lock: &mut Lock) -> (g: RefMut<Self::Target>)
        requires
            old(lock).wf(),
            old(lock).state_of(self.loan_addr()) is Unborrowed,
        ensures
            final(lock).wf(),
            g.addr() == self.loan_addr(),
            final(lock).state_of(self.loan_addr()) == LoanState::Exclusive,
            forall|b: usize|
                b != self.loan_addr() ==> final(lock).state_of(b) == old(lock).state_of(b),
    {
        match self.try_borrow_mut(lock) {
            Ok(g) => g,
            Err(_) => unreached(),
        }
    }
}

/// The projected contents of a borrowable host value: a span of backing
/// memory identified by its base address.
#[derive(Clone, Copy, Debug, PartialEq, Eq, Structural)]
pub struct BinaryData {
    /// The base address of the span: its identity for the ledger.
    pub base: usize,
    /// The length of the span in bytes.
    pub len: usize,
}

impl BinaryData {
    /// The capability for a span of `len` bytes at `base`.
    pub fn new(base: usize, len: usize) -> (d: BinaryData)
        ensures
            d.base == base,
            d.len == len,
    {
        BinaryData { base, len }
    }
}

impl Pointer for BinaryData {
    open spec fn addr(&self) -> usize {
        self.base
    }

    fn as_ptr(&self) -> (a: usize) {
        self.base
    }

    fn as_mut(&mut self) -> (a: usize) {
        self.base
    }
}

impl Borrow for BinaryData {
    type Target = BinaryData;

    open spec fn loan_addr(&self) -> usize {
        self.base
    }

    fn try_borrow(self, lock: &mut Lock) -> (r: Result<Ref<BinaryData>, LoanError>) {
        Ref::new(lock, self)
    }
}

impl BorrowMut for BinaryData {
    fn try_borrow_mut(self, lock: &mut Lock) -> (r: Result<RefMut<BinaryData>, LoanError>) {
        RefMut::new(lock, self)
    }
}

} // verus!
