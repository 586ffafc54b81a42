//! A guard that runs a stored function exactly once when finalized.

use vstd::prelude::*;

use crate::DropHandle;
use crate::DropMove;
use crate::DropMoveTypes;
use crate::DropMoveWrapper;

verus! {

/// The hidden field holder of a [`DropGuard`]: the stored function.
#[derive(Clone)]
pub struct DropGuardInner<F: FnOnce()> {
    /// The function to run on finalization.
    pub func: F,
}

/// Runs a function when finalized.
///
/// The guard owns its function through a [`DropMoveWrapper`], so the function
/// leaves exactly once: either [`finalize`](DropGuard::finalize) dispatches it
/// to the finalizer, which calls it, or [`into_inner`](DropGuard::into_inner)
/// hands it back uncalled.  Ordinary teardown of a guard that was never
/// finalized runs nothing, so a caller that wants the stored function to run
/// must finalize the guard.
#[derive(Clone)]
pub struct DropGuard<F: FnOnce()> {
    /// The cell owning the guard's fields.
    pub cell: DropMoveWrapper<DropGuardInner<F>>,
}

impl<F: FnOnce()> DropMoveTypes for DropGuardInner<F> {
    type Outer = DropGuard<F>;

    open spec fn inner_of(outer: DropGuard<F>) -> Self {
        outer.cell.inner
    }

    open spec fn outer_of(inner: Self) -> DropGuard<F> {
        DropGuard { cell: DropMoveWrapper { inner } }
    }

    proof fn lemma_inner_outer(x: Self) {
    }

    proof fn lemma_outer_inner(o: DropGuard<F>) {
    }

    fn into_outer(self) -> (r: DropGuard<F>) {
        DropGuard { cell: DropMoveWrapper { inner: self } }
    }

    fn from_outer(o: DropGuard<F>) -> (r: Self) {
        o.cell.inner
    }
}

impl<F: FnOnce()> DropMove for DropGuardInner<F> {
    /// The stored function must be callable.
    open spec fn finalizable(self) -> bool {
        call_requires(self.func, ())
    }

    /// The finalizer: take the fields and call the stored function.  The
    /// added postcondition records that the function ran to completion.
    fn drop_move(self_: DropHandle<Self>)
        ensures
            call_ensures(self_.inner().func, (), ()),
    {
        let inner = DropHandle::into_inner(self_);
        (inner.func)()
    }
}

impl<F: FnOnce()> DropGuard<F> {
    /// Construct a guard that will run `f` when finalized.
    pub fn new(f: F) -> (r: Self)
        ensures
            r == (DropGuard { cell: DropMoveWrapper { inner: DropGuardInner { func: f } } }),
    {
        DropGuardInner { func: f }.into_outer()
    }

    /// Extract the function without running it.  This is the non-finalizing
    /// path: the guard is consumed, the finalizer never sees it, and the
    /// caller decides what becomes of the function.
    pub fn into_inner(self) -> (r: F)
        ensures
            r == self.cell.inner.func,
    {
        let inner = DropGuardInner::from_outer(self);
        inner.func
    }

    /// Tear the guard down: the stored function is dispatched to the
    /// finalizer and called, exactly once.  On return, whatever the stored
    /// function ensures of a completed call held.
    pub fn finalize(self)
        requires
            call_requires(self.cell.inner.func, ()),
        ensures
            call_ensures(self.cell.inner.func, (), ()),
    {
        proof {
            DropGuardInner::<F>::lemma_inner_outer(self.cell.inner);
        }
        DropMoveWrapper::finalize(self.cell)
    }

    /// Borrow the stored function.
    pub fn borrow(&self) -> (r: &F)
        ensures
            *r == self.cell.inner.func,
    {
        &self.cell.inner.func
    }

    /// Mutably borrow the stored function.
    pub fn borrow_mut(&mut self) -> (r: &mut F)
        ensures
            *r == old(self).cell.inner.func,
            *final(self) == (DropGuard {
                cell: DropMoveWrapper { inner: DropGuardInner { func: *final(r) } },
            }),
    {
        &mut self.cell.inner.func
    }
}

impl<F: FnOnce()> From<F> for DropGuard<F> {
    /// Wrapping through `From` is the same as [`DropGuard::new`].
    fn from(f: F) -> (r: Self) {
        DropGuard::new(f)
    }
}

impl<F: FnOnce()> vstd::std_specs::convert::FromSpecImpl<F> for DropGuard<F> {
    open spec fn obeys_from_spec() -> bool {
        true
    }

    open spec fn from_spec(f: F) -> Self {
        DropGuard { cell: DropMoveWrapper { inner: DropGuardInner { func: f } } }
    }
}

} // verus!
