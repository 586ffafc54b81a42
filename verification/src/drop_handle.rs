//! The transient, ownership-bearing view handed to a finalizer.

use vstd::prelude::*;

use crate::DropMoveTypes;

verus! {

/// A wrapper around [`T::Outer`](DropMoveTypes::Outer) whose release path
/// tears the fields down individually instead of dispatching the finalizer.
///
/// A `DropHandle` is produced once per value, by
/// [`DropMoveWrapper::finalize`](crate::DropMoveWrapper::finalize), and given
/// to [`DropMove::drop_move`](crate::DropMove::drop_move).  Through
/// [`borrow`](DropHandle::borrow) and [`borrow_mut`](DropHandle::borrow_mut)
/// the finalizer reaches the outer structure's full method surface, as if it
/// still held the original value.  If the finalizer does not consume the
/// handle through [`into_inner`](DropHandle::into_inner) or
/// [`into_outer`](DropHandle::into_outer), it ends the handle with
/// [`release`](DropHandle::release), which converts the contents back to the
/// inner structure and lets each remaining field go out of scope on its own.
/// No path from a handle reaches `drop_move` again: that is what breaks the
/// recursion that a by-move finalizer would otherwise invite.
pub struct DropHandle<T: DropMoveTypes> {
    /// The outer structure in transit to the finalizer.
    pub outer: T::Outer,
}

impl<T: DropMoveTypes> DropHandle<T> {
    /// The inner value carried by this handle.
    pub open spec fn inner(self) -> T {
        T::inner_of(self.outer)
    }

    /// Wrap an inner value for dispatch to the finalizer.
    pub fn new(t: T) -> (r: Self)
        ensures
            r == (DropHandle::<T> { outer: T::outer_of(t) }),
            r.inner() == t,
    {
        proof {
            T::lemma_inner_outer(t);
        }
        DropHandle { outer: t.into_outer() }
    }

    /// Consume the handle and take the inner structure; every field now
    /// belongs to the caller, and the handle's own release path is gone with
    /// the handle.
    ///
    /// This is an associated function so that it cannot conflict with a
    /// method of `T::Outer` reached through [`borrow`](DropHandle::borrow).
    pub fn into_inner(self_: Self) -> (r: T)
        ensures
            r == self_.inner(),
    {
        T::from_outer(self_.outer)
    }

    /// Consume the handle and reconstitute the outer structure.
    ///
    /// The result is an ordinary value again: finalizing it re-enters the
    /// same teardown path, so a finalizer that unconditionally finalizes what
    /// this returns never terminates.  Merely letting the result go out of
    /// scope runs nothing.
    ///
    /// This is an associated function so that it cannot conflict with a
    /// method of `T::Outer` reached through [`borrow`](DropHandle::borrow).
    pub fn into_outer(self_: Self) -> (r: T::Outer)
        ensures
            r == self_.outer,
    {
        self_.outer
    }

    /// End the handle without extracting: the contents return to their
    /// field-level form and each field is released by its own ordinary
    /// teardown, exactly once.  The finalizer is not dispatched again.
    pub fn release(self_: Self) {
        let _inner: T = T::from_outer(self_.outer);
    }

    /// Borrow the outer structure's surface.
    pub fn borrow(&self) -> (r: &T::Outer)
        ensures
            *r == self.outer,
    {
        &self.outer
    }

    /// Mutably borrow the outer structure's surface.
    pub fn borrow_mut(&mut self) -> (r: &mut T::Outer)
        ensures
            *r == old(self).outer,
            final(self).outer == *final(r),
    {
        &mut self.outer
    }
}

impl<T: DropMoveTypes> From<T> for DropHandle<T> {
    /// Wrapping through `From` is the same as [`DropHandle::new`].
    fn from(t: T) -> (r: Self) {
        DropHandle { outer: t.into_outer() }
    }
}

impl<T: DropMoveTypes> vstd::std_specs::convert::FromSpecImpl<T> for DropHandle<T> {
    open spec fn obeys_from_spec() -> bool {
        true
    }

    open spec fn from_spec(t: T) -> Self {
        DropHandle { outer: T::outer_of(t) }
    }
}

} // verus!
