//! The owning cell at the heart of the protocol.

use vstd::prelude::*;

use crate::DropHandle;
use crate::DropMove;

verus! {

/// Owns an inner structure `T` and decides, exactly once, how its contents
/// leave: either through the non-finalizing extraction
/// [`into_inner`](DropMoveWrapper::into_inner), or through
/// [`finalize`](DropMoveWrapper::finalize), which dispatches the finalizer.
///
/// Both exits consume the wrapper, so the two-state discipline the protocol
/// needs, holding first and then released at most once, is carried by the
/// type system: after either call the wrapper no longer exists, and a second
/// extraction or a double release of the contents is a compile-time
/// impossibility rather than a run-time check.
#[derive(Clone)]
pub struct DropMoveWrapper<T: DropMove> {
    /// The inner structure whose release this wrapper controls.
    pub inner: T,
}

impl<T: DropMove> DropMoveWrapper<T> {
    /// Wrap an inner structure.  The wrapper now holds `x` and alone decides
    /// when and how its contents are released.
    pub fn new(x: T) -> (r: Self)
        ensures
            r == (DropMoveWrapper { inner: x }),
    {
        DropMoveWrapper { inner: x }
    }

    /// Move the contents out without running the finalizer.  The caller owns
    /// the result outright; the wrapper is consumed and can never release
    /// anything again.
    ///
    /// This is an associated function so that it cannot conflict with a
    /// method of the inner type reached through
    /// [`borrow`](DropMoveWrapper::borrow).
    pub fn into_inner(self_: Self) -> (r: T)
        ensures
            r == self_.inner,
    {
        self_.inner
    }

    /// Tear the wrapped value down: move the contents out, wrap them in a
    /// [`DropHandle`], and dispatch the handle to the finalizer declared by
    /// `T`'s [`DropMove`] implementation.
    ///
    /// This is the only path on which
    /// [`drop_move`](crate::DropMove::drop_move) runs, and it consumes the
    /// wrapper, so the finalizer runs at most once per wrapped value.  The
    /// contents have already left the wrapper when the finalizer starts, so
    /// whatever the finalizer does, no half-released wrapper remains behind.
    ///
    /// The postcondition says that the finalizer did run: whatever
    /// `T::drop_move` ensures of a handle carrying these contents held when
    /// this returned.
    pub fn finalize(self_: Self)
        requires
            self_.inner.finalizable(),
        ensures
            call_ensures(T::drop_move, ((DropHandle::<T> { outer: T::outer_of(self_.inner) }),), ()),
    {
        let handle = DropHandle::new(Self::into_inner(self_));
        T::drop_move(handle);
    }

    /// Borrow the inner structure.
    pub fn borrow(&self) -> (r: &T)
        ensures
            *r == self.inner,
    {
        &self.inner
    }

    /// Mutably borrow the inner structure.
    pub fn borrow_mut(&mut self) -> (r: &mut T)
        ensures
            *r == old(self).inner,
            final(self).inner == *final(r),
    {
        &mut self.inner
    }
}

} // verus!
